use gleeby::ppu::objects::{pos2, ObjAttributeFlags, ObjAttributes, Pos2, Sprite};
use gleeby::ppu::palettes::PaletteColor::{_0, _1, _2, _3};
use gleeby::ppu::palettes::{CgbPalette, Color, PaletteColor, PaletteSelector};
use gleeby::ppu::tiles::{Tile, TileRow, Tilemap};
use gleeby::ppu::{ConversionError, TiledataSelector, TilemapSelector};

#[test]
fn tile_from_u8() {
    let smiley = Tile::try_from_bytes([
        [0, 0, 0, 0, 0, 0, 0, 0],
        [0, 1, 1, 1, 1, 1, 1, 0],
        [0, 1, 0, 1, 1, 0, 1, 0],
        [0, 1, 1, 1, 1, 1, 1, 0],
        [0, 1, 0, 1, 1, 0, 1, 0],
        [0, 1, 0, 0, 0, 0, 1, 0],
        [0, 1, 1, 1, 1, 1, 1, 0],
        [0, 0, 0, 0, 0, 0, 0, 0],
    ])
    .expect("Someone did a silly >:#");

    let target = Tile {
        pixel_data: [
            TileRow { pixel_data: (0x00, 0x00) },
            TileRow { pixel_data: (0x7e, 0x00) },
            TileRow { pixel_data: (0x5a, 0x00) },
            TileRow { pixel_data: (0x7e, 0x00) },
            TileRow { pixel_data: (0x5a, 0x00) },
            TileRow { pixel_data: (0x42, 0x00) },
            TileRow { pixel_data: (0x7e, 0x00) },
            TileRow { pixel_data: (0x00, 0x00) },
        ],
    };

    assert_eq!(smiley, target);
}

#[test]
fn tile_from_colors() {
    let smiley = {
        Tile::new([
            [_0, _0, _0, _0, _0, _0, _0, _0],
            [_0, _1, _1, _1, _1, _1, _1, _0],
            [_0, _1, _0, _1, _1, _0, _1, _0],
            [_0, _1, _1, _1, _1, _1, _1, _0],
            [_0, _1, _0, _1, _1, _0, _1, _0],
            [_0, _1, _0, _0, _0, _0, _1, _0],
            [_0, _1, _1, _1, _1, _1, _1, _0],
            [_0, _0, _0, _0, _0, _0, _0, _0],
        ])
    };

    let target = Tile {
        pixel_data: [
            TileRow { pixel_data: (0x00, 0x00) },
            TileRow { pixel_data: (0x7e, 0x00) },
            TileRow { pixel_data: (0x5a, 0x00) },
            TileRow { pixel_data: (0x7e, 0x00) },
            TileRow { pixel_data: (0x5a, 0x00) },
            TileRow { pixel_data: (0x42, 0x00) },
            TileRow { pixel_data: (0x7e, 0x00) },
            TileRow { pixel_data: (0x00, 0x00) },
        ],
    };

    assert_eq!(smiley, target);
}

const PANDOCS: [[u8; 8]; 8] = [
    [0, 2, 3, 3, 3, 3, 2, 0],
    [0, 3, 0, 0, 0, 0, 3, 0],
    [0, 3, 0, 0, 0, 0, 3, 0],
    [0, 3, 0, 0, 0, 0, 3, 0],
    [0, 3, 1, 3, 3, 3, 3, 0],
    [0, 1, 1, 1, 3, 1, 3, 0],
    [0, 3, 1, 3, 1, 3, 2, 0],
    [0, 2, 3, 3, 3, 2, 0, 0],
];

#[test]
fn pandocs_example() {
    let tile = Tile::try_from_bytes([
        [0, 2, 3, 3, 3, 3, 2, 0],
        [0, 3, 0, 0, 0, 0, 3, 0],
        [0, 3, 0, 0, 0, 0, 3, 0],
        [0, 3, 0, 0, 0, 0, 3, 0],
        [0, 3, 1, 3, 3, 3, 3, 0],
        [0, 1, 1, 1, 3, 1, 3, 0],
        [0, 3, 1, 3, 1, 3, 2, 0],
        [0, 2, 3, 3, 3, 2, 0, 0],
    ])
    .expect("Someone did a silly >:#");

    let target_bytes = [
        0x3c, 0x7e, 0x42, 0x42, 0x42, 0x42, 0x42, 0x42, 0x7e, 0x5e, 0x7e, 0x0a, 0x7c, 0x56, 0x38,
        0x7c,
    ];

    assert_eq!(tile.as_bytes(), target_bytes);
}

#[test]
fn tile_is_read_back_from_its_bytes() {
    let tile = Tile::try_from_bytes(PANDOCS).unwrap();
    let derived = Tile::pixels_from_bytes(tile.as_bytes());
    assert_eq!(derived, PANDOCS);
    assert_eq!(Tile::try_from_bytes(derived), Ok(tile));
}

#[test]
fn tile_of_every_colour_is_read_back() {
    let row = [_0, _1, _2, _3, _3, _2, _1, _0];
    let tile = Tile::new([row; 8]);
    let derived = Tile::pixels_from_bytes(tile.as_bytes());
    assert_eq!(derived, [[0, 1, 2, 3, 3, 2, 1, 0]; 8]);
    assert_eq!(Tile::try_from_bytes(derived), Ok(tile));
}

#[test]
fn tile_rejects_a_number_that_is_no_colour() {
    let mut pixels = PANDOCS;
    pixels[7][7] = 4;
    assert_eq!(Tile::try_from_bytes(pixels), Err(ConversionError::InvalidPaletteColor));
}

#[test]
fn tile_row_packs_the_two_planes() {
    let row = TileRow::from([_1, _0, _2, _3, _0, _0, _1, _2]);
    assert_eq!(row.pixel_data, (0x92, 0x31));
    assert_eq!(row.pixels(), [1, 0, 2, 3, 0, 0, 1, 2]);
}

#[test]
fn flat_tiles_and_rows() {
    assert_eq!(TileRow::flat(PaletteColor::_0).pixel_data, (0x00, 0x00));
    assert_eq!(TileRow::flat(PaletteColor::_1).pixel_data, (0xff, 0x00));
    assert_eq!(TileRow::flat(PaletteColor::_2).pixel_data, (0x00, 0xff));
    assert_eq!(TileRow::flat(PaletteColor::_3).pixel_data, (0xff, 0xff));
    assert_eq!(Tile::flat(PaletteColor::_3).as_bytes(), [0xff; 16]);
    let one = Tile::flat(PaletteColor::_1).as_bytes();
    assert_eq!(one, [0xff, 0, 0xff, 0, 0xff, 0, 0xff, 0, 0xff, 0, 0xff, 0, 0xff, 0, 0xff, 0]);
}

#[test]
fn tilemap_rows() {
    let mut map = [0u8; 1024];
    map[32 * 2 + 5] = 7;
    map[32 * 31 + 31] = 9;
    let tilemap = Tilemap::from(map);
    assert_eq!(tilemap.len(), 1024);
    let row = tilemap.row(2);
    assert_eq!(row.len(), 32);
    assert_eq!(row[5], 7);
    assert_eq!(tilemap.row(31)[31], 9);
    assert_eq!(tilemap.row(0), vec![0u8; 32]);
    assert_eq!(tilemap.as_slice().len(), 1024);
    assert_eq!(tilemap.as_slice()[69], 7);
}

#[test]
fn palettes_and_selectors() {
    assert_eq!(CgbPalette::try_from(0), Ok(CgbPalette::_0));
    assert_eq!(CgbPalette::try_from(7), Ok(CgbPalette::_7));
    assert_eq!(CgbPalette::try_from(8), Err(ConversionError::InvalidPaletteIndex));
    assert_eq!(CgbPalette::_3.offset(), 24);
    assert_eq!(CgbPalette::_7.offset(), 56);
    assert_eq!(CgbPalette::_5.index(), 5);
    assert_eq!(CgbPalette::default(), CgbPalette::_0);
    assert_eq!(PaletteSelector::new(true, CgbPalette::_2).byte(), 0x82);
    assert_eq!(PaletteSelector::new(false, CgbPalette::_2).byte(), 0x02);
    assert_eq!(PaletteSelector::new(true, CgbPalette::_0).byte(), 0x80);
    assert_eq!(PaletteColor::try_from(3), Ok(PaletteColor::_3));
    assert_eq!(PaletteColor::try_from(4), Err(ConversionError::InvalidPaletteColor));
    assert_eq!(PaletteColor::_2.planes(), (0, 1));
    assert_eq!(PaletteColor::_1.planes(), (1, 0));
    assert_eq!(PaletteColor::_3.code(), 3);
    assert_eq!(PaletteColor::default(), PaletteColor::_0);
}

#[test]
fn colours() {
    assert_eq!(Color::black(), Color(0));
    assert_eq!(Color::white(), Color(0xffff));
    assert_eq!(Color::dark_grey(), Color(0b01010_01010_01010_0));
    assert_eq!(Color::light_grey(), Color(0b10101_10101_10101_0));
    assert_eq!(Color::red(), Color(u16::from_le_bytes([0b00000000, 0b00011111])));
    assert_eq!(Color::green(), Color(u16::from_le_bytes([0b00000011, 0b11100000])));
    assert_eq!(Color::blue(), Color(u16::from_le_bytes([0b01111100, 0b00000000])));
    assert_eq!(Color::red() | Color::green(), Color(0xff03));
    assert_eq!(Color::red().or(Color::blue()), Color(0x1f7c));
}

#[test]
fn tile_addresses() {
    assert_eq!(TiledataSelector::Tiledata8000.from_idx(0), 0x8000);
    assert_eq!(TiledataSelector::Tiledata8000.from_idx(1), 0x8010);
    assert_eq!(TiledataSelector::Tiledata8000.from_idx(255), 0x8ff0);
    assert_eq!(TiledataSelector::Tiledata9000.from_idx(0), 0x9000);
    assert_eq!(TiledataSelector::Tiledata9000.from_idx(127), 0x97f0);
    assert_eq!(TiledataSelector::Tiledata9000.from_idx(128), 0x8800);
    assert_eq!(TiledataSelector::Tiledata9000.from_idx(255), 0x8ff0);
    assert_eq!(TilemapSelector::Tilemap9800.base(), 0x9800);
    assert_eq!(TilemapSelector::Tilemap9C00.base(), 0x9c00);
    assert_eq!(TilemapSelector::Tilemap9800.from_idx(8), 0x9808);
    assert_eq!(TilemapSelector::Tilemap9C00.from_idx(255), 0x9cff);
}

#[test]
fn sprites() {
    let flags = ObjAttributeFlags::y_flip().union(ObjAttributeFlags::x_flip());
    assert_eq!(flags.bits(), 0x60);
    assert!(flags.contains(ObjAttributeFlags::x_flip()));
    assert!(!flags.contains(ObjAttributeFlags::bg_priority()));
    assert_eq!(ObjAttributeFlags::from_bits_truncate(0xff).bits(), 0xf8);
    assert_eq!(ObjAttributeFlags::empty(), ObjAttributeFlags::default());
    assert_eq!(ObjAttributeFlags::dmg_palette1().bits(), 0x10);
    assert_eq!(ObjAttributeFlags::cgb_bank1().bits(), 0x08);
    let attr = ObjAttributes { flags, cgb_palette: CgbPalette::_5 };
    assert_eq!(attr.byte(), 0x65);
    assert_eq!(ObjAttributes::default().byte(), 0);
    assert_eq!(pos2(3, 4), Pos2 { x: 3, y: 4 });
    let sprite = Sprite { pos: pos2(3, 4), tile: 9, attr };
    assert_eq!(sprite.as_bytes(), [4, 3, 9, 0x65]);
}

#[test]
fn a_tile_map_is_built_entry_by_entry() {
    let tilemap = Tilemap::from_builder(|x, y| if x == y { 1 } else { x / 16 + 2 * (y / 16) });
    assert_eq!(tilemap.map[0], 1);
    assert_eq!(tilemap.map[1], 0);
    assert_eq!(tilemap.map[31], 1);
    assert_eq!(tilemap.map[32], 0);
    assert_eq!(tilemap.map[33], 1);
    assert_eq!(tilemap.map[32 * 31], 2);
    assert_eq!(tilemap.map[32 * 31 + 30], 3);
    assert_eq!(tilemap.map[1023], 1);
    assert_eq!(tilemap.row(20)[3], 2);
}

#[test]
fn numbers_of_palettes_colours_and_selectors() {
    assert_eq!(u8::from(CgbPalette::_6), 6);
    assert_eq!(usize::from(CgbPalette::_6), 6);
    assert_eq!(<(u8, u8)>::from(PaletteColor::_2), (0, 1));
    assert_eq!(u8::from(PaletteSelector::new(true, CgbPalette::_7)), 0x87);
    let attr = ObjAttributes { flags: ObjAttributeFlags::cgb_bank1(), cgb_palette: CgbPalette::_1 };
    assert_eq!(u8::from(attr), 0x09);
    let palette: Result<CgbPalette, ConversionError> = 3u8.try_into();
    assert_eq!(palette, Ok(CgbPalette::_3));
    let row: TileRow = [_3, _0, _0, _0, _0, _0, _0, _1].into();
    assert_eq!(row.pixel_data, (0x81, 0x80));
}
