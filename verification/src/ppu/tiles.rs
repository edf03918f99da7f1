//! Tiles and tile maps.
use vstd::prelude::*;

use crate::ppu::palettes::PaletteColor;
use crate::ppu::ConversionError;

verus! {

/// The number of a tile.
pub type TileIdx = u8;

/// The bytes of a tile in video memory.
pub const MEM_SIZE: usize = 16;

/// The bytes of a tile map.
pub const TILEMAP_SIZE: usize = 1024;

/// One row of eight pixels as two bit planes: the low bits of the colours in
/// the first byte, the high bits in the second, the leftmost pixel in bit 7.
#[derive(Clone, Copy, Debug, PartialEq, Eq)]
pub struct TileRow {
    pub pixel_data: (u8, u8),
}

/// The weight of the bit of pixel `x` in its byte.
pub open spec fn spec_weight(x: int) -> int {
    if x == 0 {
        128
    } else if x == 1 {
        64
    } else if x == 2 {
        32
    } else if x == 3 {
        16
    } else if x == 4 {
        8
    } else if x == 5 {
        4
    } else if x == 6 {
        2
    } else {
        1
    }
}

/// The bit of a colour in the first (`high` false) or second bit plane.
pub open spec fn spec_plane_bit(color: PaletteColor, high: bool) -> int {
    if high {
        color.spec_high() as int
    } else {
        color.spec_low() as int
    }
}

/// The byte of a bit plane of a row of eight colours: the bit of each colour
/// at the weight of its place.
pub open spec fn spec_plane(colors: Seq<PaletteColor>, high: bool) -> int {
    128 * spec_plane_bit(colors[0], high) + 64 * spec_plane_bit(colors[1], high) + 32
        * spec_plane_bit(colors[2], high) + 16 * spec_plane_bit(colors[3], high) + 8
        * spec_plane_bit(colors[4], high) + 4 * spec_plane_bit(colors[5], high) + 2
        * spec_plane_bit(colors[6], high) + spec_plane_bit(colors[7], high)
}

/// The number of the colour of pixel `x` in a row with the planes `low` and
/// `high`.
pub open spec fn spec_pixel(low: u8, high: u8, x: int) -> u8 {
    ((low as int / spec_weight(x)) % 2 + 2 * ((high as int / spec_weight(x)) % 2)) as u8
}

/// The colours of a row of colour numbers.
pub open spec fn spec_colors_of(row: Seq<u8>) -> Seq<PaletteColor> {
    Seq::new(8, |x: int| PaletteColor::spec_from_code(row[x]))
}

impl TileRow {
    /// The row of eight colours.
    pub open spec fn spec_from_colors(colors: Seq<PaletteColor>) -> TileRow {
        TileRow { pixel_data: (spec_plane(colors, false) as u8, spec_plane(colors, true) as u8) }
    }

    /// A row of eight pixels of one colour.
    pub fn flat(color: PaletteColor) -> (r: TileRow)
        ensures
            r.pixel_data == ((255 * color.spec_low()) as u8, (255 * color.spec_high()) as u8),
    {
        TileRow::from([color, color, color, color, color, color, color, color])
    }

    /// The numbers of the colours of the row's pixels, leftmost first.
    pub fn pixels(&self) -> (r: [u8; 8])
        ensures
            forall|x: int|
                0 <= x < 8 ==> #[trigger] r@[x] == spec_pixel(
                    self.pixel_data.0,
                    self.pixel_data.1,
                    x,
                ),
    {
        let low = self.pixel_data.0;
        let high = self.pixel_data.1;
        [
            (low / 128) % 2 + 2 * ((high / 128) % 2),
            (low / 64) % 2 + 2 * ((high / 64) % 2),
            (low / 32) % 2 + 2 * ((high / 32) % 2),
            (low / 16) % 2 + 2 * ((high / 16) % 2),
            (low / 8) % 2 + 2 * ((high / 8) % 2),
            (low / 4) % 2 + 2 * ((high / 4) % 2),
            (low / 2) % 2 + 2 * ((high / 2) % 2),
            low % 2 + 2 * (high % 2),
        ]
    }

    /// Each pixel of a row of colours is read back as the number of its
    /// colour, and that number names the colour.
    pub proof fn lemma_pixel_of_row(colors: Seq<PaletteColor>, x: int)
        requires
            colors.len() == 8,
            0 <= x < 8,
        ensures
            spec_pixel(
                TileRow::spec_from_colors(colors).pixel_data.0,
                TileRow::spec_from_colors(colors).pixel_data.1,
                x,
            ) == colors[x].spec_code(),
            PaletteColor::spec_from_code(colors[x].spec_code()) == colors[x],
    {
        lemma_unpack8(
            spec_plane_bit(colors[0], false),
            spec_plane_bit(colors[1], false),
            spec_plane_bit(colors[2], false),
            spec_plane_bit(colors[3], false),
            spec_plane_bit(colors[4], false),
            spec_plane_bit(colors[5], false),
            spec_plane_bit(colors[6], false),
            spec_plane_bit(colors[7], false),
        );
        lemma_unpack8(
            spec_plane_bit(colors[0], true),
            spec_plane_bit(colors[1], true),
            spec_plane_bit(colors[2], true),
            spec_plane_bit(colors[3], true),
            spec_plane_bit(colors[4], true),
            spec_plane_bit(colors[5], true),
            spec_plane_bit(colors[6], true),
            spec_plane_bit(colors[7], true),
        );
    }
}

/// The byte whose bits are `b0` to `b7`, `b0` highest.
pub open spec fn spec_pack8(b0: int, b1: int, b2: int, b3: int, b4: int, b5: int, b6: int, b7: int) -> int {
    128 * b0 + 64 * b1 + 32 * b2 + 16 * b3 + 8 * b4 + 4 * b5 + 2 * b6 + b7
}

/// Packs eight bits into a byte, the first highest.
pub fn pack8(b0: u8, b1: u8, b2: u8, b3: u8, b4: u8, b5: u8, b6: u8, b7: u8) -> (r: u8)
    requires
        b0 <= 1,
        b1 <= 1,
        b2 <= 1,
        b3 <= 1,
        b4 <= 1,
        b5 <= 1,
        b6 <= 1,
        b7 <= 1,
    ensures
        r == spec_pack8(
            b0 as int,
            b1 as int,
            b2 as int,
            b3 as int,
            b4 as int,
            b5 as int,
            b6 as int,
            b7 as int,
        ),
{
    let top: u8 = 128 * b0 + 64 * b1 + 32 * b2 + 16 * b3;
    let bottom: u8 = 8 * b4 + 4 * b5 + 2 * b6 + b7;
    top + bottom
}

/// Each bit of a byte that was packed from eight bits is the bit that went in.
pub proof fn lemma_unpack8(b0: int, b1: int, b2: int, b3: int, b4: int, b5: int, b6: int, b7: int)
    requires
        0 <= b0 <= 1,
        0 <= b1 <= 1,
        0 <= b2 <= 1,
        0 <= b3 <= 1,
        0 <= b4 <= 1,
        0 <= b5 <= 1,
        0 <= b6 <= 1,
        0 <= b7 <= 1,
    ensures
        0 <= spec_pack8(b0, b1, b2, b3, b4, b5, b6, b7) <= 255,
        (spec_pack8(b0, b1, b2, b3, b4, b5, b6, b7) / 128) % 2 == b0,
        (spec_pack8(b0, b1, b2, b3, b4, b5, b6, b7) / 64) % 2 == b1,
        (spec_pack8(b0, b1, b2, b3, b4, b5, b6, b7) / 32) % 2 == b2,
        (spec_pack8(b0, b1, b2, b3, b4, b5, b6, b7) / 16) % 2 == b3,
        (spec_pack8(b0, b1, b2, b3, b4, b5, b6, b7) / 8) % 2 == b4,
        (spec_pack8(b0, b1, b2, b3, b4, b5, b6, b7) / 4) % 2 == b5,
        (spec_pack8(b0, b1, b2, b3, b4, b5, b6, b7) / 2) % 2 == b6,
        spec_pack8(b0, b1, b2, b3, b4, b5, b6, b7) % 2 == b7,
{
    let p = spec_pack8(b0, b1, b2, b3, b4, b5, b6, b7);
    assert(p / 128 == b0);
    assert(p / 64 == 2 * b0 + b1);
    assert(p / 32 == 4 * b0 + 2 * b1 + b2);
    assert(p / 16 == 8 * b0 + 4 * b1 + 2 * b2 + b3);
    assert(p / 8 == 16 * b0 + 8 * b1 + 4 * b2 + 2 * b3 + b4);
    assert(p / 4 == 32 * b0 + 16 * b1 + 8 * b2 + 4 * b3 + 2 * b4 + b5);
    assert(p / 2 == 64 * b0 + 32 * b1 + 16 * b2 + 8 * b3 + 4 * b4 + 2 * b5 + b6);
}

/// A tile of eight rows of eight pixels.
#[derive(Clone, Copy, Debug, PartialEq, Eq)]
pub struct Tile {
    pub pixel_data: [TileRow; 8],
}

impl Tile {
    /// The rows of a grid of colours.
    pub open spec fn spec_rows(pixels: [[PaletteColor; 8]; 8]) -> Seq<TileRow> {
        Seq::new(8, |y: int| TileRow::spec_from_colors(pixels@[y]@))
    }

    /// The rows of a grid of colour numbers, if each is the number of a colour.
    pub open spec fn spec_rows_from_bytes(pixels: [[u8; 8]; 8]) -> Option<Seq<TileRow>> {
        if forall|y: int, x: int| 0 <= y < 8 && 0 <= x < 8 ==> (#[trigger] pixels@[y]@[x]) <= 3 {
            Some(Seq::new(8, |y: int| TileRow::spec_from_colors(spec_colors_of(pixels@[y]@))))
        } else {
            None
        }
    }

    /// The bytes of rows in video memory: for each row its first plane, then
    /// its second.
    pub open spec fn spec_bytes(rows: Seq<TileRow>) -> Seq<u8> {
        Seq::new(
            16,
            |i: int|
                if i % 2 == 0 {
                    rows[i / 2].pixel_data.0
                } else {
                    rows[i / 2].pixel_data.1
                },
        )
    }

    /// The tile of a grid of colours, top row first.
    pub fn new(pixels: [[PaletteColor; 8]; 8]) -> (r: Self)
        ensures
            r.pixel_data@ == Tile::spec_rows(pixels),
    {
        let rows: [TileRow; 8] = [
            TileRow::from(pixels[0]),
            TileRow::from(pixels[1]),
            TileRow::from(pixels[2]),
            TileRow::from(pixels[3]),
            TileRow::from(pixels[4]),
            TileRow::from(pixels[5]),
            TileRow::from(pixels[6]),
            TileRow::from(pixels[7]),
        ];
        proof {
            assert(rows@ =~= Tile::spec_rows(pixels));
        }
        Self { pixel_data: rows }
    }

    /// The colours of a row of colour numbers.
    fn row_from_bytes(row: [u8; 8]) -> (r: Result<[PaletteColor; 8], ConversionError>)
        ensures
            r is Ok <==> forall|x: int| 0 <= x < 8 ==> (#[trigger] row@[x]) <= 3,
            r matches Ok(colors) ==> colors@ == spec_colors_of(row@),
            r matches Err(e) ==> e == ConversionError::InvalidPaletteColor,
    {
        let c0 = PaletteColor::try_from(row[0])?;
        let c1 = PaletteColor::try_from(row[1])?;
        let c2 = PaletteColor::try_from(row[2])?;
        let c3 = PaletteColor::try_from(row[3])?;
        let c4 = PaletteColor::try_from(row[4])?;
        let c5 = PaletteColor::try_from(row[5])?;
        let c6 = PaletteColor::try_from(row[6])?;
        let c7 = PaletteColor::try_from(row[7])?;
        let colors = [c0, c1, c2, c3, c4, c5, c6, c7];
        proof {
            assert(colors@ =~= spec_colors_of(row@));
        }
        Ok(colors)
    }

    /// The tile of a grid of colour numbers, top row first. Fails with
    /// `InvalidPaletteColor` if a number is above 3.
    pub fn try_from_bytes(pixels: [[u8; 8]; 8]) -> (r: Result<Self, ConversionError>)
        ensures
            r matches Ok(tile) ==> Tile::spec_rows_from_bytes(pixels) == Some(tile.pixel_data@),
            r matches Err(e) ==> Tile::spec_rows_from_bytes(pixels) is None && e
                == ConversionError::InvalidPaletteColor,
    {
        let r0 = Tile::row_from_bytes(pixels[0])?;
        let r1 = Tile::row_from_bytes(pixels[1])?;
        let r2 = Tile::row_from_bytes(pixels[2])?;
        let r3 = Tile::row_from_bytes(pixels[3])?;
        let r4 = Tile::row_from_bytes(pixels[4])?;
        let r5 = Tile::row_from_bytes(pixels[5])?;
        let r6 = Tile::row_from_bytes(pixels[6])?;
        let r7 = Tile::row_from_bytes(pixels[7])?;
        let checked = [r0, r1, r2, r3, r4, r5, r6, r7];
        let tile = Tile::new(checked);
        proof {
            assert(tile.pixel_data@ =~= Tile::spec_rows_from_bytes(pixels)->Some_0);
        }
        Ok(tile)
    }

    /// A tile of one colour.
    pub fn flat(color: PaletteColor) -> (r: Self)
        ensures
            forall|y: int|
                0 <= y < 8 ==> (#[trigger] r.pixel_data@[y]).pixel_data == (
                    (255 * color.spec_low()) as u8,
                    (255 * color.spec_high()) as u8,
                ),
    {
        let row = TileRow::flat(color);
        let pixel_data = [row, row, row, row, row, row, row, row];
        Self { pixel_data }
    }

    /// The sixteen bytes of the tile in video memory.
    pub fn as_bytes(&self) -> (r: [u8; 16])
        ensures
            r@ == Tile::spec_bytes(self.pixel_data@),
    {
        let r = [
            self.pixel_data[0].pixel_data.0,
            self.pixel_data[0].pixel_data.1,
            self.pixel_data[1].pixel_data.0,
            self.pixel_data[1].pixel_data.1,
            self.pixel_data[2].pixel_data.0,
            self.pixel_data[2].pixel_data.1,
            self.pixel_data[3].pixel_data.0,
            self.pixel_data[3].pixel_data.1,
            self.pixel_data[4].pixel_data.0,
            self.pixel_data[4].pixel_data.1,
            self.pixel_data[5].pixel_data.0,
            self.pixel_data[5].pixel_data.1,
            self.pixel_data[6].pixel_data.0,
            self.pixel_data[6].pixel_data.1,
            self.pixel_data[7].pixel_data.0,
            self.pixel_data[7].pixel_data.1,
        ];
        proof {
            assert(r@ =~= Tile::spec_bytes(self.pixel_data@));
        }
        r
    }

    /// The grid of colour numbers that sixteen bytes of video memory show.
    pub fn pixels_from_bytes(bytes: [u8; 16]) -> (r: [[u8; 8]; 8])
        ensures
            forall|y: int, x: int|
                0 <= y < 8 && 0 <= x < 8 ==> #[trigger] r@[y]@[x] == spec_pixel(
                    bytes@[2 * y],
                    bytes@[2 * y + 1],
                    x,
                ),
    {
        [
            TileRow { pixel_data: (bytes[0], bytes[1]) }.pixels(),
            TileRow { pixel_data: (bytes[2], bytes[3]) }.pixels(),
            TileRow { pixel_data: (bytes[4], bytes[5]) }.pixels(),
            TileRow { pixel_data: (bytes[6], bytes[7]) }.pixels(),
            TileRow { pixel_data: (bytes[8], bytes[9]) }.pixels(),
            TileRow { pixel_data: (bytes[10], bytes[11]) }.pixels(),
            TileRow { pixel_data: (bytes[12], bytes[13]) }.pixels(),
            TileRow { pixel_data: (bytes[14], bytes[15]) }.pixels(),
        ]
    }

    /// A tile is read back from its bytes. If `derived` is the grid of colour
    /// numbers that the bytes of the tile of `pixels` show, then the tile of
    /// `derived` is the tile of `pixels`.
    pub proof fn lemma_bytes_round_trip(pixels: [[PaletteColor; 8]; 8], derived: [[u8; 8]; 8])
        requires
            forall|y: int, x: int|
                0 <= y < 8 && 0 <= x < 8 ==> #[trigger] derived@[y]@[x] == spec_pixel(
                    Tile::spec_bytes(Tile::spec_rows(pixels))[2 * y],
                    Tile::spec_bytes(Tile::spec_rows(pixels))[2 * y + 1],
                    x,
                ),
        ensures
            Tile::spec_rows_from_bytes(derived) == Some(Tile::spec_rows(pixels)),
    {
        let rows = Tile::spec_rows(pixels);
        let bytes = Tile::spec_bytes(rows);
        assert forall|y: int, x: int| 0 <= y < 8 && 0 <= x < 8 implies (#[trigger] derived@[y]@[x])
            == pixels@[y]@[x].spec_code() && derived@[y]@[x] <= 3 by {
            assert(bytes[2 * y] == rows[y].pixel_data.0);
            assert(bytes[2 * y + 1] == rows[y].pixel_data.1);
            TileRow::lemma_pixel_of_row(pixels@[y]@, x);
        }
        assert forall|y: int| 0 <= y < 8 implies spec_colors_of(derived@[y]@) == (
        #[trigger] pixels@[y])@ by {
            assert forall|x: int| 0 <= x < 8 implies spec_colors_of(derived@[y]@)[x]
                == pixels@[y]@[x] by {
                TileRow::lemma_pixel_of_row(pixels@[y]@, x);
                assert(derived@[y]@[x] == pixels@[y]@[x].spec_code());
            }
            assert(spec_colors_of(derived@[y]@) =~= pixels@[y]@);
        }
        assert(Tile::spec_rows_from_bytes(derived)->Some_0 =~= rows);
    }
}

/// A map of 32 by 32 tiles, row by row.
#[derive(Clone, Copy, Debug, PartialEq, Eq)]
pub struct Tilemap {
    pub map: [TileIdx; 1024],
}

impl Tilemap {
    /// The number of entries.
    pub fn len(&self) -> (r: usize)
        ensures
            r == 1024,
    {
        TILEMAP_SIZE
    }

    /// The map whose entry in column `x` of row `y` is what `builder` gives
    /// for `x` and `y`.
    pub fn from_builder<F: Fn(u8, u8) -> TileIdx>(builder: F) -> (r: Self)
        requires
            forall|x: u8, y: u8| x < 32 && y < 32 ==> call_requires(builder, (x, y)),
        ensures
            forall|x: u8, y: u8|
                x < 32 && y < 32 ==> #[trigger] call_ensures(
                    builder,
                    (x, y),
                    r.map@[32 * y + x],
                ),
    {
        let mut map: [TileIdx; 1024] = [0;1024];
        let mut y: u8 = 0;
        while y < 32
            invariant
                y <= 32,
                forall|x: u8, y: u8| x < 32 && y < 32 ==> call_requires(builder, (x, y)),
                forall|x: u8, row: u8|
                    x < 32 && row < y ==> #[trigger] call_ensures(
                        builder,
                        (x, row),
                        map@[32 * row + x],
                    ),
            decreases 32 - y,
        {
            let mut x: u8 = 0;
            while x < 32
                invariant
                    x <= 32,
                    y < 32,
                    forall|x: u8, y: u8| x < 32 && y < 32 ==> call_requires(builder, (x, y)),
                    forall|col: u8, row: u8|
                        col < 32 && row < y ==> #[trigger] call_ensures(
                            builder,
                            (col, row),
                            map@[32 * row + col],
                        ),
                    forall|col: u8|
                        col < x ==> #[trigger] call_ensures(builder, (col, y), map@[32 * y + col]),
                decreases 32 - x,
            {
                let entry = builder(x, y);
                map[y as usize * 32 + x as usize] = entry;
                x = x + 1;
            }
            y = y + 1;
        }
        Self { map }
    }

    /// The entries of row `index`.
    pub fn row(&self, index: u8) -> (r: Vec<TileIdx>)
        requires
            index < 32,
        ensures
            r@ == self.map@.subrange(32 * index, 32 * index + 32),
    {
        let start: usize = index as usize * 32;
        let mut out: Vec<TileIdx> = Vec::new();
        let mut i: usize = 0;
        while i < 32
            invariant
                i <= 32,
                start == 32 * index,
                index < 32,
                out@ == self.map@.subrange(start as int, start + i),
            decreases 32 - i,
        {
            out.push(self.map[start + i]);
            proof {
                assert(self.map@.subrange(start as int, start + i + 1) =~= self.map@.subrange(
                    start as int,
                    start + i,
                ).push(self.map@[start + i]));
            }
            i = i + 1;
        }
        out
    }

    /// The entries, row by row.
    pub fn as_slice(&self) -> (r: &[u8])
        ensures
            r@ == self.map@,
    {
        self.map.as_slice()
    }
}

impl From<[PaletteColor; 8]> for TileRow {
    /// Packs eight colours, leftmost first, into the two bit planes of a row.
    fn from(value: [PaletteColor; 8]) -> (r: Self) {
        let bits0 = value[0].planes();
        let bits1 = value[1].planes();
        let bits2 = value[2].planes();
        let bits3 = value[3].planes();
        let bits4 = value[4].planes();
        let bits5 = value[5].planes();
        let bits6 = value[6].planes();
        let bits7 = value[7].planes();
        let low = pack8(bits0.0, bits1.0, bits2.0, bits3.0, bits4.0, bits5.0, bits6.0, bits7.0);
        let high = pack8(bits0.1, bits1.1, bits2.1, bits3.1, bits4.1, bits5.1, bits6.1, bits7.1);
        proof {
            assert(low == spec_plane(value@, false));
            assert(high == spec_plane(value@, true));
        }
        TileRow { pixel_data: (low, high) }
    }
}

impl vstd::std_specs::convert::FromSpecImpl<[PaletteColor; 8]> for TileRow {
    open spec fn obeys_from_spec() -> bool {
        true
    }

    open spec fn from_spec(value: [PaletteColor; 8]) -> Self {
        TileRow::spec_from_colors(value@)
    }
}

impl From<[u8; 1024]> for Tilemap {
    fn from(value: [u8; 1024]) -> (r: Self) {
        Tilemap { map: value }
    }
}

impl vstd::std_specs::convert::FromSpecImpl<[u8; 1024]> for Tilemap {
    open spec fn obeys_from_spec() -> bool {
        true
    }

    open spec fn from_spec(value: [u8; 1024]) -> Self {
        Tilemap { map: value }
    }
}

} // verus!
