//! What the picture unit reads: tiles, tile maps, palettes and sprites.
use vstd::prelude::*;

pub mod objects;
pub mod palettes;
pub mod tiles;

verus! {

/// Why a number is no palette colour or no palette.
#[derive(Clone, Copy, Debug, PartialEq, Eq, Structural)]
pub enum ConversionError {
    InvalidPaletteColor,
    InvalidPaletteIndex,
}

/// One of the two tile maps in video memory.
#[derive(Clone, Copy, Debug, PartialEq, Eq, Structural)]
pub enum TilemapSelector {
    Tilemap9800,
    Tilemap9C00,
}

impl TilemapSelector {
    /// The address of the map's first entry.
    pub open spec fn spec_base(self) -> u16 {
        match self {
            TilemapSelector::Tilemap9800 => 0x9800,
            TilemapSelector::Tilemap9C00 => 0x9c00,
        }
    }

    /// The address of the map's entry `idx`.
    pub fn from_idx(&self, idx: u8) -> (addr: u16)
        ensures
            addr == self.spec_base() + idx,
    {
        self.base() + idx as u16
    }

    pub fn base(&self) -> (addr: u16)
        ensures
            addr == self.spec_base(),
    {
        match self {
            TilemapSelector::Tilemap9800 => 0x9800,
            TilemapSelector::Tilemap9C00 => 0x9c00,
        }
    }
}

/// One of the two ways to number the tiles in video memory.
#[derive(Clone, Copy, Debug, PartialEq, Eq, Structural)]
pub enum TiledataSelector {
    Tiledata8000,
    Tiledata9000,
}

impl TiledataSelector {
    /// The address of the tile `idx`. Tiles take 16 bytes each. From `0x8000`
    /// they are numbered upwards; from `0x9000` the number is signed, so that
    /// the tiles from 128 on lie below `0x9000`.
    pub open spec fn spec_from_idx(self, idx: u8) -> u16 {
        match self {
            TiledataSelector::Tiledata8000 => (0x8000 + 16 * idx) as u16,
            TiledataSelector::Tiledata9000 => if idx < 128 {
                (0x9000 + 16 * idx) as u16
            } else {
                (0x9000 - 16 * (256 - idx)) as u16
            },
        }
    }

    pub fn from_idx(&self, idx: u8) -> (addr: u16)
        ensures
            addr == self.spec_from_idx(idx),
            0x8000 <= addr <= 0x97f0,
    {
        match self {
            TiledataSelector::Tiledata8000 => 0x8000 + idx as u16 * 16,
            TiledataSelector::Tiledata9000 => {
                if idx < 128 {
                    0x9000 + idx as u16 * 16
                } else {
                    0x9000 - (256 - idx as u16) * 16
                }
            },
        }
    }
}

/// An entry of a tile map.
#[derive(Clone, Copy, Debug, PartialEq, Eq, Structural)]
pub struct TileSelector {
    pub tilemap: TilemapSelector,
    pub idx: u8,
}

} // verus!
