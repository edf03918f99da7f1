//! Sprites.
use vstd::prelude::*;

use crate::ppu::palettes::CgbPalette;
use crate::ppu::tiles::TileIdx;

verus! {

/// The flags of a sprite's attribute byte.
#[derive(Clone, Copy, Debug, PartialEq, Eq, Structural)]
pub struct ObjAttributeFlags {
    pub bits: u8,
}

/// The bits of an attribute byte that are flags.
pub const FLAG_BITS: u8 = 0xf8;

impl Default for ObjAttributeFlags {
    fn default() -> (r: Self)
        ensures
            r.bits == 0,
    {
        ObjAttributeFlags { bits: 0 }
    }
}

impl ObjAttributeFlags {
    /// The background is drawn over the sprite.
    pub fn bg_priority() -> (r: Self)
        ensures
            r.bits == 0x80,
    {
        ObjAttributeFlags { bits: 0x80 }
    }

    /// The sprite is mirrored top to bottom.
    pub fn y_flip() -> (r: Self)
        ensures
            r.bits == 0x40,
    {
        ObjAttributeFlags { bits: 0x40 }
    }

    /// The sprite is mirrored left to right.
    pub fn x_flip() -> (r: Self)
        ensures
            r.bits == 0x20,
    {
        ObjAttributeFlags { bits: 0x20 }
    }

    /// The second palette of the monochrome console.
    pub fn dmg_palette1() -> (r: Self)
        ensures
            r.bits == 0x10,
    {
        ObjAttributeFlags { bits: 0x10 }
    }

    /// The tile is taken from the second bank of video memory.
    pub fn cgb_bank1() -> (r: Self)
        ensures
            r.bits == 0x08,
    {
        ObjAttributeFlags { bits: 0x08 }
    }

    /// No flag.
    pub fn empty() -> (r: Self)
        ensures
            r.bits == 0,
    {
        ObjAttributeFlags { bits: 0 }
    }

    pub fn bits(&self) -> (r: u8)
        ensures
            r == self.bits,
    {
        self.bits
    }

    /// The flags among `bits`; the bits that are no flags are dropped.
    pub fn from_bits_truncate(bits: u8) -> (r: Self)
        ensures
            r.bits == bits & FLAG_BITS,
    {
        ObjAttributeFlags { bits: bits & FLAG_BITS }
    }

    /// The flags of both.
    pub fn union(self, other: Self) -> (r: Self)
        ensures
            r.bits == self.bits | other.bits,
    {
        ObjAttributeFlags { bits: self.bits | other.bits }
    }

    /// True if every flag of `other` is set.
    pub fn contains(&self, other: Self) -> (r: bool)
        ensures
            r == (self.bits & other.bits == other.bits),
    {
        self.bits & other.bits == other.bits
    }
}

/// The attributes of a sprite: its flags and its palette.
#[derive(Clone, Copy, Debug, PartialEq, Eq, Structural)]
pub struct ObjAttributes {
    pub flags: ObjAttributeFlags,
    pub cgb_palette: CgbPalette,
}

impl Default for ObjAttributes {
    fn default() -> (r: Self)
        ensures
            r.flags.bits == 0,
            r.cgb_palette == CgbPalette::_0,
    {
        ObjAttributes { flags: ObjAttributeFlags::default(), cgb_palette: CgbPalette::default() }
    }
}

impl ObjAttributes {
    /// The attribute byte: the flags, and the palette's number in the low
    /// three bits.
    pub open spec fn spec_byte(self) -> u8 {
        self.flags.bits | self.cgb_palette.spec_code()
    }

    pub fn byte(self) -> (r: u8)
        ensures
            r == self.spec_byte(),
    {
        let palette: u8 = self.cgb_palette.code();
        self.flags.bits() | palette
    }
}

/// A position on the screen.
#[derive(Clone, Copy, Debug, PartialEq, Eq, Structural)]
pub struct Pos2 {
    pub x: u8,
    pub y: u8,
}

pub fn pos2(x: u8, y: u8) -> (r: Pos2)
    ensures
        r == (Pos2 { x, y }),
{
    Pos2 { x, y }
}

/// A sprite: where it is, which tile it shows, and how.
#[derive(Clone, Copy, Debug, PartialEq, Eq, Structural)]
pub struct Sprite {
    pub pos: Pos2,
    pub tile: TileIdx,
    pub attr: ObjAttributes,
}

impl Sprite {
    /// The four bytes of the sprite in object memory: y, x, tile, attributes.
    pub fn as_bytes(&self) -> (r: [u8; 4])
        ensures
            r@ == seq![self.pos.y, self.pos.x, self.tile, self.attr.spec_byte()],
    {
        let r = [self.pos.y, self.pos.x, self.tile, self.attr.byte()];
        proof {
            assert(r@ =~= seq![self.pos.y, self.pos.x, self.tile, self.attr.spec_byte()]);
        }
        r
    }
}

/// One of the forty sprites.
#[derive(Clone, Copy, Debug, PartialEq, Eq, Structural)]
pub enum SpriteIdx {
    _0,
    _1,
    _2,
    _3,
    _4,
    _5,
    _6,
    _7,
    _8,
    _9,
    _10,
    _11,
    _12,
    _13,
    _14,
    _15,
    _16,
    _17,
    _18,
    _19,
    _20,
    _21,
    _22,
    _23,
    _24,
    _25,
    _26,
    _27,
    _28,
    _29,
    _30,
    _31,
    _32,
    _33,
    _34,
    _35,
    _36,
    _37,
    _38,
    _39,
}

impl From<ObjAttributes> for u8 {
    /// The attribute byte.
    fn from(value: ObjAttributes) -> (r: Self) {
        value.byte()
    }
}

impl vstd::std_specs::convert::FromSpecImpl<ObjAttributes> for u8 {
    open spec fn obeys_from_spec() -> bool {
        true
    }

    open spec fn from_spec(value: ObjAttributes) -> Self {
        value.spec_byte()
    }
}

} // verus!
