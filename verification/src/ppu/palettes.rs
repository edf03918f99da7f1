//! Palettes and colours.
use vstd::prelude::*;

use crate::ppu::ConversionError;

verus! {

/// One of the eight palettes of the colour console.
#[derive(Clone, Copy, Debug, PartialEq, Eq, Structural)]
pub enum CgbPalette {
    _0,
    _1,
    _2,
    _3,
    _4,
    _5,
    _6,
    _7,
}

impl Default for CgbPalette {
    fn default() -> (r: Self)
        ensures
            r == CgbPalette::_0,
    {
        CgbPalette::_0
    }
}

impl CgbPalette {
    /// The number of the palette.
    pub open spec fn spec_code(self) -> u8 {
        match self {
            CgbPalette::_0 => 0,
            CgbPalette::_1 => 1,
            CgbPalette::_2 => 2,
            CgbPalette::_3 => 3,
            CgbPalette::_4 => 4,
            CgbPalette::_5 => 5,
            CgbPalette::_6 => 6,
            CgbPalette::_7 => 7,
        }
    }

    pub fn code(self) -> (r: u8)
        ensures
            r == self.spec_code(),
            r < 8,
    {
        match self {
            CgbPalette::_0 => 0,
            CgbPalette::_1 => 1,
            CgbPalette::_2 => 2,
            CgbPalette::_3 => 3,
            CgbPalette::_4 => 4,
            CgbPalette::_5 => 5,
            CgbPalette::_6 => 6,
            CgbPalette::_7 => 7,
        }
    }

    /// The number of the palette as an index.
    pub fn index(self) -> (r: usize)
        ensures
            r == self.spec_code(),
    {
        let idx: u8 = self.code();
        idx as usize
    }

    /// Where the palette starts in palette memory: palettes take 8 bytes each.
    pub fn offset(&self) -> (r: u8)
        ensures
            r == 8 * self.spec_code(),
    {
        let idx: u8 = self.code();
        idx * 8
    }
}

/// One of the four colours of a palette.
#[derive(Clone, Copy, Debug, PartialEq, Eq, Structural)]
pub enum PaletteColor {
    _0,
    _1,
    _2,
    _3,
}

impl Default for PaletteColor {
    fn default() -> (r: Self)
        ensures
            r == PaletteColor::_0,
    {
        PaletteColor::_0
    }
}

impl PaletteColor {
    /// The number of the colour.
    pub open spec fn spec_code(self) -> u8 {
        match self {
            PaletteColor::_0 => 0,
            PaletteColor::_1 => 1,
            PaletteColor::_2 => 2,
            PaletteColor::_3 => 3,
        }
    }

    /// The colour of a number; `_0` above 3.
    pub open spec fn spec_from_code(code: u8) -> PaletteColor {
        if code == 1 {
            PaletteColor::_1
        } else if code == 2 {
            PaletteColor::_2
        } else if code == 3 {
            PaletteColor::_3
        } else {
            PaletteColor::_0
        }
    }

    /// The colour's bit in the first bit plane of a tile: the low bit of its
    /// number.
    pub open spec fn spec_low(self) -> u8 {
        match self {
            PaletteColor::_0 => 0,
            PaletteColor::_1 => 1,
            PaletteColor::_2 => 0,
            PaletteColor::_3 => 1,
        }
    }

    /// The colour's bit in the second bit plane of a tile: the high bit of its
    /// number.
    pub open spec fn spec_high(self) -> u8 {
        match self {
            PaletteColor::_0 => 0,
            PaletteColor::_1 => 0,
            PaletteColor::_2 => 1,
            PaletteColor::_3 => 1,
        }
    }

    pub fn code(self) -> (r: u8)
        ensures
            r == self.spec_code(),
            r == self.spec_low() + 2 * self.spec_high(),
    {
        match self {
            PaletteColor::_0 => 0,
            PaletteColor::_1 => 1,
            PaletteColor::_2 => 2,
            PaletteColor::_3 => 3,
        }
    }

    /// The colour's bits in the two bit planes of a tile.
    pub fn planes(self) -> (r: (u8, u8))
        ensures
            r == (self.spec_low(), self.spec_high()),
            r.0 <= 1,
            r.1 <= 1,
    {
        match self {
            PaletteColor::_0 => (0, 0),
            PaletteColor::_1 => (1, 0),
            PaletteColor::_2 => (0, 1),
            PaletteColor::_3 => (1, 1),
        }
    }

}

/// What is written to the palette index register: a palette, and whether the
/// index moves on after each byte.
#[derive(Clone, Copy, Debug, PartialEq, Eq, Structural)]
pub struct PaletteSelector {
    pub autoincrement: bool,
    pub palette: CgbPalette,
}

impl PaletteSelector {
    pub fn new(autoincrement: bool, palette: CgbPalette) -> (r: Self)
        ensures
            r == (PaletteSelector { autoincrement, palette }),
    {
        PaletteSelector { autoincrement, palette }
    }

    /// The byte of the selector: the palette's number, and bit 7 for
    /// auto-increment.
    pub open spec fn spec_byte(self) -> u8 {
        if self.autoincrement {
            (0x80 + self.palette.spec_code()) as u8
        } else {
            self.palette.spec_code()
        }
    }

    pub fn byte(self) -> (r: u8)
        ensures
            r == self.spec_byte(),
    {
        let idx: u8 = self.palette.code();
        if self.autoincrement {
            0x80 + idx
        } else {
            idx
        }
    }
}

/// A colour of 15 bits, five for each of the three channels.
#[derive(Clone, Copy, Debug, PartialEq, Eq, Structural)]
pub struct Color(pub u16);

impl Color {
    /// No light at all.
    pub fn black() -> (r: Color)
        ensures
            r.0 == 0x0000,
    {
        Color(0x0000)
    }

    /// A dark grey.
    pub fn dark_grey() -> (r: Color)
        ensures
            r.0 == 0x5294,
    {
        Color(0x5294)
    }

    /// A light grey.
    pub fn light_grey() -> (r: Color)
        ensures
            r.0 == 0xad6a,
    {
        Color(0xad6a)
    }

    /// Every bit set.
    pub fn white() -> (r: Color)
        ensures
            r.0 == 0xffff,
    {
        Color(0xffff)
    }

    /// Red alone.
    pub fn red() -> (r: Color)
        ensures
            r.0 == 0x1f00,
    {
        Color(0x1f00)
    }

    /// Green alone.
    pub fn green() -> (r: Color)
        ensures
            r.0 == 0xe003,
    {
        Color(0xe003)
    }

    /// Blue alone.
    pub fn blue() -> (r: Color)
        ensures
            r.0 == 0x007c,
    {
        Color(0x007c)
    }

    /// The two bytes of the colour, high byte first.
    pub open spec fn spec_be_bytes(self) -> Seq<u8> {
        seq![(self.0 / 256) as u8, (self.0 % 256) as u8]
    }

    /// The colour that has the bits of both.
    pub fn or(self, rhs: Color) -> (r: Color)
        ensures
            r.0 == self.0 | rhs.0,
    {
        Color(self.0 | rhs.0)
    }
}

impl core::ops::BitOr<Color> for Color {
    type Output = Color;

    fn bitor(self, rhs: Color) -> (r: Color) {
        Color(self.0 | rhs.0)
    }
}

impl vstd::std_specs::ops::BitOrSpecImpl<Color> for Color {
    open spec fn obeys_bitor_spec() -> bool {
        true
    }

    open spec fn bitor_req(self, rhs: Color) -> bool {
        true
    }

    /// `|` on colours means `|` on their bits.
    open spec fn bitor_spec(self, rhs: Color) -> Color {
        Color(self.0 | rhs.0)
    }
}

impl From<CgbPalette> for u8 {
    fn from(value: CgbPalette) -> (r: Self) {
        value.code()
    }
}

impl vstd::std_specs::convert::FromSpecImpl<CgbPalette> for u8 {
    open spec fn obeys_from_spec() -> bool {
        true
    }

    open spec fn from_spec(value: CgbPalette) -> Self {
        value.spec_code()
    }
}

impl From<CgbPalette> for usize {
    fn from(value: CgbPalette) -> (r: Self) {
        value.index()
    }
}

impl vstd::std_specs::convert::FromSpecImpl<CgbPalette> for usize {
    open spec fn obeys_from_spec() -> bool {
        true
    }

    open spec fn from_spec(value: CgbPalette) -> Self {
        value.spec_code() as usize
    }
}

impl From<PaletteColor> for (u8, u8) {
    /// The colour's bits in the two bit planes of a tile.
    fn from(value: PaletteColor) -> (r: Self) {
        value.planes()
    }
}

impl vstd::std_specs::convert::FromSpecImpl<PaletteColor> for (u8, u8) {
    open spec fn obeys_from_spec() -> bool {
        true
    }

    open spec fn from_spec(value: PaletteColor) -> Self {
        (value.spec_low(), value.spec_high())
    }
}

impl From<PaletteSelector> for u8 {
    fn from(value: PaletteSelector) -> (r: Self) {
        value.byte()
    }
}

impl vstd::std_specs::convert::FromSpecImpl<PaletteSelector> for u8 {
    open spec fn obeys_from_spec() -> bool {
        true
    }

    open spec fn from_spec(value: PaletteSelector) -> Self {
        value.spec_byte()
    }
}

impl TryFrom<u8> for CgbPalette {
    type Error = ConversionError;

    /// The palette of a number; there is none above 7.
    fn try_from(value: u8) -> (r: Result<Self, ConversionError>) {
        match value {
            0 => Ok(CgbPalette::_0),
            1 => Ok(CgbPalette::_1),
            2 => Ok(CgbPalette::_2),
            3 => Ok(CgbPalette::_3),
            4 => Ok(CgbPalette::_4),
            5 => Ok(CgbPalette::_5),
            6 => Ok(CgbPalette::_6),
            7 => Ok(CgbPalette::_7),
            _ => Err(ConversionError::InvalidPaletteIndex),
        }
    }
}

impl vstd::std_specs::convert::TryFromSpecImpl<u8> for CgbPalette {
    open spec fn obeys_try_from_spec() -> bool {
        true
    }

    open spec fn try_from_spec(value: u8) -> Result<Self, ConversionError> {
        if value == 0 {
            Ok(CgbPalette::_0)
        } else if value == 1 {
            Ok(CgbPalette::_1)
        } else if value == 2 {
            Ok(CgbPalette::_2)
        } else if value == 3 {
            Ok(CgbPalette::_3)
        } else if value == 4 {
            Ok(CgbPalette::_4)
        } else if value == 5 {
            Ok(CgbPalette::_5)
        } else if value == 6 {
            Ok(CgbPalette::_6)
        } else if value == 7 {
            Ok(CgbPalette::_7)
        } else {
            Err(ConversionError::InvalidPaletteIndex)
        }
    }
}

impl TryFrom<u8> for PaletteColor {
    type Error = ConversionError;

    /// The colour of a number; there is none above 3.
    fn try_from(value: u8) -> (r: Result<Self, ConversionError>) {
        match value {
            0 => Ok(PaletteColor::_0),
            1 => Ok(PaletteColor::_1),
            2 => Ok(PaletteColor::_2),
            3 => Ok(PaletteColor::_3),
            _ => Err(ConversionError::InvalidPaletteColor),
        }
    }
}

impl vstd::std_specs::convert::TryFromSpecImpl<u8> for PaletteColor {
    open spec fn obeys_try_from_spec() -> bool {
        true
    }

    open spec fn try_from_spec(value: u8) -> Result<Self, ConversionError> {
        if value <= 3 {
            Ok(PaletteColor::spec_from_code(value))
        } else {
            Err(ConversionError::InvalidPaletteColor)
        }
    }
}

} // verus!
