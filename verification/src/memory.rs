//! The address space and its memory-mapped registers.
use vstd::prelude::*;

verus! {

/// A 16-bit address.
pub type Addr = u16;

/// First address of the zero page, which `ldh` reaches with one byte.
pub const ZERO_PAGE: u16 = 0xff00;

/// A memory-mapped register of the picture unit.
#[derive(Clone, Copy, Debug, PartialEq, Eq, Structural)]
pub enum IoReg {
    Lcdc,
    Bcps,
    Bcpd,
}

impl IoReg {
    /// The address at which the register is mapped.
    pub open spec fn spec_addr(self) -> u16 {
        match self {
            IoReg::Lcdc => 0xff40,
            IoReg::Bcps => 0xff68,
            IoReg::Bcpd => 0xff69,
        }
    }

    pub fn addr(self) -> (r: u16)
        ensures
            r == self.spec_addr(),
            r >= ZERO_PAGE,
    {
        match self {
            IoReg::Lcdc => 0xff40,
            IoReg::Bcps => 0xff68,
            IoReg::Bcpd => 0xff69,
        }
    }

    /// The register's offset into the zero page: the low byte of its address.
    pub open spec fn spec_offset(self) -> u8 {
        (self.spec_addr() - 0xff00) as u8
    }

    pub fn offset(self) -> (r: u8)
        ensures
            r == self.spec_offset(),
            r as int == self.spec_addr() - 0xff00,
    {
        match self {
            IoReg::Lcdc => 0x40,
            IoReg::Bcps => 0x68,
            IoReg::Bcpd => 0x69,
        }
    }
}

/// The low byte of an address.
pub open spec fn spec_low_byte(addr: u16) -> u8 {
    (addr % 256) as u8
}

/// The high byte of an address.
pub open spec fn spec_high_byte(addr: u16) -> u8 {
    (addr / 256) as u8
}

pub fn low_byte(addr: u16) -> (r: u8)
    ensures
        r == spec_low_byte(addr),
{
    (addr % 256) as u8
}

pub fn high_byte(addr: u16) -> (r: u8)
    ensures
        r == spec_high_byte(addr),
{
    (addr / 256) as u8
}

impl From<IoReg> for u8 {
    /// The register's offset into the zero page.
    fn from(value: IoReg) -> (r: Self) {
        value.offset()
    }
}

impl vstd::std_specs::convert::FromSpecImpl<IoReg> for u8 {
    open spec fn obeys_from_spec() -> bool {
        true
    }

    open spec fn from_spec(value: IoReg) -> Self {
        value.spec_offset()
    }
}

} // verus!
