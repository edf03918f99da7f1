//! Registers, register pairs and condition flags of the CPU.
use vstd::prelude::*;

pub mod instructions;

pub use instructions::Condition;

verus! {

/// An 8-bit operand position. `IndHL` stands for the byte that `HL` points to.
#[derive(Clone, Copy, Debug, PartialEq, Eq, Structural)]
pub enum GpRegister {
    B,
    C,
    D,
    E,
    H,
    L,
    IndHL,
    A,
}

/// A condition flag as a jump tests it.
#[derive(Clone, Copy, Debug, PartialEq, Eq, Structural)]
pub enum CpuFlag {
    NZ,
    Z,
    NC,
    C,
}

/// Why a register pair could not be split into its halves.
#[derive(Clone, Copy, Debug, PartialEq, Eq, Structural)]
pub enum SplitError {
    StackPointer,
}

/// Why a register pair has no form in another operand position.
#[derive(Clone, Copy, Debug, PartialEq, Eq, Structural)]
pub enum RegConversionError {
    NotIndirect,
}

/// A 16-bit register as `ld rr, n16`, `inc rr` and `dec rr` name it.
#[derive(Clone, Copy, Debug, PartialEq, Eq, Structural)]
pub enum RegisterPair {
    BC,
    DE,
    HL,
    SP,
}

/// A 16-bit register as `push` and `pop` name it.
#[derive(Clone, Copy, Debug, PartialEq, Eq, Structural)]
pub enum StackPair {
    BC,
    DE,
    HL,
    AF,
}

/// A pointer operand of `ld a, [rr]` and `ld [rr], a`.
#[derive(Clone, Copy, Debug, PartialEq, Eq, Structural)]
pub enum IndirectPair {
    BC,
    DE,
    HLInc,
    HLDec,
}

impl GpRegister {
    /// The three bits that name this operand in an opcode.
    pub open spec fn spec_code(self) -> u8 {
        match self {
            GpRegister::B => 0,
            GpRegister::C => 1,
            GpRegister::D => 2,
            GpRegister::E => 3,
            GpRegister::H => 4,
            GpRegister::L => 5,
            GpRegister::IndHL => 6,
            GpRegister::A => 7,
        }
    }

    pub fn code(self) -> (r: u8)
        ensures
            r == self.spec_code(),
            r < 8,
    {
        match self {
            GpRegister::B => 0,
            GpRegister::C => 1,
            GpRegister::D => 2,
            GpRegister::E => 3,
            GpRegister::H => 4,
            GpRegister::L => 5,
            GpRegister::IndHL => 6,
            GpRegister::A => 7,
        }
    }

    /// The operand that three opcode bits name; `None` above 7.
    pub open spec fn spec_from_code(code: u8) -> Option<GpRegister> {
        if code == 0 {
            Some(GpRegister::B)
        } else if code == 1 {
            Some(GpRegister::C)
        } else if code == 2 {
            Some(GpRegister::D)
        } else if code == 3 {
            Some(GpRegister::E)
        } else if code == 4 {
            Some(GpRegister::H)
        } else if code == 5 {
            Some(GpRegister::L)
        } else if code == 6 {
            Some(GpRegister::IndHL)
        } else if code == 7 {
            Some(GpRegister::A)
        } else {
            None
        }
    }

    pub fn from_code(code: u8) -> (r: Option<GpRegister>)
        ensures
            r == Self::spec_from_code(code),
            r is Some <==> code < 8,
            r matches Some(reg) ==> reg.spec_code() == code,
            forall|x: GpRegister| x.spec_code() == code ==> r == Some(x),
    {
        match code {
            0 => Some(GpRegister::B),
            1 => Some(GpRegister::C),
            2 => Some(GpRegister::D),
            3 => Some(GpRegister::E),
            4 => Some(GpRegister::H),
            5 => Some(GpRegister::L),
            6 => Some(GpRegister::IndHL),
            7 => Some(GpRegister::A),
            _ => None,
        }
    }
}

impl CpuFlag {
    /// The two bits that name this flag in a conditional jump.
    pub open spec fn spec_code(self) -> u8 {
        match self {
            CpuFlag::NZ => 0,
            CpuFlag::Z => 1,
            CpuFlag::NC => 2,
            CpuFlag::C => 3,
        }
    }

    pub fn code(self) -> (r: u8)
        ensures
            r == self.spec_code(),
            r < 4,
    {
        match self {
            CpuFlag::NZ => 0,
            CpuFlag::Z => 1,
            CpuFlag::NC => 2,
            CpuFlag::C => 3,
        }
    }

    /// The flag that two opcode bits name; `None` above 3.
    pub open spec fn spec_from_code(code: u8) -> Option<CpuFlag> {
        if code == 0 {
            Some(CpuFlag::NZ)
        } else if code == 1 {
            Some(CpuFlag::Z)
        } else if code == 2 {
            Some(CpuFlag::NC)
        } else if code == 3 {
            Some(CpuFlag::C)
        } else {
            None
        }
    }

    pub fn from_code(code: u8) -> (r: Option<CpuFlag>)
        ensures
            r == Self::spec_from_code(code),
            r is Some <==> code < 4,
            r matches Some(flag) ==> flag.spec_code() == code,
            forall|x: CpuFlag| x.spec_code() == code ==> r == Some(x),
    {
        match code {
            0 => Some(CpuFlag::NZ),
            1 => Some(CpuFlag::Z),
            2 => Some(CpuFlag::NC),
            3 => Some(CpuFlag::C),
            _ => None,
        }
    }
}

impl RegisterPair {
    /// The two bits that name this pair in an opcode.
    pub open spec fn spec_code(self) -> u8 {
        match self {
            RegisterPair::BC => 0,
            RegisterPair::DE => 1,
            RegisterPair::HL => 2,
            RegisterPair::SP => 3,
        }
    }

    pub fn code(self) -> (r: u8)
        ensures
            r == self.spec_code(),
            r < 4,
    {
        match self {
            RegisterPair::BC => 0,
            RegisterPair::DE => 1,
            RegisterPair::HL => 2,
            RegisterPair::SP => 3,
        }
    }

    /// The pair that two opcode bits name; `None` above 3.
    pub open spec fn spec_from_code(code: u8) -> Option<RegisterPair> {
        if code == 0 {
            Some(RegisterPair::BC)
        } else if code == 1 {
            Some(RegisterPair::DE)
        } else if code == 2 {
            Some(RegisterPair::HL)
        } else if code == 3 {
            Some(RegisterPair::SP)
        } else {
            None
        }
    }

    pub fn from_code(code: u8) -> (r: Option<RegisterPair>)
        ensures
            r == Self::spec_from_code(code),
            r is Some <==> code < 4,
            r matches Some(pair) ==> pair.spec_code() == code,
            forall|x: RegisterPair| x.spec_code() == code ==> r == Some(x),
    {
        match code {
            0 => Some(RegisterPair::BC),
            1 => Some(RegisterPair::DE),
            2 => Some(RegisterPair::HL),
            3 => Some(RegisterPair::SP),
            _ => None,
        }
    }

    /// The halves of this pair, high register first; `SP` has none.
    pub open spec fn spec_split(self) -> Result<(GpRegister, GpRegister), SplitError> {
        match self {
            RegisterPair::BC => Ok((GpRegister::B, GpRegister::C)),
            RegisterPair::DE => Ok((GpRegister::D, GpRegister::E)),
            RegisterPair::HL => Ok((GpRegister::H, GpRegister::L)),
            RegisterPair::SP => Err(SplitError::StackPointer),
        }
    }

    /// Splits the pair into its (high, low) halves.
    pub fn try_split(&self) -> (r: Result<(GpRegister, GpRegister), SplitError>)
        ensures
            r == self.spec_split(),
            r is Ok <==> *self != RegisterPair::SP,
    {
        match self {
            RegisterPair::BC => Ok((GpRegister::B, GpRegister::C)),
            RegisterPair::DE => Ok((GpRegister::D, GpRegister::E)),
            RegisterPair::HL => Ok((GpRegister::H, GpRegister::L)),
            RegisterPair::SP => Err(SplitError::StackPointer),
        }
    }
}

impl StackPair {
    /// The two bits that name this pair in `push` and `pop`.
    pub open spec fn spec_code(self) -> u8 {
        match self {
            StackPair::BC => 0,
            StackPair::DE => 1,
            StackPair::HL => 2,
            StackPair::AF => 3,
        }
    }

    pub fn code(self) -> (r: u8)
        ensures
            r == self.spec_code(),
            r < 4,
    {
        match self {
            StackPair::BC => 0,
            StackPair::DE => 1,
            StackPair::HL => 2,
            StackPair::AF => 3,
        }
    }

    /// The pair that two opcode bits name; `None` above 3.
    pub open spec fn spec_from_code(code: u8) -> Option<StackPair> {
        if code == 0 {
            Some(StackPair::BC)
        } else if code == 1 {
            Some(StackPair::DE)
        } else if code == 2 {
            Some(StackPair::HL)
        } else if code == 3 {
            Some(StackPair::AF)
        } else {
            None
        }
    }

    pub fn from_code(code: u8) -> (r: Option<StackPair>)
        ensures
            r == Self::spec_from_code(code),
            r is Some <==> code < 4,
            r matches Some(pair) ==> pair.spec_code() == code,
            forall|x: StackPair| x.spec_code() == code ==> r == Some(x),
    {
        match code {
            0 => Some(StackPair::BC),
            1 => Some(StackPair::DE),
            2 => Some(StackPair::HL),
            3 => Some(StackPair::AF),
            _ => None,
        }
    }
}

impl IndirectPair {
    /// The two bits that name this pointer in an opcode.
    pub open spec fn spec_code(self) -> u8 {
        match self {
            IndirectPair::BC => 0,
            IndirectPair::DE => 1,
            IndirectPair::HLInc => 2,
            IndirectPair::HLDec => 3,
        }
    }

    pub fn code(self) -> (r: u8)
        ensures
            r == self.spec_code(),
            r < 4,
    {
        match self {
            IndirectPair::BC => 0,
            IndirectPair::DE => 1,
            IndirectPair::HLInc => 2,
            IndirectPair::HLDec => 3,
        }
    }

    /// The pointer that two opcode bits name; `None` above 3.
    pub open spec fn spec_from_code(code: u8) -> Option<IndirectPair> {
        if code == 0 {
            Some(IndirectPair::BC)
        } else if code == 1 {
            Some(IndirectPair::DE)
        } else if code == 2 {
            Some(IndirectPair::HLInc)
        } else if code == 3 {
            Some(IndirectPair::HLDec)
        } else {
            None
        }
    }

    pub fn from_code(code: u8) -> (r: Option<IndirectPair>)
        ensures
            r == Self::spec_from_code(code),
            r is Some <==> code < 4,
            r matches Some(pair) ==> pair.spec_code() == code,
            forall|x: IndirectPair| x.spec_code() == code ==> r == Some(x),
    {
        match code {
            0 => Some(IndirectPair::BC),
            1 => Some(IndirectPair::DE),
            2 => Some(IndirectPair::HLInc),
            3 => Some(IndirectPair::HLDec),
            _ => None,
        }
    }

    /// The pointer form of a register pair: `BC` and `DE` as they are, `HL` with
    /// post-increment. `SP` cannot be a pointer operand.
    pub open spec fn spec_from_pair(pair: RegisterPair) -> Result<IndirectPair, RegConversionError> {
        match pair {
            RegisterPair::BC => Ok(IndirectPair::BC),
            RegisterPair::DE => Ok(IndirectPair::DE),
            RegisterPair::HL => Ok(IndirectPair::HLInc),
            RegisterPair::SP => Err(RegConversionError::NotIndirect),
        }
    }

}

impl TryFrom<RegisterPair> for IndirectPair {
    type Error = RegConversionError;

    /// The pointer form of a register pair; `SP` has none.
    fn try_from(pair: RegisterPair) -> (r: Result<Self, RegConversionError>) {
        match pair {
            RegisterPair::BC => Ok(IndirectPair::BC),
            RegisterPair::DE => Ok(IndirectPair::DE),
            RegisterPair::HL => Ok(IndirectPair::HLInc),
            RegisterPair::SP => Err(RegConversionError::NotIndirect),
        }
    }
}

impl vstd::std_specs::convert::TryFromSpecImpl<RegisterPair> for IndirectPair {
    open spec fn obeys_try_from_spec() -> bool {
        true
    }

    open spec fn try_from_spec(pair: RegisterPair) -> Result<Self, RegConversionError> {
        IndirectPair::spec_from_pair(pair)
    }
}

} // verus!
