//! The instructions and their encoding.
use vstd::prelude::*;

use crate::codegen::block::EmitterError;
use crate::codegen::meta_instr::MetaInstruction;
use crate::codegen::variables::Id;
use crate::codegen::AssemblerError;
use crate::cpu::{CpuFlag, GpRegister, IndirectPair, RegisterPair, StackPair};
use crate::memory::{high_byte, low_byte, spec_high_byte, spec_low_byte};

verus! {

/// When a jump is taken.
#[derive(Clone, Copy, Debug, PartialEq, Eq, Structural)]
pub enum Condition {
    Flag(CpuFlag),
    Always,
}

/// One of the eight bits of a byte.
#[derive(Clone, Copy, Debug, PartialEq, Eq, Structural)]
pub enum Bit {
    _0,
    _1,
    _2,
    _3,
    _4,
    _5,
    _6,
    _7,
}

/// An instruction of the `0xCB` page.
#[derive(Clone, Copy, Debug, PartialEq, Eq, Structural)]
pub enum PrefixInstruction {
    Bit(Bit, GpRegister),
    Res(Bit, GpRegister),
    SetBit(Bit, GpRegister),
}

/// An instruction as the assembler emits it.
#[derive(Clone, Copy, Debug, PartialEq, Eq, Structural)]
pub enum Instruction {
    LdR16Imm(RegisterPair, u16),
    LdAFromR16(IndirectPair),
    IncR16(RegisterPair),
    IncR8(GpRegister),
    DecR8(GpRegister),
    LdR8Imm(GpRegister, u8),
    DecR16(RegisterPair),
    LdAToR16(IndirectPair),
    Jr(Condition, i8),
    LdR8FromR8(GpRegister, GpRegister),
    Cp(GpRegister),
    Pop(StackPair),
    Jp(Condition, u16),
    Push(StackPair),
    Prefixed(PrefixInstruction),
    LdhFromA(u8),
    LdhFromAWithC,
    LdAToInd(u16),
    LdhToA(u8),
    LdhToAWithC,
    LdAFromInd(u16),
    /// A position in the stream. It takes no room and cannot be written out.
    Label(Id),
    /// A placeholder. It must be rewritten before the stream is written out.
    Meta(MetaInstruction),
}

/// The opcode byte that introduces an instruction of the `0xCB` page.
pub const PREFIX: u8 = 0xcb;

/// The byte that stands for a signed offset: its two's complement.
pub open spec fn spec_offset_byte(offset: i8) -> u8 {
    if offset >= 0 {
        offset as u8
    } else {
        (offset + 256) as u8
    }
}

/// The signed offset that a byte stands for.
pub open spec fn spec_byte_offset(byte: u8) -> i8 {
    if byte < 128 {
        byte as i8
    } else {
        (byte - 256) as i8
    }
}

pub fn offset_byte(offset: i8) -> (r: u8)
    ensures
        r == spec_offset_byte(offset),
        spec_byte_offset(r) == offset,
{
    if offset >= 0 {
        offset as u8
    } else {
        (offset as i16 + 256) as u8
    }
}

pub fn byte_offset(byte: u8) -> (r: i8)
    ensures
        r == spec_byte_offset(byte),
        spec_offset_byte(r) == byte,
{
    if byte < 128 {
        byte as i8
    } else {
        (byte as i16 - 256) as i8
    }
}

impl Bit {
    /// The number of the bit, 0 for the lowest.
    pub open spec fn spec_code(self) -> u8 {
        match self {
            Bit::_0 => 0,
            Bit::_1 => 1,
            Bit::_2 => 2,
            Bit::_3 => 3,
            Bit::_4 => 4,
            Bit::_5 => 5,
            Bit::_6 => 6,
            Bit::_7 => 7,
        }
    }

    pub fn code(self) -> (r: u8)
        ensures
            r == self.spec_code(),
            r < 8,
    {
        match self {
            Bit::_0 => 0,
            Bit::_1 => 1,
            Bit::_2 => 2,
            Bit::_3 => 3,
            Bit::_4 => 4,
            Bit::_5 => 5,
            Bit::_6 => 6,
            Bit::_7 => 7,
        }
    }

    /// The bit that three opcode bits name; `None` above 7.
    pub open spec fn spec_from_code(code: u8) -> Option<Bit> {
        if code == 0 {
            Some(Bit::_0)
        } else if code == 1 {
            Some(Bit::_1)
        } else if code == 2 {
            Some(Bit::_2)
        } else if code == 3 {
            Some(Bit::_3)
        } else if code == 4 {
            Some(Bit::_4)
        } else if code == 5 {
            Some(Bit::_5)
        } else if code == 6 {
            Some(Bit::_6)
        } else if code == 7 {
            Some(Bit::_7)
        } else {
            None
        }
    }

    pub fn from_code(code: u8) -> (r: Option<Bit>)
        ensures
            r == Self::spec_from_code(code),
            r is Some <==> code < 8,
            r matches Some(bit) ==> bit.spec_code() == code,
            forall|x: Bit| x.spec_code() == code ==> r == Some(x),
    {
        match code {
            0 => Some(Bit::_0),
            1 => Some(Bit::_1),
            2 => Some(Bit::_2),
            3 => Some(Bit::_3),
            4 => Some(Bit::_4),
            5 => Some(Bit::_5),
            6 => Some(Bit::_6),
            7 => Some(Bit::_7),
            _ => None,
        }
    }
}

impl PrefixInstruction {
    /// The opcode of the family, before the operands are added.
    pub open spec fn spec_base(self) -> u8 {
        match self {
            PrefixInstruction::Bit(_, _) => 0x40,
            PrefixInstruction::Res(_, _) => 0x80,
            PrefixInstruction::SetBit(_, _) => 0xc0,
        }
    }

    pub fn base(&self) -> (r: u8)
        ensures
            r == self.spec_base(),
    {
        match self {
            PrefixInstruction::Bit(_, _) => 0x40,
            PrefixInstruction::Res(_, _) => 0x80,
            PrefixInstruction::SetBit(_, _) => 0xc0,
        }
    }

    /// The byte that follows the prefix: the base, the bit times 8, and the
    /// register.
    pub open spec fn spec_byte(self) -> u8 {
        match self {
            PrefixInstruction::Bit(bit, reg)
            | PrefixInstruction::Res(bit, reg)
            | PrefixInstruction::SetBit(bit, reg) => (self.spec_base() + reg.spec_code() + 8
                * bit.spec_code()) as u8,
        }
    }

    pub fn byte(&self) -> (r: u8)
        ensures
            r == self.spec_byte(),
    {
        match self {
            PrefixInstruction::Bit(bit, reg)
            | PrefixInstruction::Res(bit, reg)
            | PrefixInstruction::SetBit(bit, reg) => {
                let base = self.base();
                let reg_offset = reg.code();
                let bit_offset = bit.code() * 0x08;
                base + reg_offset + bit_offset
            },
        }
    }

    /// The instruction of the `0xCB` page that a byte stands for; there is one
    /// for each byte from `0x40` on.
    pub fn from_byte(byte: u8) -> (r: Option<PrefixInstruction>)
        ensures
            r is Some <==> byte >= 0x40,
            r matches Some(instruction) ==> instruction.spec_byte() == byte,
            forall|x: PrefixInstruction| x.spec_byte() == byte ==> r == Some(x),
    {
        if byte < 0x40 {
            return None;
        }
        let rest = byte % 0x40;
        let reg = GpRegister::from_code(rest % 8);
        let bit = Bit::from_code(rest / 8);
        match (bit, reg) {
            (Some(bit), Some(reg)) => {
                if byte < 0x80 {
                    Some(PrefixInstruction::Bit(bit, reg))
                } else if byte < 0xc0 {
                    Some(PrefixInstruction::Res(bit, reg))
                } else {
                    Some(PrefixInstruction::SetBit(bit, reg))
                }
            },
            _ => None,
        }
    }
}

impl PrefixInstruction {
    /// No two instructions of the `0xCB` page share a byte.
    pub proof fn lemma_byte_is_unique(self, other: PrefixInstruction)
        requires
            self.spec_byte() == other.spec_byte(),
        ensures
            self == other,
    {
    }
}

impl Instruction {
    /// The number of bytes that the instruction takes in the image. It depends
    /// on the family alone. A label and a placeholder take none.
    pub open spec fn spec_len(self) -> nat {
        match self {
            Instruction::LdR16Imm(_, _) => 3,
            Instruction::LdAFromR16(_) => 1,
            Instruction::IncR16(_) => 1,
            Instruction::IncR8(_) => 1,
            Instruction::DecR8(_) => 1,
            Instruction::LdR8Imm(_, _) => 2,
            Instruction::DecR16(_) => 1,
            Instruction::LdAToR16(_) => 1,
            Instruction::Jr(_, _) => 2,
            Instruction::LdR8FromR8(_, _) => 1,
            Instruction::Cp(_) => 1,
            Instruction::Pop(_) => 1,
            Instruction::Jp(_, _) => 3,
            Instruction::Push(_) => 1,
            Instruction::Prefixed(_) => 2,
            Instruction::LdhFromA(_) => 2,
            Instruction::LdhFromAWithC => 1,
            Instruction::LdAToInd(_) => 3,
            Instruction::LdhToA(_) => 2,
            Instruction::LdhToAWithC => 1,
            Instruction::LdAFromInd(_) => 3,
            Instruction::Label(_) => 0,
            Instruction::Meta(_) => 0,
        }
    }

    pub fn len(&self) -> (r: usize)
        ensures
            r == self.spec_len(),
            r <= 3,
    {
        match self {
            Instruction::LdR16Imm(_, _) => 3,
            Instruction::LdAFromR16(_) => 1,
            Instruction::IncR16(_) => 1,
            Instruction::IncR8(_) => 1,
            Instruction::DecR8(_) => 1,
            Instruction::LdR8Imm(_, _) => 2,
            Instruction::DecR16(_) => 1,
            Instruction::LdAToR16(_) => 1,
            Instruction::Jr(_, _) => 2,
            Instruction::LdR8FromR8(_, _) => 1,
            Instruction::Cp(_) => 1,
            Instruction::Pop(_) => 1,
            Instruction::Jp(_, _) => 3,
            Instruction::Push(_) => 1,
            Instruction::Prefixed(_) => 2,
            Instruction::LdhFromA(_) => 2,
            Instruction::LdhFromAWithC => 1,
            Instruction::LdAToInd(_) => 3,
            Instruction::LdhToA(_) => 2,
            Instruction::LdhToAWithC => 1,
            Instruction::LdAFromInd(_) => 3,
            Instruction::Label(_) => 0,
            Instruction::Meta(_) => 0,
        }
    }

    /// The opcode of the family, before the operands are added. A label and a
    /// placeholder have opcodes that the CPU does not know.
    pub open spec fn spec_base(self) -> u8 {
        match self {
            Instruction::LdR16Imm(_, _) => 0x01,
            Instruction::LdAFromR16(_) => 0x02,
            Instruction::IncR16(_) => 0x03,
            Instruction::IncR8(_) => 0x04,
            Instruction::DecR8(_) => 0x05,
            Instruction::LdR8Imm(_, _) => 0x06,
            Instruction::DecR16(_) => 0x0b,
            Instruction::LdAToR16(_) => 0x0a,
            Instruction::Jr(Condition::Always, _) => 0x18,
            Instruction::Jr(Condition::Flag(_), _) => 0x20,
            Instruction::LdR8FromR8(_, _) => 0x40,
            Instruction::Cp(_) => 0xb8,
            Instruction::Pop(_) => 0xc1,
            Instruction::Jp(Condition::Flag(_), _) => 0xc2,
            Instruction::Jp(Condition::Always, _) => 0xc3,
            Instruction::Push(_) => 0xc5,
            Instruction::Prefixed(_) => 0xcb,
            Instruction::LdhFromA(_) => 0xe0,
            Instruction::LdhFromAWithC => 0xe2,
            Instruction::LdAToInd(_) => 0xea,
            Instruction::LdhToA(_) => 0xf0,
            Instruction::LdhToAWithC => 0xf2,
            Instruction::LdAFromInd(_) => 0xfa,
            Instruction::Label(_) => 0xd3,
            Instruction::Meta(_) => 0xe3,
        }
    }

    pub fn base(&self) -> (r: u8)
        ensures
            r == self.spec_base(),
    {
        match self {
            Instruction::LdR16Imm(_, _) => 0x01,
            Instruction::LdAFromR16(_) => 0x02,
            Instruction::IncR16(_) => 0x03,
            Instruction::IncR8(_) => 0x04,
            Instruction::DecR8(_) => 0x05,
            Instruction::LdR8Imm(_, _) => 0x06,
            Instruction::DecR16(_) => 0x0b,
            Instruction::LdAToR16(_) => 0x0a,
            Instruction::Jr(Condition::Always, _) => 0x18,
            Instruction::Jr(Condition::Flag(_), _) => 0x20,
            Instruction::LdR8FromR8(_, _) => 0x40,
            Instruction::Cp(_) => 0xb8,
            Instruction::Pop(_) => 0xc1,
            Instruction::Jp(Condition::Flag(_), _) => 0xc2,
            Instruction::Jp(Condition::Always, _) => 0xc3,
            Instruction::Push(_) => 0xc5,
            Instruction::Prefixed(_) => 0xcb,
            Instruction::LdhFromA(_) => 0xe0,
            Instruction::LdhFromAWithC => 0xe2,
            Instruction::LdAToInd(_) => 0xea,
            Instruction::LdhToA(_) => 0xf0,
            Instruction::LdhToAWithC => 0xf2,
            Instruction::LdAFromInd(_) => 0xfa,
            Instruction::Label(_) => 0xd3,
            Instruction::Meta(_) => 0xe3,
        }
    }

    /// What is added to the base for the operands that the opcode names: a
    /// register times 8 or a pair times 16 in the destination position, a
    /// register in the source position, a flag times 8.
    pub open spec fn spec_operand_bits(self) -> int {
        match self {
            Instruction::LdR16Imm(pair, _) | Instruction::IncR16(pair) | Instruction::DecR16(
                pair,
            ) => 16 * pair.spec_code(),
            Instruction::LdAFromR16(pair) | Instruction::LdAToR16(pair) => 16 * pair.spec_code(),
            Instruction::IncR8(reg) | Instruction::DecR8(reg) | Instruction::LdR8Imm(reg, _) => 8
                * reg.spec_code(),
            Instruction::Jr(Condition::Flag(flag), _) | Instruction::Jp(
                Condition::Flag(flag),
                _,
            ) => 8 * flag.spec_code(),
            Instruction::LdR8FromR8(to, from) => 8 * to.spec_code() + from.spec_code(),
            Instruction::Cp(reg) => reg.spec_code() as int,
            Instruction::Pop(pair) | Instruction::Push(pair) => 16 * pair.spec_code(),
            _ => 0,
        }
    }

    /// The first byte of the instruction.
    pub open spec fn spec_opcode(self) -> u8 {
        (self.spec_base() + self.spec_operand_bits()) as u8
    }

    /// The bytes that follow the opcode: an immediate with its low byte first,
    /// the two's complement of a jump offset, or the second byte of the `0xCB`
    /// page.
    pub open spec fn spec_operand_bytes(self) -> Seq<u8> {
        match self {
            Instruction::LdR16Imm(_, imm)
            | Instruction::Jp(_, imm)
            | Instruction::LdAToInd(imm)
            | Instruction::LdAFromInd(imm) => seq![spec_low_byte(imm), spec_high_byte(imm)],
            Instruction::LdR8Imm(_, imm) | Instruction::LdhFromA(imm) | Instruction::LdhToA(
                imm,
            ) => seq![imm],
            Instruction::Jr(_, offset) => seq![spec_offset_byte(offset)],
            Instruction::Prefixed(instruction) => seq![instruction.spec_byte()],
            _ => Seq::empty(),
        }
    }

    /// Why the instruction cannot be written out, if it cannot: a placeholder
    /// and a label have no encoding, and `ld [hl], [hl]` is no instruction.
    pub open spec fn spec_encode_error(self) -> Option<AssemblerError> {
        match self {
            Instruction::Meta(meta) => Some(
                AssemblerError::EmitterError(
                    EmitterError::UnallocatedVariable(meta.spec_subject()),
                ),
            ),
            Instruction::Label(id) => Some(
                AssemblerError::EmitterError(EmitterError::UnresolvedLabel(id)),
            ),
            Instruction::LdR8FromR8(GpRegister::IndHL, GpRegister::IndHL) => Some(
                AssemblerError::ArgumentError,
            ),
            _ => None,
        }
    }

    /// The bytes of the instruction, or why it has none.
    pub open spec fn spec_encode(self) -> Result<Seq<u8>, AssemblerError> {
        match self.spec_encode_error() {
            Some(e) => Err(e),
            None => Ok(seq![self.spec_opcode()] + self.spec_operand_bytes()),
        }
    }

    /// Encodes the instruction: the opcode with its register, pair or flag
    /// bits, then the immediate. Fails for a placeholder, a label and
    /// `ld [hl], [hl]`.
    pub fn encode(&self) -> (r: Result<Vec<u8>, AssemblerError>)
        ensures
            r matches Ok(bytes) ==> self.spec_encode() == Ok::<Seq<u8>, AssemblerError>(bytes@),
            r matches Err(e) ==> self.spec_encode() == Err::<Seq<u8>, AssemblerError>(e),
            r matches Ok(bytes) ==> bytes@.len() == self.spec_len() && 1 <= bytes@.len() <= 3,
    {
        let mut out: Vec<u8> = Vec::with_capacity(3);
        let base = self.base();
        match *self {
            Instruction::LdR8FromR8(GpRegister::IndHL, GpRegister::IndHL) => {
                return Err(AssemblerError::ArgumentError);
            },
            Instruction::LdR8FromR8(to, from) => {
                out.push(base + (to.code() * 0x08) + from.code());
            },
            Instruction::LdR16Imm(r16, imm) => {
                out.push(base + r16.code() * 0x10);
                out.push(low_byte(imm));
                out.push(high_byte(imm));
            },
            Instruction::LdAFromR16(r16) | Instruction::LdAToR16(r16) => {
                out.push(base + r16.code() * 0x10);
            },
            Instruction::LdR8Imm(r8, imm) => {
                out.push(base + r8.code() * 0x08);
                out.push(imm);
            },
            Instruction::LdhFromA(imm) | Instruction::LdhToA(imm) => {
                out.push(base);
                out.push(imm);
            },
            Instruction::LdAFromInd(imm) | Instruction::LdAToInd(imm) => {
                out.push(base);
                out.push(low_byte(imm));
                out.push(high_byte(imm));
            },
            Instruction::LdhFromAWithC | Instruction::LdhToAWithC => {
                out.push(base);
            },
            Instruction::IncR8(r8) | Instruction::DecR8(r8) => {
                out.push(base + r8.code() * 0x08);
            },
            Instruction::Cp(r8) => {
                out.push(base + r8.code());
            },
            Instruction::IncR16(r16) | Instruction::DecR16(r16) => {
                out.push(base + r16.code() * 0x10);
            },
            Instruction::Jp(condition, imm) => {
                let flag_bits = match condition {
                    Condition::Always => 0,
                    Condition::Flag(flag) => flag.code() * 0x08,
                };
                out.push(base + flag_bits);
                out.push(low_byte(imm));
                out.push(high_byte(imm));
            },
            Instruction::Jr(condition, imm) => {
                let flag_bits = match condition {
                    Condition::Always => 0,
                    Condition::Flag(flag) => flag.code() * 0x08,
                };
                out.push(base + flag_bits);
                out.push(offset_byte(imm));
            },
            Instruction::Push(r16) | Instruction::Pop(r16) => {
                out.push(base + r16.code() * 0x10);
            },
            Instruction::Prefixed(instruction) => {
                out.push(base);
                out.push(instruction.byte());
            },
            Instruction::Label(id) => {
                return Err(AssemblerError::EmitterError(EmitterError::UnresolvedLabel(id)));
            },
            Instruction::Meta(meta) => {
                return Err(
                    AssemblerError::EmitterError(EmitterError::UnallocatedVariable(meta.subject())),
                );
            },
        };
        assert(out@ =~= seq![self.spec_opcode()] + self.spec_operand_bytes());
        Ok(out)
    }
}


/// The 16-bit value whose low byte is `lo` and whose high byte is `hi`.
pub open spec fn spec_word(lo: u8, hi: u8) -> u16 {
    (lo + 256 * hi) as u16
}

pub fn word(lo: u8, hi: u8) -> (r: u16)
    ensures
        r == spec_word(lo, hi),
        spec_low_byte(r) == lo,
        spec_high_byte(r) == hi,
{
    lo as u16 + 256 * (hi as u16)
}

impl Instruction {
    /// The instruction of one byte that `op` stands for.
    closed spec fn spec_decode1(op: u8) -> Option<Instruction> {
        if op < 0x40 {
            if op % 16 == 0x02 {
                match IndirectPair::spec_from_code(op / 16) {
                    Some(pair) => Some(Instruction::LdAFromR16(pair)),
                    None => None,
                }
            } else if op % 16 == 0x0a {
                match IndirectPair::spec_from_code(op / 16) {
                    Some(pair) => Some(Instruction::LdAToR16(pair)),
                    None => None,
                }
            } else if op % 16 == 0x03 {
                match RegisterPair::spec_from_code(op / 16) {
                    Some(pair) => Some(Instruction::IncR16(pair)),
                    None => None,
                }
            } else if op % 16 == 0x0b {
                match RegisterPair::spec_from_code(op / 16) {
                    Some(pair) => Some(Instruction::DecR16(pair)),
                    None => None,
                }
            } else if op % 8 == 4 {
                match GpRegister::spec_from_code(op / 8) {
                    Some(reg) => Some(Instruction::IncR8(reg)),
                    None => None,
                }
            } else if op % 8 == 5 {
                match GpRegister::spec_from_code(op / 8) {
                    Some(reg) => Some(Instruction::DecR8(reg)),
                    None => None,
                }
            } else {
                None
            }
        } else if op < 0x80 {
            if op == 0x76 {
                None
            } else {
                match (
                    GpRegister::spec_from_code(((op - 0x40) / 8) as u8),
                    GpRegister::spec_from_code(op % 8),
                ) {
                    (Some(to), Some(from)) => Some(Instruction::LdR8FromR8(to, from)),
                    _ => None,
                }
            }
        } else if op >= 0xb8 && op < 0xc0 {
            match GpRegister::spec_from_code((op - 0xb8) as u8) {
                Some(reg) => Some(Instruction::Cp(reg)),
                None => None,
            }
        } else if op >= 0xc0 && op % 16 == 1 {
            match StackPair::spec_from_code(((op - 0xc0) / 16) as u8) {
                Some(pair) => Some(Instruction::Pop(pair)),
                None => None,
            }
        } else if op >= 0xc0 && op % 16 == 5 {
            match StackPair::spec_from_code(((op - 0xc0) / 16) as u8) {
                Some(pair) => Some(Instruction::Push(pair)),
                None => None,
            }
        } else if op == 0xe2 {
            Some(Instruction::LdhFromAWithC)
        } else if op == 0xf2 {
            Some(Instruction::LdhToAWithC)
        } else {
            None
        }
    }

    /// What one byte is read as is written out as that byte.
    proof fn lemma_decode1_sound(op: u8)
        ensures
            Self::spec_decode1(op) matches Some(i) ==> i.spec_encode() == Ok::<
                Seq<u8>,
                AssemblerError,
            >(seq![op]),
    {
        if let Some(i) = Self::spec_decode1(op) {
            assert(i.spec_encode().unwrap() =~= seq![op]);
        }
    }

    /// What is written out as one byte is read from that byte.
    proof fn lemma_decode1_complete(i: Instruction)
        requires
            i.spec_encode() is Ok,
            i.spec_len() == 1,
        ensures
            Self::spec_decode1(i.spec_opcode()) is Some,
    {
        let op = i.spec_opcode();
        match i {
            Instruction::LdAFromR16(pair) => {
                assert(op == 0x02 + 16 * pair.spec_code());
            },
            Instruction::LdAToR16(pair) => {
                assert(op == 0x0a + 16 * pair.spec_code());
            },
            Instruction::IncR16(pair) => {
                assert(op == 0x03 + 16 * pair.spec_code());
            },
            Instruction::DecR16(pair) => {
                assert(op == 0x0b + 16 * pair.spec_code());
            },
            Instruction::IncR8(reg) => {
                assert(op == 0x04 + 8 * reg.spec_code());
            },
            Instruction::DecR8(reg) => {
                assert(op == 0x05 + 8 * reg.spec_code());
            },
            Instruction::LdR8FromR8(to, from) => {
                assert(op == 0x40 + 8 * to.spec_code() + from.spec_code());
                assert((op - 0x40) / 8 == to.spec_code());
                assert(op % 8 == from.spec_code());
            },
            Instruction::Cp(reg) => {
                assert(op == 0xb8 + reg.spec_code());
            },
            Instruction::Pop(pair) => {
                assert(op == 0xc1 + 16 * pair.spec_code());
            },
            Instruction::Push(pair) => {
                assert(op == 0xc5 + 16 * pair.spec_code());
            },
            _ => {},
        }
    }

    /// Decodes an instruction of one byte.
    fn decode1(op: u8) -> (r: Option<Instruction>)
        ensures
            r matches Some(i) ==> i.spec_encode() == Ok::<Seq<u8>, AssemblerError>(seq![op]),
            forall|i: Instruction|
                i.spec_encode() == Ok::<Seq<u8>, AssemblerError>(seq![op]) ==> r == Some(i),
    {
        let r = if op < 0x40 {
            let low = op % 16;
            if low == 0x02 {
                match IndirectPair::from_code(op / 16) {
                    Some(pair) => Some(Instruction::LdAFromR16(pair)),
                    None => None,
                }
            } else if low == 0x0a {
                match IndirectPair::from_code(op / 16) {
                    Some(pair) => Some(Instruction::LdAToR16(pair)),
                    None => None,
                }
            } else if low == 0x03 {
                match RegisterPair::from_code(op / 16) {
                    Some(pair) => Some(Instruction::IncR16(pair)),
                    None => None,
                }
            } else if low == 0x0b {
                match RegisterPair::from_code(op / 16) {
                    Some(pair) => Some(Instruction::DecR16(pair)),
                    None => None,
                }
            } else if op % 8 == 4 {
                match GpRegister::from_code(op / 8) {
                    Some(reg) => Some(Instruction::IncR8(reg)),
                    None => None,
                }
            } else if op % 8 == 5 {
                match GpRegister::from_code(op / 8) {
                    Some(reg) => Some(Instruction::DecR8(reg)),
                    None => None,
                }
            } else {
                None
            }
        } else if op < 0x80 {
            if op == 0x76 {
                None
            } else {
                match (GpRegister::from_code((op - 0x40) / 8), GpRegister::from_code(op % 8)) {
                    (Some(to), Some(from)) => Some(Instruction::LdR8FromR8(to, from)),
                    _ => None,
                }
            }
        } else if op >= 0xb8 && op < 0xc0 {
            match GpRegister::from_code(op - 0xb8) {
                Some(reg) => Some(Instruction::Cp(reg)),
                None => None,
            }
        } else if op >= 0xc0 && op % 16 == 1 {
            match StackPair::from_code((op - 0xc0) / 16) {
                Some(pair) => Some(Instruction::Pop(pair)),
                None => None,
            }
        } else if op >= 0xc0 && op % 16 == 5 {
            match StackPair::from_code((op - 0xc0) / 16) {
                Some(pair) => Some(Instruction::Push(pair)),
                None => None,
            }
        } else if op == 0xe2 {
            Some(Instruction::LdhFromAWithC)
        } else if op == 0xf2 {
            Some(Instruction::LdhToAWithC)
        } else {
            None
        };
        assert(r == Self::spec_decode1(op));
        proof {
            Self::lemma_decode1_sound(op);
            assert forall|i: Instruction|
                i.spec_encode() == Ok::<Seq<u8>, AssemblerError>(seq![op]) implies r == Some(
                i,
            ) by {
                let bytes = seq![i.spec_opcode()] + i.spec_operand_bytes();
                assert(bytes.len() == 1);
                assert(bytes[0] == op);
                Self::lemma_decode1_complete(i);
                r.unwrap().lemma_encoding_is_unique(i);
            }
        }
        r
    }

    /// Decodes an instruction of two bytes.
    fn decode2(op: u8, operand: u8) -> (r: Option<Instruction>)
        ensures
            r matches Some(i) ==> i.spec_encode() == Ok::<Seq<u8>, AssemblerError>(
                seq![op, operand],
            ),
            forall|i: Instruction|
                i.spec_encode() == Ok::<Seq<u8>, AssemblerError>(seq![op, operand]) ==> r == Some(
                    i,
                ),
    {
        let r = if op < 0x40 && op % 8 == 6 {
            match GpRegister::from_code(op / 8) {
                Some(reg) => Some(Instruction::LdR8Imm(reg, operand)),
                None => None,
            }
        } else if op == 0x18 {
            Some(Instruction::Jr(Condition::Always, byte_offset(operand)))
        } else if op >= 0x20 && op < 0x40 && op % 8 == 0 {
            match CpuFlag::from_code((op - 0x20) / 8) {
                Some(flag) => Some(Instruction::Jr(Condition::Flag(flag), byte_offset(operand))),
                None => None,
            }
        } else if op == PREFIX {
            match PrefixInstruction::from_byte(operand) {
                Some(instruction) => Some(Instruction::Prefixed(instruction)),
                None => None,
            }
        } else if op == 0xe0 {
            Some(Instruction::LdhFromA(operand))
        } else if op == 0xf0 {
            Some(Instruction::LdhToA(operand))
        } else {
            None
        };
        proof {
            if let Some(i) = r {
                assert(i.spec_encode().unwrap() =~= seq![op, operand]);
            }
            assert forall|i: Instruction|
                i.spec_encode() == Ok::<Seq<u8>, AssemblerError>(
                    seq![op, operand],
                ) implies r == Some(i) by {
                let bytes = seq![i.spec_opcode()] + i.spec_operand_bytes();
                assert(bytes.len() == 2);
                assert(bytes[0] == op);
                assert(bytes[1] == operand);
            }
        }
        r
    }

    /// Decodes an instruction of three bytes.
    fn decode3(op: u8, lo: u8, hi: u8) -> (r: Option<Instruction>)
        ensures
            r matches Some(i) ==> i.spec_encode() == Ok::<Seq<u8>, AssemblerError>(
                seq![op, lo, hi],
            ),
            forall|i: Instruction|
                i.spec_encode() == Ok::<Seq<u8>, AssemblerError>(seq![op, lo, hi]) ==> r == Some(
                    i,
                ),
    {
        let imm = word(lo, hi);
        let r = if op < 0x40 && op % 16 == 1 {
            match RegisterPair::from_code(op / 16) {
                Some(pair) => Some(Instruction::LdR16Imm(pair, imm)),
                None => None,
            }
        } else if op == 0xc3 {
            Some(Instruction::Jp(Condition::Always, imm))
        } else if op >= 0xc2 && op < 0xe0 && op % 8 == 2 {
            match CpuFlag::from_code((op - 0xc2) / 8) {
                Some(flag) => Some(Instruction::Jp(Condition::Flag(flag), imm)),
                None => None,
            }
        } else if op == 0xea {
            Some(Instruction::LdAToInd(imm))
        } else if op == 0xfa {
            Some(Instruction::LdAFromInd(imm))
        } else {
            None
        };
        proof {
            if let Some(i) = r {
                assert(i.spec_encode().unwrap() =~= seq![op, lo, hi]);
            }
            assert forall|i: Instruction|
                i.spec_encode() == Ok::<Seq<u8>, AssemblerError>(
                    seq![op, lo, hi],
                ) implies r == Some(i) by {
                let bytes = seq![i.spec_opcode()] + i.spec_operand_bytes();
                assert(bytes.len() == 3);
                assert(bytes[0] == op);
                assert(bytes[1] == lo);
                assert(bytes[2] == hi);
            }
        }
        r
    }

    /// Reads an instruction back from its bytes. The result is the one
    /// instruction whose encoding is exactly `bytes`, if there is one.
    pub fn decode(bytes: &[u8]) -> (r: Option<Instruction>)
        ensures
            r matches Some(i) ==> i.spec_encode() == Ok::<Seq<u8>, AssemblerError>(bytes@),
            forall|i: Instruction|
                i.spec_encode() == Ok::<Seq<u8>, AssemblerError>(bytes@) ==> r == Some(i),
    {
        let n = bytes.len();
        if n == 1 {
            assert(bytes@ =~= seq![bytes@[0]]);
            Self::decode1(bytes[0])
        } else if n == 2 {
            assert(bytes@ =~= seq![bytes@[0], bytes@[1]]);
            Self::decode2(bytes[0], bytes[1])
        } else if n == 3 {
            assert(bytes@ =~= seq![bytes@[0], bytes@[1], bytes@[2]]);
            Self::decode3(bytes[0], bytes[1], bytes[2])
        } else {
            assert forall|i: Instruction|
                i.spec_encode() == Ok::<Seq<u8>, AssemblerError>(bytes@) implies false by {
                assert((seq![i.spec_opcode()] + i.spec_operand_bytes()).len() <= 3);
            }
            None
        }
    }

    /// Two instructions that can be written out and have one opcode have one
    /// base and the same operand bits.
    proof fn lemma_opcode_is_unique(self, other: Instruction)
        requires
            self.spec_encode_error() is None,
            other.spec_encode_error() is None,
            self.spec_opcode() == other.spec_opcode(),
        ensures
            self.spec_base() == other.spec_base(),
            self.spec_operand_bits() == other.spec_operand_bits(),
    {
        let op = self.spec_opcode();
        let a = self.spec_operand_bits();
        let b = other.spec_operand_bits();
        assert(0 <= a < 64 && 0 <= b < 64);
        assert(op == self.spec_base() + a);
        assert(op == other.spec_base() + b);
        if op < 0x40 {
            assert(self.spec_base() < 0x40 && other.spec_base() < 0x40);
        } else if op < 0x80 {
            assert(self.spec_base() == 0x40 && other.spec_base() == 0x40);
        } else {
            assert(self.spec_base() >= 0xb8 && other.spec_base() >= 0xb8);
        }
    }

    /// An instruction that can be written out is read back from its bytes as
    /// itself: no two instructions share an encoding.
    pub proof fn lemma_encoding_is_unique(self, other: Instruction)
        requires
            self.spec_encode() is Ok,
            self.spec_encode() == other.spec_encode(),
        ensures
            self == other,
    {
        let a = seq![self.spec_opcode()] + self.spec_operand_bytes();
        let b = seq![other.spec_opcode()] + other.spec_operand_bytes();
        assert(a == b);
        assert(a[0] == b[0]);
        assert(a.len() == b.len());
        self.lemma_opcode_is_unique(other);
        self.lemma_base_names_family(other);
        if a.len() >= 2 {
            assert(a[1] == b[1]);
        }
        if a.len() >= 3 {
            assert(a[2] == b[2]);
        }
        match self {
            Instruction::Prefixed(x) => {
                x.lemma_byte_is_unique(other->Prefixed_0);
            },
            _ => {},
        }
    }

    /// Two instructions with one base are of one family.
    proof fn lemma_base_names_family(self, other: Instruction)
        requires
            self.spec_base() == other.spec_base(),
        ensures
            self is LdR16Imm <==> other is LdR16Imm,
            self is LdAFromR16 <==> other is LdAFromR16,
            self is IncR16 <==> other is IncR16,
            self is IncR8 <==> other is IncR8,
            self is DecR8 <==> other is DecR8,
            self is LdR8Imm <==> other is LdR8Imm,
            self is DecR16 <==> other is DecR16,
            self is LdAToR16 <==> other is LdAToR16,
            self is Jr <==> other is Jr,
            self is Jr ==> (self->Jr_0 is Always <==> other->Jr_0 is Always),
            self is LdR8FromR8 <==> other is LdR8FromR8,
            self is Cp <==> other is Cp,
            self is Pop <==> other is Pop,
            self is Jp <==> other is Jp,
            self is Jp ==> (self->Jp_0 is Always <==> other->Jp_0 is Always),
            self is Push <==> other is Push,
            self is Prefixed <==> other is Prefixed,
            self is LdhFromA <==> other is LdhFromA,
            self is LdhFromAWithC <==> other is LdhFromAWithC,
            self is LdAToInd <==> other is LdAToInd,
            self is LdhToA <==> other is LdhToA,
            self is LdhToAWithC <==> other is LdhToAWithC,
            self is LdAFromInd <==> other is LdAFromInd,
            self is Label <==> other is Label,
            self is Meta <==> other is Meta,
    {
    }

    /// The bytes of an instruction are as many as its length says.
    pub proof fn lemma_encoded_len(self)
        ensures
            self.spec_encode() matches Ok(bytes) ==> bytes.len() == self.spec_len(),
    {
    }
}

impl From<CpuFlag> for Condition {
    fn from(value: CpuFlag) -> (r: Self) {
        Condition::Flag(value)
    }
}

impl vstd::std_specs::convert::FromSpecImpl<CpuFlag> for Condition {
    open spec fn obeys_from_spec() -> bool {
        true
    }

    open spec fn from_spec(value: CpuFlag) -> Self {
        Condition::Flag(value)
    }
}

impl From<PrefixInstruction> for Instruction {
    fn from(value: PrefixInstruction) -> (r: Self) {
        Instruction::Prefixed(value)
    }
}

impl vstd::std_specs::convert::FromSpecImpl<PrefixInstruction> for Instruction {
    open spec fn obeys_from_spec() -> bool {
        true
    }

    open spec fn from_spec(value: PrefixInstruction) -> Self {
        Instruction::Prefixed(value)
    }
}

impl From<PrefixInstruction> for u8 {
    /// The byte that follows the prefix.
    fn from(value: PrefixInstruction) -> (r: Self) {
        value.byte()
    }
}

impl vstd::std_specs::convert::FromSpecImpl<PrefixInstruction> for u8 {
    open spec fn obeys_from_spec() -> bool {
        true
    }

    open spec fn from_spec(value: PrefixInstruction) -> Self {
        value.spec_byte()
    }
}

} // verus!
