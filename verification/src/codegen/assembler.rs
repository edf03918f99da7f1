//! The assembler layers: one instruction per call, blocks, identifiers.
use vstd::prelude::*;

use crate::codegen::allocator::{AllocState, ConstAllocError, ConstAllocator};
use crate::codegen::block::basic_block::BasicBlock;
use crate::codegen::block::loop_block::{LoopBlock, LoopCondition};
use crate::codegen::block::{BasicModel, BlockModel};
use crate::codegen::meta_instr::{MetaInstruction, VarOrConst};
use crate::codegen::allocator::{spec_fresh_slot, GpRegisters};
use crate::codegen::block::{spec_const_list, LoopModel};
use crate::codegen::selection::{
    spec_code_of, spec_promoted_raw, spec_reg_to_ind, spec_set_raw, spec_store_a, spec_with_a,
    Selected,
};
use crate::codegen::variables::{RawRegVariable, RegSelector};
use crate::ppu::palettes::{CgbPalette, Color, PaletteSelector};
use crate::ppu::tiles::{Tile, TileIdx, Tilemap};
use crate::ppu::{TiledataSelector, TilemapSelector};
use crate::codegen::variables::{
    Constant, Id, IdInner, RawVariable, StoredConstant, Variable, Variabler,
};
use crate::codegen::AssemblerError;
use crate::memory::IoReg;
use crate::cpu::instructions::{Bit, Condition, Instruction, PrefixInstruction};
use crate::cpu::{GpRegister, IndirectPair, RegisterPair, StackPair};
use crate::memory::{high_byte, low_byte, spec_high_byte, spec_low_byte, Addr};

verus! {

/// Something that instructions can be appended to. It is seen as the basic
/// block that it is or stands for.
pub trait Assembler: Sized {
    /// The basic block that the value is or stands for.
    spec fn model(&self) -> BasicModel;

    /// What the allocator holds that the value owns, if it owns one. A block
    /// owns none: the allocator of its tree is lent to each operation.
    spec fn spec_allocator(&self) -> Option<AllocState>;

    /// The condition on which the value is run again, if it is a loop. No
    /// operation of an assembler changes it.
    spec fn spec_condition(&self) -> Option<LoopCondition>;

    /// Appends one instruction: to the last block if that is a raw one, else
    /// as a new raw block.
    fn push_instruction(&mut self, instruction: Instruction)
        ensures
            final(self).model() == old(self).model().emit(seq![instruction]),
            final(self).spec_allocator() == old(self).spec_allocator(),
            final(self).spec_condition() == old(self).spec_condition(),
    ;

    /// Appends a run of instructions: to the last block if that is a raw one,
    /// else as a new raw block.
    fn push_buf(&mut self, buf: &[Instruction])
        ensures
            final(self).model() == old(self).model().emit(buf@),
            final(self).spec_allocator() == old(self).spec_allocator(),
            final(self).spec_condition() == old(self).spec_condition(),
    ;

    /// The bytes that the instructions take, those of inner blocks included.
    fn len(&self) -> (r: usize)
        requires
            self.model().spec_len() <= usize::MAX,
        ensures
            r == self.model().spec_len(),
    ;

    /// Appends a run of instructions if there are any.
    fn emit_code(&mut self, code: &Vec<Instruction>)
        ensures
            final(self).model() == old(self).model().append(code@),
            final(self).spec_allocator() == old(self).spec_allocator(),
            final(self).spec_condition() == old(self).spec_condition(),
    {
        if code.len() > 0 {
            self.push_buf(code.as_slice());
        }
    }

    /// `ld rr, n16`: loads the immediate `imm` into `reg_pair`.
    fn ld_r16_imm(&mut self, reg_pair: RegisterPair, imm: u16) -> (ret: &mut Self)
        ensures
            ret.model() == old(self).model().emit(seq![Instruction::LdR16Imm(reg_pair, imm)]),
            ret.spec_allocator() == old(self).spec_allocator(),
            ret.spec_condition() == old(self).spec_condition(),
            *final(self) == *final(ret),
    {
        self.push_instruction(Instruction::LdR16Imm(reg_pair, imm));
        self
    }

    /// `ld a, [rr]`: loads the byte that `reg_pair` points to into `a`.
    fn ld_a_from_r16(&mut self, reg_pair: IndirectPair) -> (ret: &mut Self)
        ensures
            ret.model() == old(self).model().emit(seq![Instruction::LdAFromR16(reg_pair)]),
            ret.spec_allocator() == old(self).spec_allocator(),
            ret.spec_condition() == old(self).spec_condition(),
            *final(self) == *final(ret),
    {
        self.push_instruction(Instruction::LdAFromR16(reg_pair));
        self
    }

    /// `inc rr`: increments the register pair.
    fn inc_r16(&mut self, reg_pair: RegisterPair) -> (ret: &mut Self)
        ensures
            ret.model() == old(self).model().emit(seq![Instruction::IncR16(reg_pair)]),
            ret.spec_allocator() == old(self).spec_allocator(),
            ret.spec_condition() == old(self).spec_condition(),
            *final(self) == *final(ret),
    {
        self.push_instruction(Instruction::IncR16(reg_pair));
        self
    }

    /// `inc r`: increments the register.
    fn inc_r8(&mut self, reg: GpRegister) -> (ret: &mut Self)
        ensures
            ret.model() == old(self).model().emit(seq![Instruction::IncR8(reg)]),
            ret.spec_allocator() == old(self).spec_allocator(),
            ret.spec_condition() == old(self).spec_condition(),
            *final(self) == *final(ret),
    {
        self.push_instruction(Instruction::IncR8(reg));
        self
    }

    /// `dec r`: decrements the register.
    fn dec_r8(&mut self, reg: GpRegister) -> (ret: &mut Self)
        ensures
            ret.model() == old(self).model().emit(seq![Instruction::DecR8(reg)]),
            ret.spec_allocator() == old(self).spec_allocator(),
            ret.spec_condition() == old(self).spec_condition(),
            *final(self) == *final(ret),
    {
        self.push_instruction(Instruction::DecR8(reg));
        self
    }

    /// `ld r, n8`: loads the immediate `imm` into `reg`.
    fn ld_r8_imm(&mut self, reg: GpRegister, imm: u8) -> (ret: &mut Self)
        ensures
            ret.model() == old(self).model().emit(seq![Instruction::LdR8Imm(reg, imm)]),
            ret.spec_allocator() == old(self).spec_allocator(),
            ret.spec_condition() == old(self).spec_condition(),
            *final(self) == *final(ret),
    {
        self.push_instruction(Instruction::LdR8Imm(reg, imm));
        self
    }

    /// `dec rr`: decrements the register pair.
    fn dec_r16(&mut self, reg_pair: RegisterPair) -> (ret: &mut Self)
        ensures
            ret.model() == old(self).model().emit(seq![Instruction::DecR16(reg_pair)]),
            ret.spec_allocator() == old(self).spec_allocator(),
            ret.spec_condition() == old(self).spec_condition(),
            *final(self) == *final(ret),
    {
        self.push_instruction(Instruction::DecR16(reg_pair));
        self
    }

    /// `ld [rr], a`: stores `a` in the byte that `reg_pair` points to.
    fn ld_a_to_r16(&mut self, reg_pair: IndirectPair) -> (ret: &mut Self)
        ensures
            ret.model() == old(self).model().emit(seq![Instruction::LdAToR16(reg_pair)]),
            ret.spec_allocator() == old(self).spec_allocator(),
            ret.spec_condition() == old(self).spec_condition(),
            *final(self) == *final(ret),
    {
        self.push_instruction(Instruction::LdAToR16(reg_pair));
        self
    }

    /// `jr cc, e8`: jumps by `offset` bytes if `condition` holds.
    fn jr(&mut self, condition: Condition, offset: i8) -> (ret: &mut Self)
        ensures
            ret.model() == old(self).model().emit(seq![Instruction::Jr(condition, offset)]),
            ret.spec_allocator() == old(self).spec_allocator(),
            ret.spec_condition() == old(self).spec_condition(),
            *final(self) == *final(ret),
    {
        self.push_instruction(Instruction::Jr(condition, offset));
        self
    }

    /// `ld r, r`: loads the byte in `src` into `dest`.
    fn ld_r8_from_r8(&mut self, dest: GpRegister, src: GpRegister) -> (ret: &mut Self)
        ensures
            ret.model() == old(self).model().emit(seq![Instruction::LdR8FromR8(dest, src)]),
            ret.spec_allocator() == old(self).spec_allocator(),
            ret.spec_condition() == old(self).spec_condition(),
            *final(self) == *final(ret),
    {
        self.push_instruction(Instruction::LdR8FromR8(dest, src));
        self
    }

    /// `cp a, r`: subtracts `reg` from `a` for the flags alone.
    fn cp(&mut self, reg: GpRegister) -> (ret: &mut Self)
        ensures
            ret.model() == old(self).model().emit(seq![Instruction::Cp(reg)]),
            ret.spec_allocator() == old(self).spec_allocator(),
            ret.spec_condition() == old(self).spec_condition(),
            *final(self) == *final(ret),
    {
        self.push_instruction(Instruction::Cp(reg));
        self
    }

    /// `pop rr`: pops two bytes off the stack into `reg_pair`.
    fn pop(&mut self, reg_pair: StackPair) -> (ret: &mut Self)
        ensures
            ret.model() == old(self).model().emit(seq![Instruction::Pop(reg_pair)]),
            ret.spec_allocator() == old(self).spec_allocator(),
            ret.spec_condition() == old(self).spec_condition(),
            *final(self) == *final(ret),
    {
        self.push_instruction(Instruction::Pop(reg_pair));
        self
    }

    /// `jp cc, a16`: jumps to `addr` if `condition` holds.
    fn jp(&mut self, condition: Condition, addr: Addr) -> (ret: &mut Self)
        ensures
            ret.model() == old(self).model().emit(seq![Instruction::Jp(condition, addr)]),
            ret.spec_allocator() == old(self).spec_allocator(),
            ret.spec_condition() == old(self).spec_condition(),
            *final(self) == *final(ret),
    {
        self.push_instruction(Instruction::Jp(condition, addr));
        self
    }

    /// `push rr`: pushes `reg_pair` onto the stack.
    fn push(&mut self, reg_pair: StackPair) -> (ret: &mut Self)
        ensures
            ret.model() == old(self).model().emit(seq![Instruction::Push(reg_pair)]),
            ret.spec_allocator() == old(self).spec_allocator(),
            ret.spec_condition() == old(self).spec_condition(),
            *final(self) == *final(ret),
    {
        self.push_instruction(Instruction::Push(reg_pair));
        self
    }

    /// `ldh [$ff00+n8], a`: stores `a` in the zero page at offset `imm`.
    fn ldh_from_a(&mut self, imm: u8) -> (ret: &mut Self)
        ensures
            ret.model() == old(self).model().emit(seq![Instruction::LdhFromA(imm)]),
            ret.spec_allocator() == old(self).spec_allocator(),
            ret.spec_condition() == old(self).spec_condition(),
            *final(self) == *final(ret),
    {
        self.push_instruction(Instruction::LdhFromA(imm));
        self
    }

    /// `ldh [$ff00+c], a`: stores `a` in the zero page at offset `c`.
    fn ldh_from_a_with_c(&mut self) -> (ret: &mut Self)
        ensures
            ret.model() == old(self).model().emit(seq![Instruction::LdhFromAWithC]),
            ret.spec_allocator() == old(self).spec_allocator(),
            ret.spec_condition() == old(self).spec_condition(),
            *final(self) == *final(ret),
    {
        self.push_instruction(Instruction::LdhFromAWithC);
        self
    }

    /// `ld [n16], a`: stores `a` at the address `imm`.
    fn ld_a_to_ind(&mut self, imm: Addr) -> (ret: &mut Self)
        ensures
            ret.model() == old(self).model().emit(seq![Instruction::LdAToInd(imm)]),
            ret.spec_allocator() == old(self).spec_allocator(),
            ret.spec_condition() == old(self).spec_condition(),
            *final(self) == *final(ret),
    {
        self.push_instruction(Instruction::LdAToInd(imm));
        self
    }

    /// `ldh a, [$ff00+n8]`: loads the byte of the zero page at offset `imm` into `a`.
    fn ldh_to_a(&mut self, imm: u8) -> (ret: &mut Self)
        ensures
            ret.model() == old(self).model().emit(seq![Instruction::LdhToA(imm)]),
            ret.spec_allocator() == old(self).spec_allocator(),
            ret.spec_condition() == old(self).spec_condition(),
            *final(self) == *final(ret),
    {
        self.push_instruction(Instruction::LdhToA(imm));
        self
    }

    /// `ldh a, [$ff00+c]`: loads the byte of the zero page at offset `c` into `a`.
    fn ldh_to_a_with_c(&mut self) -> (ret: &mut Self)
        ensures
            ret.model() == old(self).model().emit(seq![Instruction::LdhToAWithC]),
            ret.spec_allocator() == old(self).spec_allocator(),
            ret.spec_condition() == old(self).spec_condition(),
            *final(self) == *final(ret),
    {
        self.push_instruction(Instruction::LdhToAWithC);
        self
    }

    /// `ld a, [n16]`: loads the byte at the address `imm` into `a`.
    fn ld_a_from_ind(&mut self, imm: Addr) -> (ret: &mut Self)
        ensures
            ret.model() == old(self).model().emit(seq![Instruction::LdAFromInd(imm)]),
            ret.spec_allocator() == old(self).spec_allocator(),
            ret.spec_condition() == old(self).spec_condition(),
            *final(self) == *final(ret),
    {
        self.push_instruction(Instruction::LdAFromInd(imm));
        self
    }

    /// `bit u3, r`: tests bit `bit` of `reg`.
    fn bit(&mut self, reg: GpRegister, bit: Bit) -> (ret: &mut Self)
        ensures
            ret.model() == old(self).model().emit(seq![Instruction::Prefixed(PrefixInstruction::Bit(bit, reg))]),
            ret.spec_allocator() == old(self).spec_allocator(),
            ret.spec_condition() == old(self).spec_condition(),
            *final(self) == *final(ret),
    {
        self.push_instruction(Instruction::Prefixed(PrefixInstruction::Bit(bit, reg)));
        self
    }

    /// `res u3, r`: clears bit `bit` of `reg`.
    fn res(&mut self, reg: GpRegister, bit: Bit) -> (ret: &mut Self)
        ensures
            ret.model() == old(self).model().emit(seq![Instruction::Prefixed(PrefixInstruction::Res(bit, reg))]),
            ret.spec_allocator() == old(self).spec_allocator(),
            ret.spec_condition() == old(self).spec_condition(),
            *final(self) == *final(ret),
    {
        self.push_instruction(Instruction::Prefixed(PrefixInstruction::Res(bit, reg)));
        self
    }

    /// `set u3, r`: sets bit `bit` of `reg`.
    fn set(&mut self, reg: GpRegister, bit: Bit) -> (ret: &mut Self)
        ensures
            ret.model() == old(self).model().emit(seq![Instruction::Prefixed(PrefixInstruction::SetBit(bit, reg))]),
            ret.spec_allocator() == old(self).spec_allocator(),
            ret.spec_condition() == old(self).spec_condition(),
            *final(self) == *final(ret),
    {
        self.push_instruction(Instruction::Prefixed(PrefixInstruction::SetBit(bit, reg)));
        self
    }

    /// A placeholder, to be rewritten before the stream is written out.
    fn meta(&mut self, meta: MetaInstruction) -> (ret: &mut Self)
        ensures
            ret.model() == old(self).model().emit(seq![Instruction::Meta(meta)]),
            ret.spec_allocator() == old(self).spec_allocator(),
            ret.spec_condition() == old(self).spec_condition(),
            *final(self) == *final(ret),
    {
        self.push_instruction(Instruction::Meta(meta));
        self
    }
}

/// Something that blocks can be appended to.
pub trait BlockAssembler: Assembler {
    /// Appends an empty basic block and returns it, to be filled.
    fn basic_block(&mut self) -> (ret: &mut BasicBlock)
        ensures
            ret@ == BasicModel::spec_new(),
            final(self).model() =~= old(self).model().push_block(BlockModel::Basic(final(ret)@)),
            final(self).spec_allocator() == old(self).spec_allocator(),
            final(self).spec_condition() == old(self).spec_condition(),
    ;

    /// Appends an empty loop block and returns it, to be filled.
    fn loop_block(&mut self, condition: LoopCondition) -> (ret: &mut LoopBlock)
        ensures
            ret.condition == condition,
            ret.inner@ == BasicModel::spec_new(),
            final(self).model() =~= old(self).model().push_block(BlockModel::Loop(final(ret)@)),
            final(self).spec_allocator() == old(self).spec_allocator(),
            final(self).spec_condition() == old(self).spec_condition(),
    ;
}

/// Something that gives out identifiers, each once.
pub trait Context: Assembler {
    /// The identifier that is given out next.
    fn next_id(&self) -> (r: IdInner)
        ensures
            r == self.model().next_id,
    ;

    /// The counter of identifiers, to be written.
    fn next_id_mut(&mut self) -> (r: &mut IdInner)
        ensures
            *r == old(self).model().next_id,
            final(self).model() == (BasicModel { next_id: *final(r), ..old(self).model() }),
            final(self).spec_allocator() == old(self).spec_allocator(),
            final(self).spec_condition() == old(self).spec_condition(),
    ;

    /// Gives out the next identifier.
    fn new_id_inner(&mut self) -> (r: IdInner)
        requires
            old(self).model().next_id < usize::MAX,
        ensures
            r == old(self).model().next_id,
            final(self).model() == old(self).model().with_next_id(),
            final(self).spec_allocator() == old(self).spec_allocator(),
            final(self).spec_condition() == old(self).spec_condition(),
    {
        let out = self.next_id();
        let counter = self.next_id_mut();
        *counter = out + 1;
        out
    }

    /// Gives out the next identifier.
    fn new_id(&mut self) -> (r: Id)
        requires
            old(self).model().next_id < usize::MAX,
        ensures
            r == Id::Assigned(old(self).model().next_id),
            final(self).model() == old(self).model().with_next_id(),
            final(self).spec_allocator() == old(self).spec_allocator(),
            final(self).spec_condition() == old(self).spec_condition(),
    {
        Id::Assigned(self.new_id_inner())
    }
}

/// A value that has a form as bytes, low byte first.
pub trait AsBuf {
    /// The bytes of the value, low byte first.
    spec fn spec_buf(&self) -> Seq<u8>;

    fn as_buf(&self) -> (r: Vec<u8>)
        ensures
            r@ == self.spec_buf(),
    ;
}

impl AsBuf for u8 {
    open spec fn spec_buf(&self) -> Seq<u8> {
        seq![*self]
    }

    fn as_buf(&self) -> (r: Vec<u8>) {
        let mut out = Vec::new();
        out.push(*self);
        out
    }
}

impl AsBuf for u16 {
    open spec fn spec_buf(&self) -> Seq<u8> {
        seq![spec_low_byte(*self), spec_high_byte(*self)]
    }

    fn as_buf(&self) -> (r: Vec<u8>) {
        let mut out = Vec::new();
        out.push(low_byte(*self));
        out.push(high_byte(*self));
        out
    }
}

/// An error type that can report an operand that is out of place.
pub trait ErrorTrait: Sized {
    spec fn spec_invalid_arg() -> Self;

    fn invalid_arg() -> (r: Self)
        ensures
            r == Self::spec_invalid_arg(),
    ;
}


/// Declaring a stored constant of `data`: the bytes get the next cells of ROM
/// and the block's next identifier. Fails with `OutOfMemory`, and changes
/// nothing, if they do not fit.
pub open spec fn spec_stored_const(m: BasicModel, a: AllocState, data: Seq<u8>) -> Result<
    StoredConstant,
    AssemblerError,
> {
    if data.len() > u16::MAX || !a.constants.spec_fits(data.len() as u16) {
        Err(AssemblerError::AllocError(ConstAllocError::OutOfMemory))
    } else {
        Ok(
            StoredConstant {
                id: Id::Assigned(m.next_id),
                addr: (a.constants.offset + a.constants.next) as u16,
                len: data.len() as u16,
            },
        )
    }
}

/// A constant that is declared gets an identifier that no constant of the
/// block has, and lies within the ROM arena.
pub proof fn lemma_stored_const_is_new(m: BasicModel, a: AllocState, data: Seq<u8>)
    requires
        m.next_id < usize::MAX,
        a.wf(),
    ensures
        m.spec_ids_wf() ==> spec_with_stored_const(m, a, data).spec_ids_wf(),
        spec_stored_const(m, a, data) matches Ok(constant) ==> a.constants.offset <= constant.addr
            && constant.addr + constant.len <= a.constants.offset + a.constants.len,
{
    if m.spec_ids_wf() && spec_stored_const(m, a, data) is Ok {
        let after = spec_with_stored_const(m, a, data);
        assert forall|i: int| 0 <= i < after.consts.len() implies ((
        #[trigger] after.consts[i]).0.id matches Id::Assigned(k) && k < after.next_id) by {
            if i < m.consts.len() {
                assert(after.consts[i] == m.consts[i]);
            }
        }
        assert forall|i: int, j: int| 0 <= i < j < after.consts.len() implies (
        #[trigger] after.consts[i]).0.id != (#[trigger] after.consts[j]).0.id by {
            assert(after.consts[i] == m.consts[i]);
            if j < m.consts.len() {
                assert(after.consts[j] == m.consts[j]);
            }
        }
    }
}

/// The block after a stored constant of `data` was declared in it.
pub open spec fn spec_with_stored_const(m: BasicModel, a: AllocState, data: Seq<u8>) -> BasicModel {
    match spec_stored_const(m, a, data) {
        Ok(constant) => m.with_next_id().push_const(constant, data),
        Err(_) => m,
    }
}

/// The allocator after a stored constant of `data` was declared.
pub open spec fn spec_alloc_stored_const(m: BasicModel, a: AllocState, data: Seq<u8>) -> AllocState {
    match spec_stored_const(m, a, data) {
        Ok(constant) => AllocState { constants: a.constants.spec_after(constant.len), ..a },
        Err(_) => a,
    }
}

/// Creating a variable of `len` bytes with the identifier `id` and setting it
/// to `value`: the variable gets the first free register or pair, and one `ld`
/// puts the value there.
pub open spec fn spec_init_var(a: AllocState, id: IdInner, len: u16, value: Constant) -> Selected<()> {
    spec_set_raw(
        a,
        RawVariable::Unallocated { len, id: Id::Assigned(id) },
        VarOrConst::Const(value),
    )
}

/// The variable that `spec_init_var` creates.
pub open spec fn spec_init_var_result(a: AllocState, id: IdInner, len: u16, value: Constant) -> Result<
    Variable,
    AssemblerError,
> {
    match spec_init_var(a, id, len, value).result {
        Ok(_) => Ok(spec_promoted_raw(a, Variable::Unallocated { len, id: Id::Assigned(id) })),
        Err(e) => Err(e),
    }
}

/// The instructions that switch the display on or off: the control register
/// is loaded, its bit 7 set or cleared, and the register stored.
pub open spec fn spec_lcd_code(on: bool) -> Seq<Instruction> {
    seq![
        Instruction::LdhToA(IoReg::Lcdc.spec_offset()),
        Instruction::Prefixed(
            if on {
                PrefixInstruction::SetBit(Bit::_7, GpRegister::A)
            } else {
                PrefixInstruction::Res(Bit::_7, GpRegister::A)
            },
        ),
        Instruction::LdhFromA(IoReg::Lcdc.spec_offset()),
    ]
}

/// The instructions that store the byte `value` at `addr`: through the
/// accumulator, whose value is kept.
pub open spec fn spec_store_byte(a: AllocState, addr: Addr, value: u8) -> Seq<Instruction> {
    spec_with_a(a.registers, seq![Instruction::LdR8Imm(GpRegister::A, value), spec_store_a(addr)])
}

/// The instructions that set a tile of a tile map: a variable of one byte is
/// created in the first free register, set to the tile's number, and stored in
/// the map's entry.
pub open spec fn spec_set_tile_code(a: AllocState, id: IdInner, dest: Addr, data: TileIdx) -> Seq<
    Instruction,
> {
    let reg = a.registers.spec_first_free()->Some_0;
    seq![Instruction::LdR8Imm(reg, data)] + spec_code_of(
        spec_reg_to_ind(
            a.registers.spec_with(reg, spec_fresh_slot(Id::Assigned(id))),
            RawRegVariable::R8 { reg, id: Id::Assigned(id) },
            dest,
        ),
    )
}

/// The registers while `hl` and `a` are taken for a primitive.
pub open spec fn spec_taken(registers: GpRegisters) -> GpRegisters {
    registers.spec_with_pair(
        RegisterPair::HL,
        spec_fresh_slot(Id::Unset),
        spec_fresh_slot(Id::Unset),
    ).spec_with(GpRegister::A, spec_fresh_slot(Id::Unset))
}

/// The eight bytes of four colours, each with its high byte first.
pub open spec fn spec_palette_bytes(colors: Seq<Color>) -> Seq<u8> {
    colors[0].spec_be_bytes() + colors[1].spec_be_bytes() + colors[2].spec_be_bytes()
        + colors[3].spec_be_bytes()
}

/// Why a palette cannot be set: its bytes do not fit into ROM, or no register
/// is free for the counter beside `hl` and `a`.
pub open spec fn spec_palette_error(a: AllocState) -> Option<AssemblerError> {
    if !a.constants.spec_fits(8) {
        Some(AssemblerError::AllocError(ConstAllocError::OutOfMemory))
    } else if spec_taken(a.registers).spec_first_free() is None {
        Some(AssemblerError::AllocError(ConstAllocError::OutOfRegisters))
    } else {
        None
    }
}

/// The block that sets a palette from the eight bytes at `addr`: `hl` points
/// to the bytes, the palette is selected with auto-increment, and a loop that
/// counts `counter` down from eight writes one byte each time round.
pub open spec fn spec_palette_block(addr: Addr, palette: CgbPalette, counter: GpRegister) -> BasicModel {
    BasicModel {
        next_id: 1,
        contents: seq![
            BlockModel::Raw(
                seq![
                    Instruction::LdR16Imm(RegisterPair::HL, addr),
                    Instruction::LdR8Imm(
                        GpRegister::A,
                        (PaletteSelector { autoincrement: true, palette }).spec_byte(),
                    ),
                    Instruction::LdhFromA(IoReg::Bcps.spec_offset()),
                    Instruction::LdR8Imm(counter, 8),
                ],
            ),
            BlockModel::Loop(
                LoopModel {
                    condition: LoopCondition::Countdown {
                        counter: RawVariable::Reg(
                            RawRegVariable::R8 { reg: counter, id: Id::Assigned(0) },
                        ),
                        end: 0,
                    },
                    inner: BasicModel {
                        next_id: 0,
                        contents: seq![
                            BlockModel::Raw(
                                seq![
                                    Instruction::LdAFromR16(IndirectPair::HLInc),
                                    Instruction::LdhFromA(IoReg::Bcpd.spec_offset()),
                                ],
                            ),
                        ],
                        consts: Seq::empty(),
                    },
                },
            ),
        ],
        consts: Seq::empty(),
    }
}

/// The block after a palette was set: the colours are a new constant of the
/// block, and the block that writes them is its last block.
pub open spec fn spec_palette_model(
    m: BasicModel,
    a: AllocState,
    palette: CgbPalette,
    colors: Seq<Color>,
) -> BasicModel {
    let bytes = spec_palette_bytes(colors);
    spec_with_stored_const(m, a, bytes).push_block(
        BlockModel::Basic(
            spec_palette_block(
                (a.constants.offset + a.constants.next) as u16,
                palette,
                spec_taken(a.registers).spec_first_free()->Some_0,
            ),
        ),
    )
}

/// The pair that holds the source pointer of a copy: the first pair that is
/// free beside `hl`.
pub open spec fn spec_copy_pointer(a: AllocState) -> Option<RegisterPair> {
    spec_taken(a.registers).spec_first_free_pair()
}

/// The register that counts the bytes of a copy down: the first that is free
/// beside `hl`, `a` and the pointer.
pub open spec fn spec_copy_counter(a: AllocState) -> Option<GpRegister> {
    spec_taken(a.registers).spec_alloc_pair().spec_first_free()
}

/// The register that counts the runs of 256 bytes of a long copy down: the
/// first that is free beside `hl`, `a`, the pointer and the counter of bytes.
pub open spec fn spec_copy_outer(a: AllocState) -> Option<GpRegister> {
    spec_taken(a.registers).spec_alloc_pair().spec_alloc().spec_first_free()
}

/// True if the registers that a copy of `len` bytes needs are free: a pair
/// for the pointer and a register for the counter of bytes, and for more than
/// 256 bytes one more register for the counter of runs.
pub open spec fn spec_copy_ready(a: AllocState, len: u16) -> bool {
    &&& spec_copy_pointer(a) is Some
    &&& spec_copy_counter(a) is Some
    &&& len > 256 ==> spec_copy_outer(a) is Some
}

/// What a copy emits before its loops: `hl` and `af` are pushed if they are
/// in use, `hl` is set to the destination, the pointer to the source, and the
/// counter of bytes to the bytes that do not fill a run of 256.
pub open spec fn spec_copy_prefix(a: AllocState, src: Addr, dest: Addr, len: u16) -> Seq<Instruction> {
    (if a.registers.spec_is_claimed(RegSelector::R16(RegisterPair::HL)) {
        seq![Instruction::Push(StackPair::HL)]
    } else {
        Seq::empty()
    }) + (if a.registers.spec_is_claimed(RegSelector::R8(GpRegister::A)) {
        seq![Instruction::Push(StackPair::AF)]
    } else {
        Seq::empty()
    }) + seq![
        Instruction::LdR16Imm(RegisterPair::HL, dest),
        Instruction::LdR16Imm(spec_copy_pointer(a)->Some_0, src),
        Instruction::LdR8Imm(spec_copy_counter(a)->Some_0, (len % 256) as u8),
    ]
}

/// A countdown of the register `reg` to zero.
pub open spec fn spec_countdown(reg: GpRegister) -> LoopCondition {
    LoopCondition::Countdown {
        counter: RawVariable::Reg(RawRegVariable::R8 { reg, id: Id::Unset }),
        end: 0,
    }
}

/// The body of the loop of a copy: a byte is loaded through the pointer,
/// stored through `hl`, which moves on, and the pointer is incremented.
pub open spec fn spec_copy_body(a: AllocState) -> Seq<Instruction> {
    seq![
        Instruction::LdAFromR16(IndirectPair::spec_from_pair(spec_copy_pointer(a)->Some_0)->Ok_0),
        Instruction::LdAToR16(IndirectPair::HLInc),
        Instruction::IncR16(spec_copy_pointer(a)->Some_0),
    ]
}

/// The loop that copies one byte each time round while the counter of bytes
/// is not zero. A counter that starts at zero makes it copy 256 bytes, and the
/// loop leaves the counter at zero.
pub open spec fn spec_copy_loop(a: AllocState) -> BlockModel {
    BlockModel::Loop(
        LoopModel {
            condition: spec_countdown(spec_copy_counter(a)->Some_0),
            inner: BasicModel::spec_new().emit(spec_copy_body(a)),
        },
    )
}

/// The loop that copies a run of 256 bytes each time round while the counter
/// of runs is not zero.
pub open spec fn spec_copy_runs(a: AllocState) -> BlockModel {
    BlockModel::Loop(
        LoopModel {
            condition: spec_countdown(spec_copy_outer(a)->Some_0),
            inner: BasicModel::spec_new().push_block(spec_copy_loop(a)),
        },
    )
}

/// What a copy emits after its loops: what was pushed is popped, last pushed
/// first.
pub open spec fn spec_copy_suffix(a: AllocState) -> Seq<Instruction> {
    (if a.registers.spec_is_claimed(RegSelector::R8(GpRegister::A)) {
        seq![Instruction::Pop(StackPair::AF)]
    } else {
        Seq::empty()
    }) + (if a.registers.spec_is_claimed(RegSelector::R16(RegisterPair::HL)) {
        seq![Instruction::Pop(StackPair::HL)]
    } else {
        Seq::empty()
    })
}

/// The block after `len` bytes were copied from `src` to `dest`. Nothing is
/// emitted for no bytes. Else one identifier is given out for the pointer, and
/// the block ends with the prefix, the loops and the suffix of the copy. Up to
/// 256 bytes are copied by one loop. More are copied by a loop for the bytes
/// that do not fill a run of 256, if there are any, and then by the loop of
/// runs, whose counter is set to the number of runs.
pub open spec fn spec_copy_model(m: BasicModel, a: AllocState, src: Addr, dest: Addr, len: u16) -> BasicModel {
    let prefix = spec_copy_prefix(a, src, dest, len);
    let runs = seq![Instruction::LdR8Imm(spec_copy_outer(a)->Some_0, (len / 256) as u8)];
    if len == 0 {
        m
    } else if len <= 256 {
        m.with_next_id().emit(prefix).push_block(spec_copy_loop(a)).append(spec_copy_suffix(a))
    } else if len % 256 != 0 {
        m.with_next_id().emit(prefix).push_block(spec_copy_loop(a)).emit(runs).push_block(
            spec_copy_runs(a),
        ).append(spec_copy_suffix(a))
    } else {
        m.with_next_id().emit(prefix + runs).push_block(spec_copy_runs(a)).append(
            spec_copy_suffix(a),
        )
    }
}

/// What a copy of `len` bytes returns: it succeeds if there is nothing to
/// copy or its registers are free, and fails with `OutOfRegisters` else.
pub open spec fn spec_copy_result(a: AllocState, len: u16) -> Result<(), AssemblerError> {
    if len == 0 || spec_copy_ready(a, len) {
        Ok(())
    } else {
        Err(AssemblerError::AllocError(ConstAllocError::OutOfRegisters))
    }
}

/// The primitives that are composed of the operations on variables and of
/// blocks.
pub trait MacroAssembler: Variabler {
    /// Declares a constant whose bytes are stored in ROM.
    fn new_stored_const(&mut self, alloc: &mut ConstAllocator, data: &[u8]) -> (r: Result<
        StoredConstant,
        AssemblerError,
    >)
        requires
            old(alloc)@.wf(),
            old(self).model().next_id < usize::MAX,
        ensures
            final(self).spec_condition() == old(self).spec_condition(),
            r == spec_stored_const(old(self).model(), old(alloc)@, data@),
            final(self).model() == spec_with_stored_const(old(self).model(), old(alloc)@, data@),
            final(alloc)@ == spec_alloc_stored_const(old(self).model(), old(alloc)@, data@),
            final(alloc)@.wf(),
            r matches Ok(constant) ==> old(alloc)@.constants.offset <= constant.addr
                && constant.addr + constant.len <= old(alloc)@.constants.offset + old(
                alloc,
            )@.constants.len,
            old(self).model().spec_ids_wf() ==> final(self).model().spec_ids_wf(),
    ;

    /// A constant of one byte that is written into the instruction.
    fn new_inline_const_r8(&mut self, data: u8) -> (r: Constant)
        ensures
            final(self).spec_condition() == old(self).spec_condition(),
            r == Constant::Inline8(data),
            final(self).model() == old(self).model(),
    ;

    /// A constant of two bytes that is written into the instruction.
    fn new_inline_const_r16(&mut self, data: u16) -> (r: Constant)
        ensures
            final(self).spec_condition() == old(self).spec_condition(),
            r == Constant::Inline16(data),
            final(self).model() == old(self).model(),
    ;

    /// Creates a variable of one byte and sets it to `value`.
    fn init_var8(&mut self, alloc: &mut ConstAllocator, value: u8) -> (r: Result<
        Variable,
        AssemblerError,
    >)
        requires
            old(alloc)@.wf(),
            old(self).model().next_id < usize::MAX,
        ensures
            final(self).spec_condition() == old(self).spec_condition(),
            r == spec_init_var_result(
                old(alloc)@,
                old(self).model().next_id,
                1,
                Constant::Inline8(value),
            ),
            final(alloc)@ == spec_init_var(
                old(alloc)@,
                old(self).model().next_id,
                1,
                Constant::Inline8(value),
            ).alloc,
            final(self).model() == old(self).model().with_next_id().append(
                spec_init_var(
                    old(alloc)@,
                    old(self).model().next_id,
                    1,
                    Constant::Inline8(value),
                ).code,
            ),
            final(alloc)@.wf(),
    ;

    /// Creates a variable of two bytes and sets it to `value`.
    fn init_var16(&mut self, alloc: &mut ConstAllocator, value: u16) -> (r: Result<
        Variable,
        AssemblerError,
    >)
        requires
            old(alloc)@.wf(),
            old(self).model().next_id < usize::MAX,
        ensures
            final(self).spec_condition() == old(self).spec_condition(),
            r == spec_init_var_result(
                old(alloc)@,
                old(self).model().next_id,
                2,
                Constant::Inline16(value),
            ),
            final(alloc)@ == spec_init_var(
                old(alloc)@,
                old(self).model().next_id,
                2,
                Constant::Inline16(value),
            ).alloc,
            final(self).model() == old(self).model().with_next_id().append(
                spec_init_var(
                    old(alloc)@,
                    old(self).model().next_id,
                    2,
                    Constant::Inline16(value),
                ).code,
            ),
            final(alloc)@.wf(),
    ;

    /// Stores the byte `value` at `addr`.
    fn store_byte(&mut self, alloc: &mut ConstAllocator, addr: Addr, value: u8)
        requires
            old(alloc)@.wf(),
        ensures
            final(self).spec_condition() == old(self).spec_condition(),
            final(self).model() == old(self).model().emit(spec_store_byte(old(alloc)@, addr, value)),
            final(alloc)@ == old(alloc)@,
    ;

    /// Stores the byte `value` in a register of the picture unit.
    fn set_ioreg(&mut self, alloc: &mut ConstAllocator, ioreg: IoReg, value: u8)
        requires
            old(alloc)@.wf(),
        ensures
            final(self).spec_condition() == old(self).spec_condition(),
            final(self).model() == old(self).model().emit(
                spec_store_byte(old(alloc)@, ioreg.spec_addr(), value),
            ),
            final(alloc)@ == old(alloc)@,
    ;

    /// Switches the display off at once, in a block of its own. The
    /// accumulator is taken for it and is free afterwards.
    ///
    /// This should only be called during vertical blanking.
    fn disable_lcd_now(&mut self, alloc: &mut ConstAllocator)
        ensures
            final(self).spec_condition() == old(self).spec_condition(),
            final(self).model() == old(self).model().push_block(
                BlockModel::Basic(BasicModel::spec_new().emit(spec_lcd_code(false))),
            ),
            final(alloc)@ == old(alloc)@.with_registers(
                old(alloc)@.registers.spec_with(GpRegister::A, None),
            ),
    ;

    /// Switches the display on at once, in a block of its own. The
    /// accumulator is taken for it and is free afterwards.
    fn enable_lcd_now(&mut self, alloc: &mut ConstAllocator)
        ensures
            final(self).spec_condition() == old(self).spec_condition(),
            final(self).model() == old(self).model().push_block(
                BlockModel::Basic(BasicModel::spec_new().emit(spec_lcd_code(true))),
            ),
            final(alloc)@ == old(alloc)@.with_registers(
                old(alloc)@.registers.spec_with(GpRegister::A, None),
            ),
    ;

    /// Sets the tile `tile` of a tile map to the tile number `data`. Fails
    /// with `OutOfRegisters`, and changes nothing, if no register is free.
    fn set_tile(
        &mut self,
        alloc: &mut ConstAllocator,
        tilemap: TilemapSelector,
        tile: TileIdx,
        data: TileIdx,
    ) -> (r: Result<(), AssemblerError>)
        requires
            old(alloc)@.wf(),
            old(self).model().next_id < usize::MAX,
        ensures
            final(self).spec_condition() == old(self).spec_condition(),
            r == (if old(alloc)@.registers.spec_first_free() is Some {
                Ok::<(), AssemblerError>(())
            } else {
                Err(AssemblerError::AllocError(ConstAllocError::OutOfRegisters))
            }),
            r is Ok ==> final(self).model() == old(self).model().with_next_id().emit(
                spec_set_tile_code(
                    old(alloc)@,
                    old(self).model().next_id,
                    (tilemap.spec_base() + tile) as u16,
                    data,
                ),
            ),
            r is Err ==> final(self).model() == old(self).model(),
            final(alloc)@ == old(alloc)@,
    ;

    /// Sets the four colours of a palette. The colours are stored as a
    /// constant, and a block of its own writes them to palette memory. `hl`
    /// and `a` are taken for it and are free afterwards. Fails, and changes
    /// nothing, if ROM is full or no register is free for the counter.
    fn set_palette(&mut self, alloc: &mut ConstAllocator, palette: CgbPalette, colors: [Color; 4]) -> (r:
        Result<(), AssemblerError>)
        requires
            old(alloc)@.wf(),
            old(self).model().next_id < usize::MAX,
        ensures
            final(self).spec_condition() == old(self).spec_condition(),
            r == match spec_palette_error(old(alloc)@) {
                Some(e) => Err::<(), AssemblerError>(e),
                None => Ok(()),
            },
            r is Ok ==> final(self).model() == spec_palette_model(
                old(self).model(),
                old(alloc)@,
                palette,
                colors@,
            ),
            r is Ok ==> final(alloc)@ == (AllocState {
                constants: old(alloc)@.constants.spec_after(8),
                registers: old(alloc)@.registers.spec_free(
                    RegSelector::R16(RegisterPair::HL),
                ).spec_free(RegSelector::R8(GpRegister::A)),
                ..old(alloc)@
            }),
            r is Err ==> final(self).model() == old(self).model() && final(alloc)@ == old(alloc)@,
            final(alloc)@.wf(),
    ;

    /// Copies `len` bytes from `src` to `dest` with loops that count
    /// registers down. `hl` and `a` are used, and what they held is kept on the
    /// stack. Fails with `OutOfRegisters`, and changes nothing, if no pair is
    /// free for the pointer or no register for a counter.
    fn copy(&mut self, alloc: &mut ConstAllocator, src: Addr, dest: Addr, len: u16) -> (r: Result<
        (),
        AssemblerError,
    >)
        requires
            old(alloc)@.wf(),
            old(self).model().next_id < usize::MAX,
        ensures
            final(self).spec_condition() == old(self).spec_condition(),
            r == spec_copy_result(old(alloc)@, len),
            r is Ok ==> final(self).model() == spec_copy_model(
                old(self).model(),
                old(alloc)@,
                src,
                dest,
                len,
            ),
            r is Err ==> final(self).model() == old(self).model(),
            final(alloc)@ == old(alloc)@,
    ;

    /// Writes a tile to video memory: the tile's bytes are stored as a
    /// constant, and a block of its own copies them to the tile's place. Fails,
    /// and changes nothing, if ROM is full or the registers of the copy are not
    /// free.
    fn write_tile_data(
        &mut self,
        alloc: &mut ConstAllocator,
        area: TiledataSelector,
        idx: TileIdx,
        data: &Tile,
    ) -> (r: Result<(), AssemblerError>)
        requires
            old(alloc)@.wf(),
            old(self).model().next_id < usize::MAX,
        ensures
            final(self).spec_condition() == old(self).spec_condition(),
            r == (if !old(alloc)@.constants.spec_fits(16) {
                Err::<(), AssemblerError>(AssemblerError::AllocError(ConstAllocError::OutOfMemory))
            } else if !spec_copy_ready(old(alloc)@, 16) {
                Err(AssemblerError::AllocError(ConstAllocError::OutOfRegisters))
            } else {
                Ok(())
            }),
            r is Ok ==> final(self).model() == spec_with_stored_const(
                old(self).model(),
                old(alloc)@,
                Tile::spec_bytes(data.pixel_data@),
            ).push_block(
                BlockModel::Basic(
                    spec_copy_model(
                        BasicModel::spec_new(),
                        old(alloc)@,
                        (old(alloc)@.constants.offset + old(alloc)@.constants.next) as u16,
                        area.spec_from_idx(idx),
                        16,
                    ),
                ),
            ),
            r is Ok ==> final(alloc)@ == (AllocState {
                constants: old(alloc)@.constants.spec_after(16),
                ..old(alloc)@
            }),
            r is Err ==> final(self).model() == old(self).model() && final(alloc)@ == old(alloc)@,
    ;

    /// Writes a tile map to video memory: a block of its own stores the map
    /// as a constant and copies it to the map's place. Fails, and changes
    /// nothing, if ROM is full or the registers of the copy are not free.
    fn set_tilemap(&mut self, alloc: &mut ConstAllocator, tilemap: TilemapSelector, data: &Tilemap) -> (r:
        Result<(), AssemblerError>)
        requires
            old(alloc)@.wf(),
        ensures
            final(self).spec_condition() == old(self).spec_condition(),
            r == (if !old(alloc)@.constants.spec_fits(1024) {
                Err::<(), AssemblerError>(AssemblerError::AllocError(ConstAllocError::OutOfMemory))
            } else if !spec_copy_ready(old(alloc)@, 1024) {
                Err(AssemblerError::AllocError(ConstAllocError::OutOfRegisters))
            } else {
                Ok(())
            }),
            r is Ok ==> final(self).model() == old(self).model().push_block(
                BlockModel::Basic(
                    spec_copy_model(
                        spec_with_stored_const(BasicModel::spec_new(), old(alloc)@, data.map@),
                        old(alloc)@,
                        (old(alloc)@.constants.offset + old(alloc)@.constants.next) as u16,
                        tilemap.spec_base(),
                        1024,
                    ),
                ),
            ),
            r is Ok ==> final(alloc)@ == (AllocState {
                constants: old(alloc)@.constants.spec_after(1024),
                ..old(alloc)@
            }),
            r is Err ==> final(self).model() == old(self).model() && final(alloc)@ == old(alloc)@,
    ;

    /// Takes the constants out of the block and out of the blocks inside it,
    /// and returns them with their bytes: the block's own first, then those of
    /// its blocks in order.
    fn gather_consts(&mut self) -> (r: Vec<(Constant, Vec<u8>)>)
        ensures
            final(self).spec_condition() == old(self).spec_condition(),
            spec_const_list(r@) == old(self).model().spec_consts(),
            final(self).model() == old(self).model().spec_drained(),
    ;

    /// Rewrites each placeholder in the block and in the blocks inside it into
    /// the instructions that its operation selects, now that its operands are in
    /// registers. Fails with `ArgumentError`, and changes nothing, if a
    /// placeholder cannot be rewritten.
    fn evaluate_meta(&mut self, alloc: &mut ConstAllocator) -> (r: Result<(), AssemblerError>)
        requires
            old(alloc)@.wf(),
        ensures
            final(self).spec_condition() == old(self).spec_condition(),
            final(alloc)@ == old(alloc)@,
            r == (if old(self).model().spec_ready(old(alloc)@.registers) {
                Ok::<(), AssemblerError>(())
            } else {
                Err(AssemblerError::ArgumentError)
            }),
            r is Ok ==> final(self).model() == old(self).model().spec_evaluated(
                old(alloc)@.registers,
            ),
            r is Err ==> final(self).model() == old(self).model(),
    ;
}

} // verus!
