//! The generator for the colour console: a root block with its allocator, and
//! the cartridge image that is made of them.
use vstd::prelude::*;

use crate::codegen::allocator::{
    spec_fresh_slot, Allocator, AllocGroup, AllocState, ConstAllocator, ConstAllocError,
    GpRegisters, RcGpRegister, RcRegisterPair,
};
use crate::codegen::assembler::{
    spec_alloc_stored_const, spec_copy_model, spec_copy_ready, spec_copy_result, spec_init_var,
    spec_init_var_result, spec_lcd_code, spec_palette_error, spec_palette_model,
    spec_set_tile_code, spec_store_byte, spec_stored_const, spec_with_stored_const, Assembler,
    BlockAssembler, Context, MacroAssembler,
};
use crate::codegen::block::basic_block::BasicBlock;
use crate::codegen::block::loop_block::{LoopBlock, LoopCondition};
use crate::codegen::block::raw_block::extend_vec;
use crate::codegen::block::{spec_const_list, spec_lowered_ok, BasicModel, BlockModel};
use crate::codegen::meta_instr::VarOrConst;
use crate::codegen::selection::{
    spec_crement_var, spec_jr_nz_var, spec_ld_a_from_var_ind, spec_ld_var_from_ind,
    spec_ld_var_to_ind, spec_load_var, spec_promoted_var, spec_set_var, spec_store_var,
};
use crate::codegen::variables::{
    Constant, Id, IdInner, MemoryVariable, RegSelector, RegVariable, StoredConstant, Variable,
    Variabler,
};
use crate::codegen::AssemblerError;
use crate::cpu::instructions::{Condition, Instruction};
use crate::cpu::{GpRegister, RegisterPair};
use crate::memory::{Addr, IoReg};
use crate::ppu::palettes::{CgbPalette, Color};
use crate::ppu::tiles::{Tile, TileIdx, Tilemap};
use crate::ppu::{TiledataSelector, TilemapSelector};

verus! {

/// The handlers of the interrupts. None is generated yet.
#[derive(Clone, Copy, Debug, PartialEq, Eq, Structural)]
pub struct InterruptHandlers {}

impl Default for InterruptHandlers {
    fn default() -> (r: Self) {
        InterruptHandlers {  }
    }
}

/// Where the bytes of the CGB flag lie in the image.
pub const CGB_FLAG_OFFSET: u64 = 0x143;

/// The value of the CGB flag that turns the colour features on.
pub const CGB_FLAG: u8 = 0x80;

/// Where execution starts.
pub const ENTRY_OFFSET: u64 = 0x100;

/// Where the main instruction stream starts.
pub const MAIN_OFFSET: u16 = 0x150;

/// Where the ROM arena for constants starts.
pub const CONSTANTS_OFFSET: u16 = 0x0800;

/// Where the RAM arena for variables starts.
pub const VARIABLES_OFFSET: u16 = 0xc000;

/// A generator: the root block of a program and the allocator that the whole
/// block tree shares.
#[derive(Debug)]
pub struct Cgb {
    inner: BasicBlock,
    allocator: ConstAllocator,
    palettes: [[Color; 4]; 8],
    tilemap: TilemapSelector,
    handlers: InterruptHandlers,
}

/// The bytes of the image that are written, as runs of bytes with the offset
/// of each: the CGB flag, the jump from the entry point to the main stream,
/// each stored constant at its address, and the main stream.
pub open spec fn spec_image(consts: Seq<(Constant, Seq<u8>)>, code: Seq<u8>) -> Seq<(u64, Seq<u8>)> {
    seq![
        (CGB_FLAG_OFFSET, seq![CGB_FLAG]),
        (
            ENTRY_OFFSET,
            Instruction::Jp(Condition::Always, MAIN_OFFSET).spec_encode()->Ok_0,
        ),
    ] + spec_const_segments(consts, consts.len()) + seq![(MAIN_OFFSET as u64, code)]
}

/// The runs of bytes of the first `n` constants: for each stored constant its
/// bytes at its address. An immediate has no bytes of its own.
pub open spec fn spec_const_segments(consts: Seq<(Constant, Seq<u8>)>, n: nat) -> Seq<
    (u64, Seq<u8>),
>
    decreases n,
{
    if n == 0 {
        Seq::empty()
    } else {
        spec_const_segments(consts, (n - 1) as nat) + (match consts[n - 1].0 {
            Constant::Addr(constant) => seq![(constant.addr as u64, consts[n - 1].1)],
            _ => Seq::empty(),
        })
    }
}

/// The runs of bytes of a list, each with its bytes as a sequence.
pub open spec fn spec_segment_list(list: Seq<(u64, Vec<u8>)>) -> Seq<(u64, Seq<u8>)> {
    Seq::new(list.len(), |i: int| (list[i].0, list[i].1@))
}

impl Cgb {
    /// The generator's allocator is well-formed.
    pub open spec fn wf(&self) -> bool {
        self.alloc_state().wf()
    }

    /// What the generator's allocator holds.
    pub open spec fn alloc_state(&self) -> AllocState {
        self.spec_allocator()->Some_0
    }

    /// The state of the allocator of a new generator: 2 KiB of ROM from
    /// `0x0800` for constants, 4 KiB of RAM from `0xC000` for variables, and no
    /// register taken.
    pub open spec fn spec_new_alloc() -> AllocState {
        AllocState {
            constants: AllocGroup { next: 0, offset: CONSTANTS_OFFSET, len: 0x0800, used: 0 },
            variables: AllocGroup { next: 0, offset: VARIABLES_OFFSET, len: 0x1000, used: 0 },
            registers: GpRegisters::spec_empty(),
            spilled: Seq::empty(),
        }
    }

    /// A generator with an empty program.
    pub fn new() -> (r: Self)
        ensures
            r.model() == BasicModel::spec_new(),
            r.alloc_state() == Cgb::spec_new_alloc(),
            r.wf(),
    {
        let mut allocator = ConstAllocator::default();
        allocator.constants.offset = CONSTANTS_OFFSET;
        allocator.variables.offset = VARIABLES_OFFSET;
        let inner: BasicBlock = BasicBlock::new();
        Cgb {
            inner,
            allocator,
            palettes: [[Color::white(); 4]; 8],
            tilemap: TilemapSelector::Tilemap9800,
            handlers: InterruptHandlers::default(),
        }
    }

    /// True if the generator's allocator is well-formed.
    pub fn is_wf(&self) -> (r: bool)
        ensures
            r == self.wf(),
    {
        self.allocator.is_wf()
    }

    /// The generator's allocator.
    pub fn allocator(&self) -> (r: &ConstAllocator)
        ensures
            r@ == self.alloc_state(),
            self.wf() ==> r@.wf(),
    {
        &self.allocator
    }

    /// The root block.
    pub fn root(&self) -> (r: &BasicBlock)
        ensures
            r@ == self.model(),
    {
        &self.inner
    }
}

impl Assembler for Cgb {
    /// A generator is seen as its root block.
    closed spec fn model(&self) -> BasicModel {
        self.inner@
    }

    /// A generator owns the allocator of its block tree.
    closed spec fn spec_allocator(&self) -> Option<AllocState> {
        Some(self.allocator@)
    }

    open spec fn spec_condition(&self) -> Option<LoopCondition> {
        None
    }

    fn push_instruction(&mut self, instruction: Instruction) {
        self.inner.push_instruction(instruction)
    }

    fn push_buf(&mut self, buf: &[Instruction]) {
        self.inner.push_buf(buf)
    }

    fn len(&self) -> (r: usize) {
        self.inner.len()
    }
}


impl BlockAssembler for Cgb {
    fn basic_block(&mut self) -> (ret: &mut BasicBlock) {
        self.inner.basic_block()
    }

    fn loop_block(&mut self, condition: LoopCondition) -> (ret: &mut LoopBlock) {
        self.inner.loop_block(condition)
    }
}

impl Context for Cgb {
    fn next_id(&self) -> (r: IdInner) {
        self.inner.next_id()
    }

    fn next_id_mut(&mut self) -> (r: &mut IdInner) {
        self.inner.next_id_mut()
    }
}

impl Cgb {
    /// A new variable of `len` bytes, without a home.
    pub fn new_var(&mut self, len: u16) -> (var: Variable)
        requires
            old(self).model().next_id < usize::MAX,
        ensures
            var == (Variable::Unallocated { len, id: Id::Assigned(old(self).model().next_id) }),
            final(self).model() == old(self).model().with_next_id(),
            final(self).alloc_state() == old(self).alloc_state(),
            final(self).wf() == old(self).wf(),
    {
        self.inner.new_var(len)
    }

    /// Makes `var` available in registers and returns where it is.
    pub fn load_var(&mut self, var: &Variable) -> (r: Result<RegVariable, AssemblerError>)
        requires
            old(self).wf(),
            var.spec_raw().spec_wf(),
        ensures
            r == spec_load_var(old(self).alloc_state(), *var).result,
            final(self).alloc_state() == spec_load_var(old(self).alloc_state(), *var).alloc,
            final(self).model() == old(self).model().append(spec_load_var(old(self).alloc_state(), *var).code),
            final(self).wf(),
    {
        self.inner.load_var(&mut self.allocator, var)
    }

    /// Gives `var` a home in memory and returns it.
    pub fn store_var(&mut self, var: &Variable) -> (r: Result<MemoryVariable, AssemblerError>)
        requires
            old(self).wf(),
        ensures
            r == spec_store_var(old(self).alloc_state(), *var).result,
            final(self).alloc_state() == spec_store_var(old(self).alloc_state(), *var).alloc,
            final(self).model() == old(self).model().append(spec_store_var(old(self).alloc_state(), *var).code),
            final(self).wf(),
    {
        self.inner.store_var(&mut self.allocator, var)
    }

    /// Stores the value of `var` at the address `dest`.
    pub fn ld_var_to_ind(&mut self, var: &Variable, dest: Addr) -> (r: Result<(), AssemblerError>)
        requires
            old(self).wf(),
            var.spec_raw().spec_wf(),
            var.spec_raw().spec_len() == 2 ==> dest < u16::MAX,
        ensures
            r == spec_ld_var_to_ind(old(self).alloc_state(), *var, dest).result,
            final(self).alloc_state() == spec_ld_var_to_ind(old(self).alloc_state(), *var, dest).alloc,
            final(self).model() == old(self).model().append(spec_ld_var_to_ind(old(self).alloc_state(), *var, dest).code),
            final(self).wf(),
    {
        self.inner.ld_var_to_ind(&mut self.allocator, var, dest)
    }

    /// Loads the value of `var` from the address `src`.
    pub fn ld_var_from_ind(&mut self, var: &Variable, src: Addr) -> (r: Result<(), AssemblerError>)
        requires
            old(self).wf(),
            var.spec_raw().spec_wf(),
            var.spec_raw().spec_len() == 2 ==> src < u16::MAX,
        ensures
            r == spec_ld_var_from_ind(old(self).alloc_state(), *var, src).result,
            final(self).alloc_state() == spec_ld_var_from_ind(old(self).alloc_state(), *var, src).alloc,
            final(self).model() == old(self).model().append(spec_ld_var_from_ind(old(self).alloc_state(), *var, src).code),
            final(self).wf(),
    {
        self.inner.ld_var_from_ind(&mut self.allocator, var, src)
    }

    /// Decrements `var`.
    pub fn dec_var(&mut self, var: &Variable) -> (r: Result<(), AssemblerError>)
        requires
            old(self).wf(),
            var.spec_raw().spec_wf(),
        ensures
            r == spec_crement_var(old(self).alloc_state(), *var, false).result,
            final(self).alloc_state() == spec_crement_var(old(self).alloc_state(), *var, false).alloc,
            final(self).model() == old(self).model().append(spec_crement_var(old(self).alloc_state(), *var, false).code),
            final(self).wf(),
    {
        self.inner.dec_var(&mut self.allocator, var)
    }

    /// Increments `var`.
    pub fn inc_var(&mut self, var: &Variable) -> (r: Result<(), AssemblerError>)
        requires
            old(self).wf(),
            var.spec_raw().spec_wf(),
        ensures
            r == spec_crement_var(old(self).alloc_state(), *var, true).result,
            final(self).alloc_state() == spec_crement_var(old(self).alloc_state(), *var, true).alloc,
            final(self).model() == old(self).model().append(spec_crement_var(old(self).alloc_state(), *var, true).code),
            final(self).wf(),
    {
        self.inner.inc_var(&mut self.allocator, var)
    }

    /// Loads the byte that the value of `var` points to into `a`.
    pub fn ld_a_from_var_ind(&mut self, var: &Variable) -> (r: Result<(), AssemblerError>)
        requires
            old(self).wf(),
            var.spec_raw().spec_wf(),
        ensures
            r == spec_ld_a_from_var_ind(old(self).alloc_state(), *var).result,
            final(self).alloc_state() == spec_ld_a_from_var_ind(old(self).alloc_state(), *var).alloc,
            final(self).model() == old(self).model().append(spec_ld_a_from_var_ind(old(self).alloc_state(), *var).code),
            final(self).wf(),
    {
        self.inner.ld_a_from_var_ind(&mut self.allocator, var)
    }

    /// Jumps by `imm` bytes if `var` is not zero.
    pub fn jr_nz_var(&mut self, var: &Variable, imm: i8) -> (r: Result<(), AssemblerError>)
        requires
            old(self).wf(),
            var.spec_raw().spec_wf(),
        ensures
            r == spec_jr_nz_var(old(self).alloc_state(), *var, imm).result,
            final(self).alloc_state() == spec_jr_nz_var(old(self).alloc_state(), *var, imm).alloc,
            final(self).model() == old(self).model().append(spec_jr_nz_var(old(self).alloc_state(), *var, imm).code),
            final(self).wf(),
    {
        self.inner.jr_nz_var(&mut self.allocator, var, imm)
    }

    /// Sets `var` to `value`. A variable without a register is given one.
    pub fn set_var(&mut self, var: &mut Variable, value: &VarOrConst) -> (r: Result<(), AssemblerError>)
        requires
            old(self).wf(),
            value matches VarOrConst::Var(src) ==> src.spec_wf(),
        ensures
            r == spec_set_var(old(self).alloc_state(), *old(var), *value).result,
            final(self).alloc_state() == spec_set_var(old(self).alloc_state(), *old(var), *value).alloc,
            final(self).model() == old(self).model().append(
                spec_set_var(old(self).alloc_state(), *old(var), *value).code,
            ),
            *final(var) == spec_promoted_var(old(self).alloc_state(), *old(var), *value),
            final(self).wf(),
    {
        self.inner.set_var(&mut self.allocator, var, value)
    }

    /// Declares a constant whose bytes are stored in ROM.
    pub fn new_stored_const(&mut self, data: &[u8]) -> (r: Result<StoredConstant, AssemblerError>)
        requires
            old(self).wf(),
            old(self).model().next_id < usize::MAX,
        ensures
            r == spec_stored_const(old(self).model(), old(self).alloc_state(), data@),
            final(self).model() == spec_with_stored_const(old(self).model(), old(self).alloc_state(), data@),
            final(self).alloc_state() == spec_alloc_stored_const(old(self).model(), old(self).alloc_state(), data@),
            final(self).wf(),
            old(self).model().spec_ids_wf() ==> final(self).model().spec_ids_wf(),
    {
        self.inner.new_stored_const(&mut self.allocator, data)
    }

    /// A constant of one byte that is written into the instruction.
    pub fn new_inline_const_r8(&mut self, data: u8) -> (r: Constant)
        ensures
            r == Constant::Inline8(data),
            final(self).model() == old(self).model(),
            final(self).alloc_state() == old(self).alloc_state(),
            final(self).wf() == old(self).wf(),
    {
        self.inner.new_inline_const_r8(data)
    }

    /// A constant of two bytes that is written into the instruction.
    pub fn new_inline_const_r16(&mut self, data: u16) -> (r: Constant)
        ensures
            r == Constant::Inline16(data),
            final(self).model() == old(self).model(),
            final(self).alloc_state() == old(self).alloc_state(),
            final(self).wf() == old(self).wf(),
    {
        self.inner.new_inline_const_r16(data)
    }

    /// Creates a variable of one byte and sets it to `value`.
    pub fn init_var8(&mut self, value: u8) -> (r: Result<Variable, AssemblerError>)
        requires
            old(self).wf(),
            old(self).model().next_id < usize::MAX,
        ensures
            r == spec_init_var_result(old(self).alloc_state(), old(self).model().next_id, 1, Constant::Inline8(value)),
            final(self).alloc_state() == spec_init_var(
                old(self).alloc_state(),
                old(self).model().next_id,
                1,
                Constant::Inline8(value),
            ).alloc,
            final(self).model() == old(self).model().with_next_id().append(
                spec_init_var(old(self).alloc_state(), old(self).model().next_id, 1, Constant::Inline8(value)).code,
            ),
            final(self).wf(),
    {
        self.inner.init_var8(&mut self.allocator, value)
    }

    /// Creates a variable of two bytes and sets it to `value`.
    pub fn init_var16(&mut self, value: u16) -> (r: Result<Variable, AssemblerError>)
        requires
            old(self).wf(),
            old(self).model().next_id < usize::MAX,
        ensures
            r == spec_init_var_result(old(self).alloc_state(), old(self).model().next_id, 2, Constant::Inline16(value)),
            final(self).alloc_state() == spec_init_var(
                old(self).alloc_state(),
                old(self).model().next_id,
                2,
                Constant::Inline16(value),
            ).alloc,
            final(self).model() == old(self).model().with_next_id().append(
                spec_init_var(old(self).alloc_state(), old(self).model().next_id, 2, Constant::Inline16(value)).code,
            ),
            final(self).wf(),
    {
        self.inner.init_var16(&mut self.allocator, value)
    }

    /// Stores the byte `value` at `addr`.
    pub fn store_byte(&mut self, addr: Addr, value: u8)
        requires
            old(self).wf(),
        ensures
            final(self).model() == old(self).model().emit(spec_store_byte(old(self).alloc_state(), addr, value)),
            final(self).alloc_state() == old(self).alloc_state(),
            final(self).wf(),
    {
        self.inner.store_byte(&mut self.allocator, addr, value)
    }

    /// Stores the byte `value` in a register of the picture unit.
    pub fn set_ioreg(&mut self, ioreg: IoReg, value: u8)
        requires
            old(self).wf(),
        ensures
            final(self).model() == old(self).model().emit(
                spec_store_byte(old(self).alloc_state(), ioreg.spec_addr(), value),
            ),
            final(self).alloc_state() == old(self).alloc_state(),
            final(self).wf(),
    {
        self.inner.set_ioreg(&mut self.allocator, ioreg, value)
    }

    /// Switches the display off at once, in a block of its own. The
    /// accumulator is taken for it and is free afterwards.
    ///
    /// This should only be called during vertical blanking.
    pub fn disable_lcd_now(&mut self)
        requires
            old(self).wf(),
        ensures
            final(self).model() == old(self).model().push_block(
                BlockModel::Basic(BasicModel::spec_new().emit(spec_lcd_code(false))),
            ),
            final(self).alloc_state() == old(self).alloc_state().with_registers(
                old(self).alloc_state().registers.spec_with(GpRegister::A, None),
            ),
            final(self).wf(),
    {
        self.inner.disable_lcd_now(&mut self.allocator)
    }

    /// Switches the display on at once, in a block of its own. The
    /// accumulator is taken for it and is free afterwards.
    pub fn enable_lcd_now(&mut self)
        requires
            old(self).wf(),
        ensures
            final(self).model() == old(self).model().push_block(
                BlockModel::Basic(BasicModel::spec_new().emit(spec_lcd_code(true))),
            ),
            final(self).alloc_state() == old(self).alloc_state().with_registers(
                old(self).alloc_state().registers.spec_with(GpRegister::A, None),
            ),
            final(self).wf(),
    {
        self.inner.enable_lcd_now(&mut self.allocator)
    }

    /// Sets the tile `tile` of a tile map to the tile number `data`. Fails
    /// with `OutOfRegisters`, and changes nothing, if no register is free.
    pub fn set_tile(&mut self, tilemap: TilemapSelector, tile: TileIdx, data: TileIdx) -> (r: Result<
        (),
        AssemblerError,
    >)
        requires
            old(self).wf(),
            old(self).model().next_id < usize::MAX,
        ensures
            r == (if old(self).alloc_state().registers.spec_first_free() is Some {
                Ok::<(), AssemblerError>(())
            } else {
                Err(AssemblerError::AllocError(ConstAllocError::OutOfRegisters))
            }),
            r is Ok ==> final(self).model() == old(self).model().with_next_id().emit(
                spec_set_tile_code(old(self).alloc_state(), old(self).model().next_id, (tilemap.spec_base() + tile) as u16, data),
            ),
            r is Err ==> final(self).model() == old(self).model(),
            final(self).alloc_state() == old(self).alloc_state(),
            final(self).wf(),
    {
        self.inner.set_tile(&mut self.allocator, tilemap, tile, data)
    }

    /// Sets the four colours of a palette. The colours are stored as a
    /// constant, and a block of its own writes them to palette memory. `hl`
    /// and `a` are taken for it and are free afterwards. Fails, and changes
    /// nothing, if ROM is full or no register is free for the counter.
    pub fn set_palette(&mut self, palette: CgbPalette, colors: [Color; 4]) -> (r: Result<
        (),
        AssemblerError,
    >)
        requires
            old(self).wf(),
            old(self).model().next_id < usize::MAX,
        ensures
            r == match spec_palette_error(old(self).alloc_state()) {
                Some(e) => Err::<(), AssemblerError>(e),
                None => Ok(()),
            },
            r is Ok ==> final(self).model() == spec_palette_model(old(self).model(), old(self).alloc_state(), palette, colors@),
            r is Ok ==> final(self).alloc_state() == (AllocState {
                constants: old(self).alloc_state().constants.spec_after(8),
                registers: old(self).alloc_state().registers.spec_free(RegSelector::R16(RegisterPair::HL)).spec_free(
                    RegSelector::R8(GpRegister::A),
                ),
                ..old(self).alloc_state()
            }),
            r is Err ==> final(self).model() == old(self).model() && final(self).alloc_state()
                == old(self).alloc_state(),
            final(self).wf(),
    {
        self.inner.set_palette(&mut self.allocator, palette, colors)
    }

    /// Copies `len` bytes from `src` to `dest` with loops that count
    /// registers down. `hl` and `a` are used, and what they held is kept on the
    /// stack. Fails with `OutOfRegisters`, and changes nothing, if no pair is
    /// free for the pointer or no register for a counter.
    pub fn copy(&mut self, src: Addr, dest: Addr, len: u16) -> (r: Result<(), AssemblerError>)
        requires
            old(self).wf(),
            old(self).model().next_id < usize::MAX,
        ensures
            r == spec_copy_result(old(self).alloc_state(), len),
            r is Ok ==> final(self).model() == spec_copy_model(old(self).model(), old(self).alloc_state(), src, dest, len),
            r is Err ==> final(self).model() == old(self).model(),
            final(self).alloc_state() == old(self).alloc_state(),
            final(self).wf(),
    {
        self.inner.copy(&mut self.allocator, src, dest, len)
    }

    /// Writes a tile to video memory: the tile's bytes are stored as a
    /// constant, and a block of its own copies them to the tile's place. Fails,
    /// and changes nothing, if ROM is full or the registers of the copy are not
    /// free.
    pub fn write_tile_data(&mut self, area: TiledataSelector, idx: TileIdx, data: &Tile) -> (r: Result<
        (),
        AssemblerError,
    >)
        requires
            old(self).wf(),
            old(self).model().next_id < usize::MAX,
        ensures
            r == (if !old(self).alloc_state().constants.spec_fits(16) {
                Err::<(), AssemblerError>(AssemblerError::AllocError(ConstAllocError::OutOfMemory))
            } else if !spec_copy_ready(old(self).alloc_state(), 16) {
                Err(AssemblerError::AllocError(ConstAllocError::OutOfRegisters))
            } else {
                Ok(())
            }),
            r is Ok ==> final(self).model() == spec_with_stored_const(
                old(self).model(),
                old(self).alloc_state(),
                Tile::spec_bytes(data.pixel_data@),
            ).push_block(
                BlockModel::Basic(
                    spec_copy_model(
                        BasicModel::spec_new(),
                        old(self).alloc_state(),
                        (old(self).alloc_state().constants.offset + old(self).alloc_state().constants.next) as u16,
                        area.spec_from_idx(idx),
                        16,
                    ),
                ),
            ),
            r is Ok ==> final(self).alloc_state() == (AllocState {
                constants: old(self).alloc_state().constants.spec_after(16),
                ..old(self).alloc_state()
            }),
            r is Err ==> final(self).model() == old(self).model() && final(self).alloc_state()
                == old(self).alloc_state(),
            final(self).wf(),
    {
        self.inner.write_tile_data(&mut self.allocator, area, idx, data)
    }

    /// Writes a tile map to video memory: a block of its own stores the map
    /// as a constant and copies it to the map's place. Fails, and changes
    /// nothing, if ROM is full or the registers of the copy are not free.
    pub fn set_tilemap(&mut self, tilemap: TilemapSelector, data: &Tilemap) -> (r: Result<
        (),
        AssemblerError,
    >)
        requires
            old(self).wf(),
        ensures
            r == (if !old(self).alloc_state().constants.spec_fits(1024) {
                Err::<(), AssemblerError>(AssemblerError::AllocError(ConstAllocError::OutOfMemory))
            } else if !spec_copy_ready(old(self).alloc_state(), 1024) {
                Err(AssemblerError::AllocError(ConstAllocError::OutOfRegisters))
            } else {
                Ok(())
            }),
            r is Ok ==> final(self).model() == old(self).model().push_block(
                BlockModel::Basic(
                    spec_copy_model(
                        spec_with_stored_const(BasicModel::spec_new(), old(self).alloc_state(), data.map@),
                        old(self).alloc_state(),
                        (old(self).alloc_state().constants.offset + old(self).alloc_state().constants.next) as u16,
                        tilemap.spec_base(),
                        1024,
                    ),
                ),
            ),
            r is Ok ==> final(self).alloc_state() == (AllocState {
                constants: old(self).alloc_state().constants.spec_after(1024),
                ..old(self).alloc_state()
            }),
            r is Err ==> final(self).model() == old(self).model() && final(self).alloc_state()
                == old(self).alloc_state(),
            final(self).wf(),
    {
        self.inner.set_tilemap(&mut self.allocator, tilemap, data)
    }

    /// Takes the constants out of the program and returns them with their
    /// bytes.
    pub fn gather_consts(&mut self) -> (r: Vec<(Constant, Vec<u8>)>)
        ensures
            spec_const_list(r@) == old(self).model().spec_consts(),
            final(self).model() == old(self).model().spec_drained(),
            final(self).alloc_state() == old(self).alloc_state(),
            final(self).wf() == old(self).wf(),
    {
        self.inner.gather_consts()
    }

    /// Rewrites each placeholder of the program into the instructions that
    /// its operation selects. Fails with `ArgumentError`, and changes nothing,
    /// if a placeholder cannot be rewritten.
    pub fn evaluate_meta(&mut self) -> (r: Result<(), AssemblerError>)
        requires
            old(self).wf(),
        ensures
            r == (if old(self).model().spec_ready(old(self).alloc_state().registers) {
                Ok::<(), AssemblerError>(())
            } else {
                Err(AssemblerError::ArgumentError)
            }),
            r is Ok ==> final(self).model() == old(self).model().spec_evaluated(old(self).alloc_state().registers),
            r is Err ==> final(self).model() == old(self).model(),
            final(self).alloc_state() == old(self).alloc_state(),
            final(self).wf(),
    {
        self.inner.evaluate_meta(&mut self.allocator)
    }

    /// Hands out the first free register, with one reference.
    pub fn alloc_reg(&mut self) -> (r: Result<RcGpRegister, ConstAllocError>)
        ensures
            final(self).alloc_state() == old(self).alloc_state().with_registers(old(self).alloc_state().registers.spec_alloc()),
            r == match old(self).alloc_state().registers.spec_first_free() {
                Some(reg) => Ok::<RcGpRegister, ConstAllocError>(RcGpRegister { inner: reg }),
                None => Err(ConstAllocError::OutOfRegisters),
            },
            final(self).model() == old(self).model(),
            old(self).wf() ==> final(self).wf(),
    {
        self.allocator.alloc_reg()
    }

    /// Hands out the first pair whose halves are both free, with one
    /// reference.
    pub fn alloc_reg_pair(&mut self) -> (r: Result<RcRegisterPair, ConstAllocError>)
        ensures
            final(self).alloc_state() == old(self).alloc_state().with_registers(old(self).alloc_state().registers.spec_alloc_pair()),
            r == match old(self).alloc_state().registers.spec_first_free_pair() {
                Some(pair) => Ok::<RcRegisterPair, ConstAllocError>(RcRegisterPair { inner: pair }),
                None => Err(ConstAllocError::OutOfRegisters),
            },
            final(self).model() == old(self).model(),
            old(self).wf() ==> final(self).wf(),
    {
        self.allocator.alloc_reg_pair()
    }

    /// Frees a register or a pair, whatever its count.
    pub fn release_reg(&mut self, reg: RegSelector)
        ensures
            final(self).alloc_state() == old(self).alloc_state().with_registers(old(self).alloc_state().registers.spec_free(reg)),
            final(self).model() == old(self).model(),
            old(self).wf() ==> final(self).wf(),
    {
        self.allocator.registers.free(reg);
    }

    /// Claims a specific register for the given ID.
    pub fn claim_reg(&mut self, reg: GpRegister, id: Id) -> (r: RcGpRegister)
        ensures
            r.inner == reg,
            final(self).alloc_state() == old(self).alloc_state().with_registers(
                old(self).alloc_state().registers.spec_with(reg, spec_fresh_slot(id)),
            ),
            final(self).model() == old(self).model(),
            old(self).wf() ==> final(self).wf(),
    {
        self.allocator.claim_reg(reg, id)
    }

    /// Claims a specific register pair for the given ID.
    pub fn claim_reg_pair(&mut self, reg: RegisterPair, id: Id) -> (r: RcRegisterPair)
        ensures
            r.inner == reg,
            final(self).alloc_state() == old(self).alloc_state().with_registers(
                old(self).alloc_state().registers.spec_with_pair(reg, spec_fresh_slot(id), spec_fresh_slot(id)),
            ),
            final(self).model() == old(self).model(),
            old(self).wf() ==> final(self).wf(),
    {
        self.allocator.claim_reg_pair(reg, id)
    }

    /// Returns true if the selected register is taken.
    pub fn reg_is_used(&self, reg: RegSelector) -> (r: bool)
        ensures
            r == self.alloc_state().registers.spec_is_claimed(reg),
    {
        self.allocator.reg_is_used(reg)
    }

    /// Gives out `len` bytes of ROM.
    pub fn alloc_const(&mut self, len: u16) -> (r: Result<Addr, ConstAllocError>)
        requires
            old(self).wf(),
        ensures
            r == old(self).alloc_state().constants.spec_result(len),
            final(self).alloc_state() == (AllocState {
                constants: old(self).alloc_state().constants.spec_after(len),
                ..old(self).alloc_state()
            }),
            final(self).model() == old(self).model(),
            final(self).wf(),
    {
        self.allocator.alloc_const(len)
    }

    /// Gives out `len` bytes of RAM.
    pub fn alloc_var(&mut self, len: u16) -> (r: Result<Addr, ConstAllocError>)
        requires
            old(self).wf(),
        ensures
            r == old(self).alloc_state().variables.spec_result(len),
            final(self).alloc_state() == (AllocState {
                variables: old(self).alloc_state().variables.spec_after(len),
                ..old(self).alloc_state()
            }),
            final(self).model() == old(self).model(),
            final(self).wf(),
    {
        self.allocator.alloc_var(len)
    }

    /// Gives a variable up. Its memory stays given out; a counted register
    /// gets its reference back, an uncounted one is freed.
    pub fn dealloc_var(&mut self, var: Variable) -> (r: Result<(), ConstAllocError>)
        requires
            old(self).wf(),
        ensures
            r is Ok,
            final(self).alloc_state() == old(self).alloc_state().spec_dealloc_var(var),
            final(self).model() == old(self).model(),
            final(self).wf(),
    {
        self.allocator.dealloc_var(var)
    }

    /// Lowers the program to bytes, or returns everything that could not be
    /// written out.
    pub fn encode(&mut self) -> (r: Result<Vec<u8>, Vec<AssemblerError>>)
        requires
            old(self).wf(),
        ensures
            spec_lowered_ok(old(self).model().spec_lower(old(self).alloc_state()), r),
            final(self).alloc_state() == old(self).model().spec_lower(old(self).alloc_state()).alloc,
            final(self).model() == old(self).model(),
            final(self).wf(),
    {
        self.inner.encode(&mut self.allocator)
    }

    /// Makes the cartridge image of the program: the runs of bytes that are
    /// to be written, each with its offset, in the order in which they are
    /// written. The program is lowered first; if something in it cannot be
    /// written out, everything that cannot is returned and there is no image.
    pub fn image(self) -> (r: Result<Vec<(u64, Vec<u8>)>, Vec<AssemblerError>>)
        requires
            self.wf(),
        ensures
            r matches Ok(segments) ==> self.model().spec_lower(self.alloc_state()).errors.len()
                == 0 && spec_segment_list(segments@) == spec_image(
                self.model().spec_consts(),
                self.model().spec_lower(self.alloc_state()).bytes,
            ),
            r matches Err(errors) ==> errors@.len() > 0 && errors@ == self.model().spec_lower(
                self.alloc_state(),
            ).errors,
    {
        let mut this = self;
        let output = match this.inner.encode(&mut this.allocator) {
            Ok(output) => output,
            Err(errors) => {
                return Err(errors);
            },
        };
        let mut segments: Vec<(u64, Vec<u8>)> = Vec::new();
        let mut flag: Vec<u8> = Vec::new();
        flag.push(CGB_FLAG);
        segments.push((CGB_FLAG_OFFSET, flag));
        let trampoline = match Instruction::Jp(Condition::Always, MAIN_OFFSET).encode() {
            Ok(bytes) => bytes,
            Err(_) => {
                proof {
                    assert(false);
                }
                Vec::new()
            },
        };
        segments.push((ENTRY_OFFSET, trampoline));
        let consts = this.inner.gather_consts();
        let ghost head = spec_segment_list(segments@);
        proof {
            assert(head =~= seq![
                (CGB_FLAG_OFFSET, seq![CGB_FLAG]),
                (
                    ENTRY_OFFSET,
                    Instruction::Jp(Condition::Always, MAIN_OFFSET).spec_encode()->Ok_0,
                ),
            ]);
        }
        let mut i: usize = 0;
        while i < consts.len()
            invariant
                i <= consts@.len(),
                spec_segment_list(segments@) == head + spec_const_segments(
                    spec_const_list(consts@),
                    i as nat,
                ),
            decreases consts@.len() - i,
        {
            let ghost before = spec_segment_list(segments@);
            match consts[i].0 {
                Constant::Addr(constant) => {
                    let bytes = copy_of(&consts[i].1);
                    segments.push((constant.addr as u64, bytes));
                    proof {
                        assert(spec_segment_list(segments@) =~= before.push(
                            (constant.addr as u64, consts@[i as int].1@),
                        ));
                    }
                },
                _ => {},
            }
            proof {
                let list = spec_const_list(consts@);
                assert(list[i as int] == (consts@[i as int].0, consts@[i as int].1@));
                assert(spec_segment_list(segments@) =~= head + spec_const_segments(
                    list,
                    (i + 1) as nat,
                ));
            }
            i = i + 1;
        }
        let ghost body = spec_segment_list(segments@);
        segments.push((MAIN_OFFSET as u64, output));
        proof {
            assert(spec_segment_list(segments@) =~= body.push((MAIN_OFFSET as u64, output@)));
            assert(spec_segment_list(segments@) =~= spec_image(
                self.model().spec_consts(),
                output@,
            ));
        }
        Ok(segments)
    }
}

/// A copy of `bytes`.
pub fn copy_of(bytes: &Vec<u8>) -> (r: Vec<u8>)
    ensures
        r@ == bytes@,
{
    let mut out: Vec<u8> = Vec::new();
    extend_vec(&mut out, bytes);
    proof {
        assert(out@ =~= bytes@);
    }
    out
}

} // verus!
