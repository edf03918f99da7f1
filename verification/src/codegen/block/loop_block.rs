//! Loop blocks.
use vstd::prelude::*;

use crate::codegen::AssemblerError;
use crate::codegen::allocator::{AllocState, ConstAllocator};
use crate::codegen::assembler::{Assembler, BlockAssembler, Context, MacroAssembler};
use crate::codegen::block::{
    lemma_code_len_bound, spec_counted_tail, spec_jump_back, spec_loop_tail, spec_lower_blocks,
    spec_lowered_ok, BasicModel, Block, BlockModel, BlockTrait, LoopModel,
};
use crate::codegen::block::basic_block::BasicBlock;
use crate::codegen::block::raw_block::{extend_vec, RawBlock};
use crate::codegen::meta_instr::VarOrConst;
use crate::codegen::selection::{crement_raw_code, lemma_crement_is_short, spec_crement_raw};
use crate::codegen::variables::{
    Constant, IdInner, MemoryVariable, RawVariable, RegVariable, StoredConstant, Variable,
    Variabler,
};
use crate::cpu::CpuFlag;
use crate::cpu::instructions::{Condition, Instruction};
use crate::memory::{Addr, IoReg};
use crate::ppu::{TiledataSelector, TilemapSelector};
use crate::ppu::palettes::{CgbPalette, Color};
use crate::ppu::tiles::{Tile, TileIdx, Tilemap};

verus! {

/// When a loop block runs once more.
#[derive(Clone, Copy, Debug, PartialEq, Eq, Structural)]
pub enum LoopCondition {
    /// While a condition of the CPU holds.
    Native(Condition),
    /// Decrements `counter` until it reaches `end`, then stops iterating. Only
    /// a counter of one byte and the end zero can be lowered.
    Countdown { counter: RawVariable, end: u8 },
    /// Increments `counter` until it reaches `end`, then stops iterating. Only
    /// a counter of one byte and the end zero can be lowered.
    Countup { counter: RawVariable, end: u8 },
}

/// A basic block that is run again while its condition holds.
#[derive(Debug, PartialEq, Eq)]
pub struct LoopBlock {
    pub condition: LoopCondition,
    pub inner: BasicBlock,
}

/// The bytes of a `jr`.
pub const JR_LEN: usize = 2;

impl LoopBlock {
    pub fn new(condition: LoopCondition, inner: BasicBlock) -> (r: Self)
        ensures
            r@ == (LoopModel { condition, inner: inner@ }),
    {
        LoopBlock { condition, inner }
    }

    pub fn new_native(condition: Condition, inner: BasicBlock) -> (r: Self)
        ensures
            r@ == (LoopModel { condition: LoopCondition::Native(condition), inner: inner@ }),
    {
        LoopBlock { condition: LoopCondition::Native(condition), inner }
    }
}

/// The jump that closes a loop whose body and counter step take `span` bytes.
pub fn jump_back(condition: Condition, span: usize) -> (r: Result<Instruction, AssemblerError>)
    ensures
        r == spec_jump_back(condition, span as nat),
{
    if span > 126 {
        Err(AssemblerError::LoopTooBig)
    } else {
        let offset: i16 = -(span as i16 + JR_LEN as i16);
        Ok(Instruction::Jr(condition, offset as i8))
    }
}

/// Lowers the end of a loop over a counter.
fn counted_tail(alloc: &mut ConstAllocator, counter: RawVariable, up: bool, body: usize) -> (r: (
    Option<AssemblerError>,
    Vec<Instruction>,
))
    requires
        old(alloc)@.wf(),
    ensures
        r.0 == spec_counted_tail(old(alloc)@, counter, up, body as nat).error,
        r.1@ == spec_counted_tail(old(alloc)@, counter, up, body as nat).code,
        final(alloc)@ == spec_counted_tail(old(alloc)@, counter, up, body as nat).alloc,
        final(alloc)@.wf(),
{
    let mut code: Vec<Instruction> = Vec::new();
    if !counter.is_wf() {
        return (Some(AssemblerError::ArgumentError), code);
    }
    let var = Variable::from(counter);
    let step = crement_raw_code(alloc, &var, up, &mut code);
    proof {
        let spec = spec_crement_raw(old(alloc)@, counter, up);
        assert(code@ =~= spec.code);
        lemma_crement_is_short(old(alloc)@, counter, up);
        lemma_code_len_bound(code@, code@.len());
    }
    match step {
        Err(e) => (Some(e), code),
        Ok(_) => {
            let step_len = RawBlock::code_len(&code);
            if body > 126 {
                return (Some(AssemblerError::LoopTooBig), code);
            }
            match jump_back(Condition::Flag(CpuFlag::NZ), body + step_len) {
                Err(e) => (Some(e), code),
                Ok(jump) => {
                    code.push(jump);
                    (None, code)
                },
            }
        },
    }
}

/// Lowers the end of a loop whose body takes `body` bytes: the instructions
/// that step the counter and jump back to the start of the body.
pub fn lower_tail(condition: &LoopCondition, body: usize, alloc: &mut ConstAllocator) -> (r: (
    Option<AssemblerError>,
    Vec<Instruction>,
))
    requires
        old(alloc)@.wf(),
    ensures
        r.0 == spec_loop_tail(*condition, body as nat, old(alloc)@).error,
        r.1@ == spec_loop_tail(*condition, body as nat, old(alloc)@).code,
        final(alloc)@ == spec_loop_tail(*condition, body as nat, old(alloc)@).alloc,
        final(alloc)@.wf(),
{
    match condition {
        LoopCondition::Native(c) => {
            let mut code: Vec<Instruction> = Vec::new();
            match jump_back(*c, body) {
                Err(e) => (Some(e), code),
                Ok(jump) => {
                    code.push(jump);
                    proof {
                        assert(code@ =~= seq![jump]);
                    }
                    (None, code)
                },
            }
        },
        LoopCondition::Countdown { counter, end } => {
            if *end != 0 || counter.len() == 2 {
                (Some(AssemblerError::ArgumentError), Vec::new())
            } else {
                counted_tail(alloc, *counter, false, body)
            }
        },
        LoopCondition::Countup { counter, end } => {
            if *end != 0 || counter.len() == 2 {
                (Some(AssemblerError::ArgumentError), Vec::new())
            } else {
                counted_tail(alloc, *counter, true, body)
            }
        },
    }
}

impl LoopBlock {
    /// Lowers the loop to bytes: the body, then the end of the loop with its
    /// jump back over both. Returns the bytes, what could not be written out,
    /// and leaves the allocator as lowering left it.
    pub fn lower(&self, alloc: &mut ConstAllocator) -> (r: (Vec<u8>, Vec<AssemblerError>))
        requires
            old(alloc)@.wf(),
        ensures
            r.0@ == BlockModel::Loop(self@).spec_lower(old(alloc)@).bytes,
            r.1@ == BlockModel::Loop(self@).spec_lower(old(alloc)@).errors,
            final(alloc)@ == BlockModel::Loop(self@).spec_lower(old(alloc)@).alloc,
            final(alloc)@.wf(),
        decreases self,
    {
        let (mut bytes, mut errors) = self.inner.lower(alloc);
        if errors.len() > 0 {
            return (bytes, errors);
        }
        let ghost body = spec_lower_blocks(
            self@.inner.contents,
            old(alloc)@,
            self@.inner.contents.len(),
        );
        let (error, code) = lower_tail(&self.condition, bytes.len(), alloc);
        match error {
            Some(e) => {
                errors.push(e);
                proof {
                    assert(errors@ =~= seq![e]);
                }
            },
            None => {
                let (tail_bytes, tail_errors) = RawBlock::encode_code(&code);
                extend_vec(&mut bytes, &tail_bytes);
                extend_vec(&mut errors, &tail_errors);
                proof {
                    assert(errors@ =~= tail_errors@);
                }
            },
        }
        (bytes, errors)
    }

    /// Lowers the loop to bytes, or returns everything that could not be
    /// written out.
    pub fn encode(&self, alloc: &mut ConstAllocator) -> (r: Result<Vec<u8>, Vec<AssemblerError>>)
        requires
            old(alloc)@.wf(),
        ensures
            spec_lowered_ok(BlockModel::Loop(self@).spec_lower(old(alloc)@), r),
            final(alloc)@ == BlockModel::Loop(self@).spec_lower(old(alloc)@).alloc,
            final(alloc)@.wf(),
    {
        let (bytes, errors) = self.lower(alloc);
        if errors.len() > 0 {
            Err(errors)
        } else {
            Ok(bytes)
        }
    }
}

impl Assembler for LoopBlock {
    /// A loop block is seen as its inner block.
    open spec fn model(&self) -> BasicModel {
        self.inner@
    }

    open spec fn spec_allocator(&self) -> Option<AllocState> {
        None
    }

    open spec fn spec_condition(&self) -> Option<LoopCondition> {
        Some(self.condition)
    }

    fn push_instruction(&mut self, instruction: Instruction)
        ensures
            final(self).condition == old(self).condition,
    {
        self.inner.push_instruction(instruction);
    }

    fn push_buf(&mut self, buf: &[Instruction])
        ensures
            final(self).condition == old(self).condition,
    {
        self.inner.push_buf(buf);
        assert(self.spec_allocator() is None);
    }

    fn len(&self) -> (r: usize)
        decreases self,
    {
        self.inner.len()
    }
}

impl BlockAssembler for LoopBlock {
    fn basic_block(&mut self) -> (ret: &mut BasicBlock) {
        self.inner.basic_block()
    }

    fn loop_block(&mut self, condition: LoopCondition) -> (ret: &mut LoopBlock) {
        self.inner.loop_block(condition)
    }
}

impl Context for LoopBlock {
    fn next_id(&self) -> (r: IdInner) {
        self.inner.next_id()
    }

    fn next_id_mut(&mut self) -> (r: &mut IdInner) {
        self.inner.next_id_mut()
    }
}

impl Variabler for LoopBlock {
    fn new_var(&mut self, len: u16) -> (var: Variable) {
        self.inner.new_var(len)
    }

    fn load_var(&mut self, alloc: &mut ConstAllocator, var: &Variable) -> (r: Result<RegVariable, AssemblerError>) {
        self.inner.load_var(alloc, var)
    }

    fn store_var(&mut self, alloc: &mut ConstAllocator, var: &Variable) -> (r: Result<MemoryVariable, AssemblerError>) {
        self.inner.store_var(alloc, var)
    }

    fn ld_var_to_ind(&mut self, alloc: &mut ConstAllocator, var: &Variable, dest: Addr) -> (r: Result<(), AssemblerError>) {
        self.inner.ld_var_to_ind(alloc, var, dest)
    }

    fn ld_var_from_ind(&mut self, alloc: &mut ConstAllocator, var: &Variable, src: Addr) -> (r: Result<(), AssemblerError>) {
        self.inner.ld_var_from_ind(alloc, var, src)
    }

    fn dec_var(&mut self, alloc: &mut ConstAllocator, var: &Variable) -> (r: Result<(), AssemblerError>) {
        self.inner.dec_var(alloc, var)
    }

    fn inc_var(&mut self, alloc: &mut ConstAllocator, var: &Variable) -> (r: Result<(), AssemblerError>) {
        self.inner.inc_var(alloc, var)
    }

    fn ld_a_from_var_ind(&mut self, alloc: &mut ConstAllocator, var: &Variable) -> (r: Result<(), AssemblerError>) {
        self.inner.ld_a_from_var_ind(alloc, var)
    }

    fn jr_nz_var(&mut self, alloc: &mut ConstAllocator, var: &Variable, imm: i8) -> (r: Result<(), AssemblerError>) {
        self.inner.jr_nz_var(alloc, var, imm)
    }

    fn set_var(&mut self, alloc: &mut ConstAllocator, var: &mut Variable, value: &VarOrConst) -> (r:
        Result<(), AssemblerError>) {
        self.inner.set_var(alloc, var, value)
    }
}

impl MacroAssembler for LoopBlock {
    fn new_stored_const(&mut self, alloc: &mut ConstAllocator, data: &[u8]) -> (r: Result<
        StoredConstant,
        AssemblerError,
    >) {
        self.inner.new_stored_const(alloc, data)
    }

    fn new_inline_const_r8(&mut self, data: u8) -> (r: Constant) {
        self.inner.new_inline_const_r8(data)
    }

    fn new_inline_const_r16(&mut self, data: u16) -> (r: Constant) {
        self.inner.new_inline_const_r16(data)
    }

    fn init_var8(&mut self, alloc: &mut ConstAllocator, value: u8) -> (r: Result<
        Variable,
        AssemblerError,
    >) {
        self.inner.init_var8(alloc, value)
    }

    fn init_var16(&mut self, alloc: &mut ConstAllocator, value: u16) -> (r: Result<
        Variable,
        AssemblerError,
    >) {
        self.inner.init_var16(alloc, value)
    }

    fn store_byte(&mut self, alloc: &mut ConstAllocator, addr: Addr, value: u8) {
        self.inner.store_byte(alloc, addr, value)
    }

    fn set_ioreg(&mut self, alloc: &mut ConstAllocator, ioreg: IoReg, value: u8) {
        self.inner.set_ioreg(alloc, ioreg, value)
    }

    fn disable_lcd_now(&mut self, alloc: &mut ConstAllocator) {
        self.inner.disable_lcd_now(alloc)
    }

    fn enable_lcd_now(&mut self, alloc: &mut ConstAllocator) {
        self.inner.enable_lcd_now(alloc)
    }

    fn set_tile(
        &mut self,
        alloc: &mut ConstAllocator,
        tilemap: TilemapSelector,
        tile: TileIdx,
        data: TileIdx,
    ) -> (r: Result<(), AssemblerError>) {
        self.inner.set_tile(alloc, tilemap, tile, data)
    }

    fn set_palette(&mut self, alloc: &mut ConstAllocator, palette: CgbPalette, colors: [Color; 4]) -> (r:
        Result<(), AssemblerError>) {
        self.inner.set_palette(alloc, palette, colors)
    }

    fn copy(&mut self, alloc: &mut ConstAllocator, src: Addr, dest: Addr, len: u16) -> (r: Result<
        (),
        AssemblerError,
    >) {
        self.inner.copy(alloc, src, dest, len)
    }

    fn write_tile_data(
        &mut self,
        alloc: &mut ConstAllocator,
        area: TiledataSelector,
        idx: TileIdx,
        data: &Tile,
    ) -> (r: Result<(), AssemblerError>) {
        self.inner.write_tile_data(alloc, area, idx, data)
    }

    fn set_tilemap(&mut self, alloc: &mut ConstAllocator, tilemap: TilemapSelector, data: &Tilemap) -> (r:
        Result<(), AssemblerError>) {
        self.inner.set_tilemap(alloc, tilemap, data)
    }

    fn gather_consts(&mut self) -> (r: Vec<(Constant, Vec<u8>)>) {
        self.inner.drain_consts()
    }

    fn evaluate_meta(&mut self, alloc: &mut ConstAllocator) -> (r: Result<(), AssemblerError>) {
        self.inner.evaluate_meta(alloc)
    }
}

impl BlockTrait for LoopBlock {
    fn contents(&self) -> (r: &Vec<Block>) {
        &self.inner.contents
    }

    fn contents_mut(&mut self) -> (r: &mut Vec<Block>) {
        &mut self.inner.contents
    }

    fn ok(&self) -> (r: Result<(), AssemblerError>) {
        Ok(())
    }
}

} // verus!
