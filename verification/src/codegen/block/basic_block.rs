//! Basic blocks.
use vstd::prelude::*;

use crate::codegen::AssemblerError;
use crate::codegen::allocator::{Allocator, AllocState, ConstAllocator, ConstAllocError, RegSlot};
use crate::codegen::assembler::{
    lemma_stored_const_is_new, spec_copy_body, spec_copy_ready, spec_copy_prefix, spec_countdown,
    spec_copy_suffix, spec_init_var, spec_lcd_code, spec_palette_block, spec_palette_bytes,
    spec_set_tile_code, spec_store_byte, spec_taken, Assembler, BlockAssembler, Context,
    MacroAssembler,
};
use crate::codegen::block::{
    lemma_block_model_len, lemma_blocks_len_grows, lemma_blocks_not_ready, lemma_models_push,
    lemma_models_update, spec_blocks_consts, spec_blocks_drained, spec_blocks_evaluated,
    spec_blocks_len, spec_blocks_ready, spec_const_list, spec_lower_blocks, spec_lowered_ok,
    spec_own_consts, BasicModel, Block, BlockModel, BlockTrait, LoopModel,
};
use crate::codegen::block::loop_block::{LoopBlock, LoopCondition};
use crate::codegen::block::raw_block::{extend_vec, RawBlock};
use crate::codegen::meta_instr::VarOrConst;
use crate::codegen::selection::{
    crement_var_code, jr_nz_var_code, ld_a_from_var_ind_code, ld_var_from_ind_code,
    ld_var_to_ind_code, lemma_scratch_is_returned, load_var_code, set_raw_code, set_var_code,
    spec_crement_var, spec_jr_nz_var, spec_ld_a_from_var_ind, spec_ld_var_from_ind,
    spec_ld_var_to_ind, spec_load_var, spec_set_raw, spec_set_var, spec_store_a, spec_store_var,
    store_a, store_var_code, with_a,
};
use crate::codegen::variables::{
    Constant, Id, IdInner, MemoryVariable, RawRegVariable, RawVariable, RegSelector, RegVariable,
    StoredConstant, Variable, Variabler,
};
use crate::cpu::{GpRegister, IndirectPair, RegisterPair, StackPair};
use crate::cpu::instructions::{Bit, Instruction};
use crate::memory::{low_byte, Addr, IoReg};
use crate::ppu::{TiledataSelector, TilemapSelector};
use crate::ppu::palettes::{CgbPalette, Color, PaletteSelector};
use crate::ppu::tiles::{Tile, TileIdx, Tilemap};

verus! {

/// Blocks in order, the constants that were declared here, and a counter of
/// identifiers.
#[derive(Debug, PartialEq, Eq)]
pub struct BasicBlock {
    pub next_id: IdInner,
    pub contents: Vec<Block>,
    /// The constants of this block with their bytes, oldest first. Each has the
    /// identifier that the block gave out for it.
    pub consts: Vec<(StoredConstant, Vec<u8>)>,
}

impl BasicBlock {
    /// A basic block with nothing in it.
    pub fn new() -> (r: Self)
        ensures
            r@ == BasicModel::spec_new(),
    {
        let r = BasicBlock { next_id: 0, contents: Vec::with_capacity(4), consts: Vec::new() };
        proof {
            assert(r@.contents =~= BasicModel::spec_new().contents);
            assert(r@.consts =~= BasicModel::spec_new().consts);
        }
        r
    }

    /// Lowers the block to bytes: its blocks in order. Returns the bytes,
    /// what could not be written out in any of them, and leaves the allocator
    /// as lowering left it.
    pub fn lower(&self, alloc: &mut ConstAllocator) -> (r: (Vec<u8>, Vec<AssemblerError>))
        requires
            old(alloc)@.wf(),
        ensures
            r.0@ == self@.spec_lower(old(alloc)@).bytes,
            r.1@ == self@.spec_lower(old(alloc)@).errors,
            final(alloc)@ == self@.spec_lower(old(alloc)@).alloc,
            final(alloc)@.wf(),
        decreases self,
    {
        let mut bytes: Vec<u8> = Vec::with_capacity(8);
        let mut errors: Vec<AssemblerError> = Vec::with_capacity(4);
        let mut i: usize = 0;
        while i < self.contents.len()
            invariant
                i <= self.contents@.len(),
                self@.contents.len() == self.contents@.len(),
                bytes@ == spec_lower_blocks(self@.contents, old(alloc)@, i as nat).bytes,
                errors@ == spec_lower_blocks(self@.contents, old(alloc)@, i as nat).errors,
                alloc@ == spec_lower_blocks(self@.contents, old(alloc)@, i as nat).alloc,
                alloc@.wf(),
            decreases self.contents@.len() - i,
        {
            proof {
                assert(self@.contents[i as int] == self.contents@[i as int]@);
            }
            let (block_bytes, block_errors) = self.contents[i].lower(alloc);
            extend_vec(&mut bytes, &block_bytes);
            extend_vec(&mut errors, &block_errors);
            i = i + 1;
        }
        (bytes, errors)
    }

    /// Lowers the block to bytes, or returns everything that could not be
    /// written out.
    pub fn encode(&self, alloc: &mut ConstAllocator) -> (r: Result<Vec<u8>, Vec<AssemblerError>>)
        requires
            old(alloc)@.wf(),
        ensures
            spec_lowered_ok(self@.spec_lower(old(alloc)@), r),
            final(alloc)@ == self@.spec_lower(old(alloc)@).alloc,
            final(alloc)@.wf(),
    {
        let (bytes, errors) = self.lower(alloc);
        if errors.len() > 0 {
            Err(errors)
        } else {
            Ok(bytes)
        }
    }
}

impl Assembler for BasicBlock {
    open spec fn model(&self) -> BasicModel {
        self@
    }

    open spec fn spec_allocator(&self) -> Option<AllocState> {
        None
    }

    open spec fn spec_condition(&self) -> Option<LoopCondition> {
        None
    }

    fn push_instruction(&mut self, instruction: Instruction) {
        let mut buf: Vec<Instruction> = Vec::new();
        buf.push(instruction);
        self.push_buf(buf.as_slice());
        proof {
            assert(buf@ =~= seq![instruction]);
        }
    }

    fn push_buf(&mut self, buf: &[Instruction]) {
        let n = self.contents.len();
        if n > 0 {
            match &mut self.contents[n - 1] {
                Block::Raw(block) => {
                    RawBlock::extend_code(&mut block.0, buf);
                    proof {
                        assert(final(self)@.contents =~= old(self)@.emit(buf@).contents);
                        assert(final(self)@.consts =~= old(self)@.consts);
                    }
                    return ;
                },
                _ => {},
            }
        }
        let mut new: Vec<Instruction> = Vec::with_capacity(buf.len());
        RawBlock::extend_code(&mut new, buf);
        self.contents.push(Block::Raw(RawBlock(new)));
        proof {
            assert(final(self)@.contents =~= old(self)@.emit(buf@).contents);
            assert(final(self)@.consts =~= old(self)@.consts);
        }
    }

    fn len(&self) -> (r: usize)
        decreases self,
    {
        let mut acc: usize = 0;
        let mut i: usize = 0;
        while i < self.contents.len()
            invariant
                i <= self.contents@.len(),
                self@.contents.len() == self.contents@.len(),
                acc == spec_blocks_len(self@.contents, i as nat),
                self@.spec_len() <= usize::MAX,
            decreases self.contents@.len() - i,
        {
            proof {
                lemma_blocks_len_grows(self@.contents, (i + 1) as nat, self@.contents.len());
                assert(self@.contents[i as int] == self.contents@[i as int]@);
                lemma_block_model_len(self.contents@[i as int]);
            }
            acc = acc + self.contents[i].len();
            i = i + 1;
        }
        acc
    }
}

impl BasicBlock {
    /// Appends an empty basic block and returns it.
    fn append_basic(&mut self) -> (ret: &mut BasicBlock)
        ensures
            ret@ == BasicModel::spec_new(),
            final(self)@.contents =~= old(self)@.contents.push(BlockModel::Basic(final(ret)@)),
            final(self)@.consts =~= old(self)@.consts,
            final(self)@.next_id == old(self)@.next_id,
    {
        let block: BasicBlock = BasicBlock::new();
        self.contents.push(Block::Basic(block));
        proof {
            lemma_models_update(self.contents@);
            lemma_models_push(old(self).contents@, self.contents@.last());
        }
        let n = self.contents.len();
        let last = match &mut self.contents[n - 1] {
            Block::Basic(last) => last,
            _ => vstd::pervasive::unreached(),
        };
        last
    }

    /// Appends an empty loop block and returns it.
    fn append_loop(&mut self, condition: LoopCondition) -> (ret: &mut LoopBlock)
        ensures
            ret.condition == condition,
            ret.inner@ == BasicModel::spec_new(),
            final(self)@.contents =~= old(self)@.contents.push(BlockModel::Loop(final(ret)@)),
            final(self)@.consts =~= old(self)@.consts,
            final(self)@.next_id == old(self)@.next_id,
    {
        let block: LoopBlock = LoopBlock::new(condition, BasicBlock::new());
        self.contents.push(Block::Loop(block));
        proof {
            lemma_models_update(self.contents@);
            lemma_models_push(old(self).contents@, self.contents@.last());
        }
        let n = self.contents.len();
        let last = match &mut self.contents[n - 1] {
            Block::Loop(last) => last,
            _ => vstd::pervasive::unreached(),
        };
        last
    }
}

impl BlockAssembler for BasicBlock {
    fn basic_block(&mut self) -> (ret: &mut BasicBlock) {
        self.append_basic()
    }

    fn loop_block(&mut self, condition: LoopCondition) -> (ret: &mut LoopBlock) {
        self.append_loop(condition)
    }
}

impl Context for BasicBlock {
    fn next_id(&self) -> (r: IdInner) {
        self.next_id
    }

    fn next_id_mut(&mut self) -> (r: &mut IdInner) {
        &mut self.next_id
    }
}

impl Variabler for BasicBlock {
    fn new_var(&mut self, len: u16) -> (var: Variable) {
        let id = self.new_id();
        Variable::Unallocated { len, id }
    }

    fn load_var(&mut self, alloc: &mut ConstAllocator, var: &Variable) -> (r: Result<RegVariable, AssemblerError>) {
        let mut out: Vec<Instruction> = Vec::new();
        let r = load_var_code(alloc, var, &mut out);
        proof {
            assert(out@ =~= spec_load_var(old(alloc)@, *var).code);
        }
        self.emit_code(&out);
        r
    }

    fn store_var(&mut self, alloc: &mut ConstAllocator, var: &Variable) -> (r: Result<MemoryVariable, AssemblerError>) {
        let mut out: Vec<Instruction> = Vec::new();
        let r = store_var_code(alloc, var, &mut out);
        proof {
            assert(out@ =~= spec_store_var(old(alloc)@, *var).code);
        }
        self.emit_code(&out);
        r
    }

    fn ld_var_to_ind(&mut self, alloc: &mut ConstAllocator, var: &Variable, dest: Addr) -> (r: Result<(), AssemblerError>) {
        let mut out: Vec<Instruction> = Vec::new();
        let r = ld_var_to_ind_code(alloc, var, dest, &mut out);
        proof {
            assert(out@ =~= spec_ld_var_to_ind(old(alloc)@, *var, dest).code);
        }
        self.emit_code(&out);
        r
    }

    fn ld_var_from_ind(&mut self, alloc: &mut ConstAllocator, var: &Variable, src: Addr) -> (r: Result<(), AssemblerError>) {
        let mut out: Vec<Instruction> = Vec::new();
        let r = ld_var_from_ind_code(alloc, var, src, &mut out);
        proof {
            assert(out@ =~= spec_ld_var_from_ind(old(alloc)@, *var, src).code);
        }
        self.emit_code(&out);
        r
    }

    fn dec_var(&mut self, alloc: &mut ConstAllocator, var: &Variable) -> (r: Result<(), AssemblerError>) {
        let mut out: Vec<Instruction> = Vec::new();
        let r = crement_var_code(alloc, var, false, &mut out);
        proof {
            assert(out@ =~= spec_crement_var(old(alloc)@, *var, false).code);
        }
        self.emit_code(&out);
        r
    }

    fn inc_var(&mut self, alloc: &mut ConstAllocator, var: &Variable) -> (r: Result<(), AssemblerError>) {
        let mut out: Vec<Instruction> = Vec::new();
        let r = crement_var_code(alloc, var, true, &mut out);
        proof {
            assert(out@ =~= spec_crement_var(old(alloc)@, *var, true).code);
        }
        self.emit_code(&out);
        r
    }

    fn ld_a_from_var_ind(&mut self, alloc: &mut ConstAllocator, var: &Variable) -> (r: Result<(), AssemblerError>) {
        let mut out: Vec<Instruction> = Vec::new();
        let r = ld_a_from_var_ind_code(alloc, var, &mut out);
        proof {
            assert(out@ =~= spec_ld_a_from_var_ind(old(alloc)@, *var).code);
        }
        self.emit_code(&out);
        r
    }

    fn jr_nz_var(&mut self, alloc: &mut ConstAllocator, var: &Variable, imm: i8) -> (r: Result<(), AssemblerError>) {
        let mut out: Vec<Instruction> = Vec::new();
        let r = jr_nz_var_code(alloc, var, imm, &mut out);
        proof {
            assert(out@ =~= spec_jr_nz_var(old(alloc)@, *var, imm).code);
        }
        self.emit_code(&out);
        r
    }

    fn set_var(&mut self, alloc: &mut ConstAllocator, var: &mut Variable, value: &VarOrConst) -> (r:
        Result<(), AssemblerError>) {
        let mut out: Vec<Instruction> = Vec::new();
        let r = set_var_code(alloc, var, value, &mut out);
        proof {
            assert(out@ =~= spec_set_var(old(alloc)@, *old(var), *value).code);
        }
        self.emit_code(&out);
        r
    }
}

impl BasicBlock {
    /// Appends a copy of `data` to the bytes `out`.
    fn copy_bytes(data: &[u8]) -> (out: Vec<u8>)
        ensures
            out@ == data@,
    {
        let mut out: Vec<u8> = Vec::new();
        let mut i: usize = 0;
        while i < data.len()
            invariant
                i <= data@.len(),
                out@ == data@.take(i as int),
            decreases data@.len() - i,
        {
            out.push(data[i]);
            proof {
                assert(data@.take(i + 1) =~= data@.take(i as int).push(data@[i as int]));
            }
            i = i + 1;
        }
        proof {
            assert(data@.take(i as int) =~= data@);
        }
        out
    }

    /// Adds a constant to the block's table.
    fn record_const(&mut self, constant: StoredConstant, data: &[u8])
        ensures
            final(self)@.contents =~= old(self)@.contents,
            final(self)@.consts =~= old(self)@.consts.push((constant, data@)),
            final(self)@.next_id == old(self)@.next_id,
    {
        let bytes = BasicBlock::copy_bytes(data);
        self.consts.push((constant, bytes));
    }

    /// Switches the display on or off, in a block of its own.
    fn switch_lcd(&mut self, alloc: &mut ConstAllocator, on: bool)
        ensures
            final(self)@ == old(self)@.push_block(
                BlockModel::Basic(BasicModel::spec_new().emit(spec_lcd_code(on))),
            ),
            final(alloc)@ == old(alloc)@.with_registers(
                old(alloc)@.registers.spec_with(GpRegister::A, None),
            ),
    {
        let reg_a = alloc.registers.claim(GpRegister::A, Id::Unset);
        let block = self.basic_block();
        block.ldh_to_a(IoReg::Lcdc.offset());
        if on {
            block.set(reg_a, Bit::_7);
        } else {
            block.res(reg_a, Bit::_7);
        }
        block.ldh_from_a(IoReg::Lcdc.offset());
        proof {
            let code = spec_lcd_code(on);
            let first = BasicModel::spec_new().emit(seq![code[0]]);
            BasicModel::spec_new().lemma_emit_emit(seq![code[0]], seq![code[1]]);
            BasicModel::spec_new().lemma_emit_emit(seq![code[0], code[1]], seq![code[2]]);
            assert(seq![code[0]] + seq![code[1]] =~= seq![code[0], code[1]]);
            assert(seq![code[0], code[1]] + seq![code[2]] =~= code);
        }
        alloc.registers.free(crate::codegen::variables::RegSelector::R8(GpRegister::A));
    }

    /// Takes `hl` and `a` for a primitive and returns what their slots held.
    fn take_hl_a(alloc: &mut ConstAllocator) -> (saved: (RegSlot, RegSlot, RegSlot))
        requires
            old(alloc)@.wf(),
        ensures
            saved == (old(alloc)@.registers.h, old(alloc)@.registers.l, old(alloc)@.registers.a),
            final(alloc)@ == old(alloc)@.with_registers(spec_taken(old(alloc)@.registers)),
            final(alloc)@.wf(),
    {
        let saved = (alloc.registers.h, alloc.registers.l, alloc.registers.a);
        alloc.registers.claim_pair(RegisterPair::HL, Id::Unset);
        alloc.registers.claim(GpRegister::A, Id::Unset);
        saved
    }

    /// True if the registers that a copy of `len` bytes needs are free.
    fn copy_ready(alloc: &ConstAllocator, len: u16) -> (r: bool)
        ensures
            r == spec_copy_ready(alloc@, len),
    {
        let mut probe = alloc.registers.snapshot();
        probe.claim_pair(RegisterPair::HL, Id::Unset);
        probe.claim(GpRegister::A, Id::Unset);
        if probe.alloc_pair().is_err() {
            return false;
        }
        if probe.alloc_reg().is_err() {
            return false;
        }
        if len > 256 {
            if probe.alloc_reg().is_err() {
                return false;
            }
        }
        true
    }

    /// A countdown of the register `reg` to zero.
    fn countdown(reg: GpRegister) -> (r: LoopCondition)
        ensures
            r == spec_countdown(reg),
    {
        LoopCondition::Countdown { counter: RawVariable::Reg(RawRegVariable::from(reg)), end: 0 }
    }

    /// The body of the loop of a copy through the pointer `pointer`.
    fn copy_body(pointer: RegisterPair) -> (r: Vec<Instruction>)
        requires
            pointer != RegisterPair::SP,
        ensures
            r@ == seq![
                Instruction::LdAFromR16(IndirectPair::spec_from_pair(pointer)->Ok_0),
                Instruction::LdAToR16(IndirectPair::HLInc),
                Instruction::IncR16(pointer),
            ],
    {
        let mut body: Vec<Instruction> = Vec::new();
        match IndirectPair::try_from(pointer) {
            Ok(through) => body.push(Instruction::LdAFromR16(through)),
            Err(_) => {},
        }
        body.push(Instruction::LdAToR16(IndirectPair::HLInc));
        body.push(Instruction::IncR16(pointer));
        proof {
            assert(body@ =~= seq![
                Instruction::LdAFromR16(IndirectPair::spec_from_pair(pointer)->Ok_0),
                Instruction::LdAToR16(IndirectPair::HLInc),
                Instruction::IncR16(pointer),
            ]);
        }
        body
    }

    /// Appends the loop that runs `body` while `counter` counts down to zero.
    fn push_counted_loop(&mut self, counter: GpRegister, body: &Vec<Instruction>)
        ensures
            final(self)@ == old(self)@.push_block(
                BlockModel::Loop(
                    LoopModel {
                        condition: spec_countdown(counter),
                        inner: BasicModel::spec_new().emit(body@),
                    },
                ),
            ),
    {
        let lp = self.loop_block(BasicBlock::countdown(counter));
        lp.push_buf(body.as_slice());
    }

    /// Appends the loop that runs the loop of `body` and `counter` while
    /// `outer` counts down to zero.
    fn push_nested_loop(&mut self, outer: GpRegister, counter: GpRegister, body: &Vec<Instruction>)
        ensures
            final(self)@ == old(self)@.push_block(
                BlockModel::Loop(
                    LoopModel {
                        condition: spec_countdown(outer),
                        inner: BasicModel::spec_new().push_block(
                            BlockModel::Loop(
                                LoopModel {
                                    condition: spec_countdown(counter),
                                    inner: BasicModel::spec_new().emit(body@),
                                },
                            ),
                        ),
                    },
                ),
            ),
    {
        let runs = self.loop_block(BasicBlock::countdown(outer));
        runs.inner.push_counted_loop(counter, body);
    }

    /// Puts back what the slots of `hl` and `a` held.
    fn give_back_hl_a(alloc: &mut ConstAllocator, saved: (RegSlot, RegSlot, RegSlot))
        ensures
            final(alloc)@ == old(alloc)@.with_registers(
                old(alloc)@.registers.spec_with(GpRegister::H, saved.0).spec_with(
                    GpRegister::L,
                    saved.1,
                ).spec_with(GpRegister::A, saved.2),
            ),
    {
        alloc.registers.h = saved.0;
        alloc.registers.l = saved.1;
        alloc.registers.a = saved.2;
    }

    /// The eight bytes of four colours, each with its high byte first.
    fn palette_bytes(colors: &[Color; 4]) -> (r: Vec<u8>)
        ensures
            r@ == spec_palette_bytes(colors@),
    {
        let mut out: Vec<u8> = Vec::new();
        out.push((colors[0].0 / 256) as u8);
        out.push((colors[0].0 % 256) as u8);
        out.push((colors[1].0 / 256) as u8);
        out.push((colors[1].0 % 256) as u8);
        out.push((colors[2].0 / 256) as u8);
        out.push((colors[2].0 % 256) as u8);
        out.push((colors[3].0 / 256) as u8);
        out.push((colors[3].0 % 256) as u8);
        proof {
            assert(out@ =~= spec_palette_bytes(colors@));
        }
        out
    }

    /// Fills the block that sets a palette from the eight bytes at `addr`.
    fn fill_palette_block(
        &mut self,
        alloc: &mut ConstAllocator,
        addr: Addr,
        palette: CgbPalette,
    )
        requires
            old(self)@ == BasicModel::spec_new(),
            old(alloc)@.wf(),
            old(alloc)@.registers.spec_first_free() is Some,
        ensures
            final(self)@ == spec_palette_block(
                addr,
                palette,
                old(alloc)@.registers.spec_first_free()->Some_0,
            ),
            final(alloc)@ == old(alloc)@,
    {
        let ghost counter_reg = alloc@.registers.spec_first_free()->Some_0;
        let mut head: Vec<Instruction> = Vec::new();
        head.push(Instruction::LdR16Imm(RegisterPair::HL, addr));
        head.push(Instruction::LdR8Imm(GpRegister::A, PaletteSelector::new(true, palette).byte()));
        head.push(Instruction::LdhFromA(IoReg::Bcps.offset()));
        self.push_buf(head.as_slice());
        let counter_var = match self.init_var8(alloc, 8) {
            Ok(var) => var,
            Err(_) => {
                proof {
                    assert(false);
                }
                return ;
            },
        };
        let counter = counter_var.as_raw();
        proof {
            let m0 = BasicModel::spec_new();
            let c = seq![Instruction::LdR8Imm(counter_reg, 8)];
            assert(spec_init_var(old(alloc)@, 0, 1, Constant::Inline8(8)).code =~= c);
            assert(m0.emit(head@).with_next_id().append(c) == m0.emit(head@).with_next_id().emit(c));
            assert(m0.emit(head@).with_next_id().emit(c).contents =~= seq![
                BlockModel::Raw(head@ + c),
            ]);
            assert(head@ + c =~= spec_palette_block(addr, palette, counter_reg).contents[0]->Raw_0);
        }
        let ghost mid = self@;
        let condition = LoopCondition::Countdown { counter, end: 0 };
        let lp = self.loop_block(condition);
        let mut body: Vec<Instruction> = Vec::new();
        body.push(Instruction::LdAFromR16(IndirectPair::HLInc));
        body.push(Instruction::LdhFromA(IoReg::Bcpd.offset()));
        lp.push_buf(body.as_slice());
        proof {
            let wanted = spec_palette_block(addr, palette, counter_reg);
            assert(body@ =~= seq![
                Instruction::LdAFromR16(IndirectPair::HLInc),
                Instruction::LdhFromA(IoReg::Bcpd.spec_offset()),
            ]);
            let inner = BasicModel::spec_new().emit(body@);
            assert(inner.contents =~= seq![BlockModel::Raw(body@)]);
            assert(inner =~= wanted.contents[1]->Loop_0.inner);
            assert(self@ == mid.push_block(BlockModel::Loop(LoopModel { condition, inner })));
            assert(mid.contents =~= seq![wanted.contents[0]]);
            assert(self@.contents =~= wanted.contents);
            assert(self@.consts =~= wanted.consts);
        }
        let _ = alloc.dealloc_var(counter_var);
    }

    /// Takes the block's own constants out of it.
    fn take_own_consts(&mut self) -> (r: Vec<(Constant, Vec<u8>)>)
        ensures
            spec_const_list(r@) == spec_own_consts(old(self)@.consts),
            final(self).contents == old(self).contents,
            final(self).next_id == old(self).next_id,
            final(self).consts@.len() == 0,
    {
        let mut out: Vec<(Constant, Vec<u8>)> = Vec::new();
        let mut i: usize = 0;
        while i < self.consts.len()
            invariant
                i <= self.consts@.len(),
                self.consts == old(self).consts,
                self.contents == old(self).contents,
                self.next_id == old(self).next_id,
                out@.len() == i,
                forall|j: int|
                    0 <= j < i ==> (#[trigger] out@[j]).0 == Constant::Addr(self.consts@[j].0)
                        && out@[j].1@ == self.consts@[j].1@,
            decreases self.consts@.len() - i,
        {
            let bytes = BasicBlock::copy_bytes(self.consts[i].1.as_slice());
            out.push((Constant::Addr(self.consts[i].0), bytes));
            i = i + 1;
        }
        proof {
            assert(spec_const_list(out@) =~= spec_own_consts(old(self)@.consts));
        }
        self.consts = Vec::new();
        out
    }

    /// Takes the constants out of the block and out of the blocks inside it.
    pub fn drain_consts(&mut self) -> (r: Vec<(Constant, Vec<u8>)>)
        ensures
            spec_const_list(r@) == old(self)@.spec_consts(),
            final(self)@ == old(self)@.spec_drained(),
        decreases *old(self),
    {
        let mut consts = self.take_own_consts();
        let ghost own = spec_const_list(consts@);
        let mut i: usize = 0;
        while i < self.contents.len()
            invariant
                i <= self.contents@.len(),
                self.contents@.len() == old(self).contents@.len(),
                self.next_id == old(self).next_id,
                self.consts@.len() == 0,
                own == spec_own_consts(old(self)@.consts),
                forall|j: int|
                    i <= j < self.contents@.len() ==> self.contents@[j] == old(self).contents@[j],
                forall|j: int|
                    0 <= j < i ==> (#[trigger] self.contents@[j])@ == old(
                        self,
                    ).contents@[j]@.spec_drained(),
                spec_const_list(consts@) == own + spec_blocks_consts(old(self)@.contents, i as nat),
            decreases self.contents@.len() - i,
        {
            let ghost before = spec_const_list(consts@);
            let more = self.contents[i].gather_consts();
            let ghost added = spec_const_list(more@);
            extend_list(&mut consts, more);
            proof {
                assert(old(self)@.contents[i as int] == old(self).contents@[i as int]@);
                assert(spec_const_list(consts@) =~= before + added);
                assert(before + added =~= own + (spec_blocks_consts(old(self)@.contents, i as nat)
                    + added));
            }
            i = i + 1;
        }
        proof {
            assert(self@.contents =~= spec_blocks_drained(old(self)@.contents));
            assert(self@.consts =~= Seq::empty());
        }
        consts
    }
}

/// Appends the constants of `more` to `out`.
pub fn extend_list(out: &mut Vec<(Constant, Vec<u8>)>, more: Vec<(Constant, Vec<u8>)>)
    ensures
        spec_const_list(final(out)@) == spec_const_list(old(out)@) + spec_const_list(more@),
{
    let mut i: usize = 0;
    while i < more.len()
        invariant
            i <= more@.len(),
            spec_const_list(out@) == spec_const_list(old(out)@) + spec_const_list(more@).take(
                i as int,
            ),
        decreases more@.len() - i,
    {
        let ghost before = spec_const_list(out@);
        let bytes = BasicBlock::copy_bytes(more[i].1.as_slice());
        out.push((more[i].0, bytes));
        proof {
            assert(spec_const_list(out@) =~= before.push((more@[i as int].0, more@[i as int].1@)));
            assert(spec_const_list(more@).take(i + 1) =~= spec_const_list(more@).take(
                i as int,
            ).push((more@[i as int].0, more@[i as int].1@)));
        }
        i = i + 1;
    }
    proof {
        assert(spec_const_list(more@).take(i as int) =~= spec_const_list(more@));
    }
}

impl BasicBlock {
    /// True if each placeholder in the block and in the blocks inside it can
    /// be rewritten.
    pub fn meta_ready(&self, alloc: &mut ConstAllocator) -> (r: bool)
        requires
            old(alloc)@.wf(),
        ensures
            final(alloc)@ == old(alloc)@,
            r == self@.spec_ready(old(alloc)@.registers),
        decreases self,
    {
        let mut i: usize = 0;
        while i < self.contents.len()
            invariant
                i <= self.contents@.len(),
                self@.contents.len() == self.contents@.len(),
                alloc@ == old(alloc)@,
                alloc@.wf(),
                spec_blocks_ready(old(alloc)@.registers, self@.contents, i as nat),
            decreases self.contents@.len() - i,
        {
            proof {
                assert(self@.contents[i as int] == self.contents@[i as int]@);
            }
            if !self.contents[i].meta_ready(alloc) {
                proof {
                    lemma_blocks_not_ready(
                        old(alloc)@.registers,
                        self@.contents,
                        (i + 1) as nat,
                        self@.contents.len(),
                    );
                }
                return false;
            }
            i = i + 1;
        }
        true
    }

    /// Rewrites each placeholder in the block and in the blocks inside it.
    pub fn rewrite_meta(&mut self, alloc: &mut ConstAllocator)
        requires
            old(alloc)@.wf(),
        ensures
            final(alloc)@ == old(alloc)@,
            final(self)@ == old(self)@.spec_evaluated(old(alloc)@.registers),
        decreases *old(self),
    {
        let mut i: usize = 0;
        while i < self.contents.len()
            invariant
                i <= self.contents@.len(),
                self.contents@.len() == old(self).contents@.len(),
                self.next_id == old(self).next_id,
                self.consts == old(self).consts,
                alloc@ == old(alloc)@,
                alloc@.wf(),
                forall|j: int|
                    i <= j < self.contents@.len() ==> self.contents@[j] == old(self).contents@[j],
                forall|j: int|
                    0 <= j < i ==> (#[trigger] self.contents@[j])@ == old(
                        self,
                    ).contents@[j]@.spec_evaluated(old(alloc)@.registers),
            decreases self.contents@.len() - i,
        {
            self.contents[i].rewrite_meta(alloc);
            i = i + 1;
        }
        proof {
            assert(self@.contents =~= spec_blocks_evaluated(
                old(alloc)@.registers,
                old(self)@.contents,
            ));
            assert(self@.consts =~= old(self)@.consts);
        }
    }
}

impl MacroAssembler for BasicBlock {
    fn new_stored_const(&mut self, alloc: &mut ConstAllocator, data: &[u8]) -> (r: Result<
        StoredConstant,
        AssemblerError,
    >) {
        if data.len() > 0xffff {
            return Err(AssemblerError::AllocError(ConstAllocError::OutOfMemory));
        }
        let len = data.len() as u16;
        let addr = match alloc.constants.allocate(len) {
            Ok(addr) => addr,
            Err(e) => {
                return Err(AssemblerError::AllocError(e));
            },
        };
        let id = self.new_id();
        let constant = StoredConstant { id, addr, len };
        self.record_const(constant, data);
        proof {
            crate::codegen::assembler::lemma_stored_const_is_new(old(self)@, old(alloc)@, data@);
        }
        Ok(constant)
    }

    fn new_inline_const_r8(&mut self, data: u8) -> (r: Constant) {
        Constant::Inline8(data)
    }

    fn new_inline_const_r16(&mut self, data: u16) -> (r: Constant) {
        Constant::Inline16(data)
    }

    fn init_var8(&mut self, alloc: &mut ConstAllocator, value: u8) -> (r: Result<
        Variable,
        AssemblerError,
    >) {
        let val_const = VarOrConst::Const(self.new_inline_const_r8(value));
        let mut var = self.new_var(1);
        match self.set_var(alloc, &mut var, &val_const) {
            Ok(_) => Ok(var),
            Err(e) => Err(e),
        }
    }

    fn init_var16(&mut self, alloc: &mut ConstAllocator, value: u16) -> (r: Result<
        Variable,
        AssemblerError,
    >) {
        let val_const = VarOrConst::Const(self.new_inline_const_r16(value));
        let mut var = self.new_var(2);
        match self.set_var(alloc, &mut var, &val_const) {
            Ok(_) => Ok(var),
            Err(e) => Err(e),
        }
    }

    fn store_byte(&mut self, alloc: &mut ConstAllocator, addr: Addr, value: u8) {
        let mut body: Vec<Instruction> = Vec::new();
        body.push(Instruction::LdR8Imm(GpRegister::A, value));
        store_a(addr, &mut body);
        let mut out: Vec<Instruction> = Vec::new();
        proof {
            assert(body@ =~= seq![Instruction::LdR8Imm(GpRegister::A, value), spec_store_a(addr)]);
        }
        with_a(alloc, &body, &mut out);
        proof {
            assert(out@ =~= spec_store_byte(old(alloc)@, addr, value));
        }
        self.push_buf(out.as_slice());
    }

    fn set_ioreg(&mut self, alloc: &mut ConstAllocator, ioreg: IoReg, value: u8) {
        self.store_byte(alloc, ioreg.addr(), value);
    }

    fn disable_lcd_now(&mut self, alloc: &mut ConstAllocator) {
        self.switch_lcd(alloc, false);
    }

    fn enable_lcd_now(&mut self, alloc: &mut ConstAllocator) {
        self.switch_lcd(alloc, true);
    }

    fn set_tile(
        &mut self,
        alloc: &mut ConstAllocator,
        tilemap: TilemapSelector,
        tile: TileIdx,
        data: TileIdx,
    ) -> (r: Result<(), AssemblerError>) {
        if !alloc.has_free_register() {
            return Err(AssemblerError::AllocError(ConstAllocError::OutOfRegisters));
        }
        let src = match self.init_var8(alloc, data) {
            Ok(src) => src,
            Err(e) => {
                proof {
                    assert(false);
                }
                return Err(e);
            },
        };
        let dest = tilemap.from_idx(tile);
        let ghost init = spec_init_var(
            old(alloc)@,
            old(self)@.next_id,
            1,
            Constant::Inline8(data),
        );
        let ghost reg = old(alloc)@.registers.spec_first_free()->Some_0;
        let r = self.ld_var_to_ind(alloc, &src, dest);
        let _ = alloc.dealloc_var(src);
        proof {
            let moved = crate::codegen::selection::spec_ld_raw_to_ind(
                init.alloc,
                RawVariable::Reg(RawRegVariable::R8 { reg, id: Id::Assigned(old(self)@.next_id) }),
                dest,
            );
            old(self)@.with_next_id().lemma_append_append(init.code, moved.code);
            assert(init.code =~= seq![Instruction::LdR8Imm(reg, data)]);
            assert(init.code + moved.code =~= spec_set_tile_code(
                old(alloc)@,
                old(self)@.next_id,
                dest,
                data,
            ));
            crate::codegen::selection::lemma_scratch_is_returned(old(alloc)@.registers);
        }
        r
    }

    fn set_palette(&mut self, alloc: &mut ConstAllocator, palette: CgbPalette, colors: [Color; 4]) -> (r:
        Result<(), AssemblerError>) {
        let bytes = BasicBlock::palette_bytes(&colors);
        if !alloc.constants.fits(8) {
            return Err(AssemblerError::AllocError(ConstAllocError::OutOfMemory));
        }
        let saved = BasicBlock::take_hl_a(alloc);
        if !alloc.has_free_register() {
            BasicBlock::give_back_hl_a(alloc, saved);
            return Err(AssemblerError::AllocError(ConstAllocError::OutOfRegisters));
        }
        let constant = match self.new_stored_const(alloc, bytes.as_slice()) {
            Ok(constant) => constant,
            Err(e) => {
                proof {
                    assert(false);
                }
                return Err(e);
            },
        };
        let block = self.basic_block();
        block.fill_palette_block(alloc, constant.addr, palette);
        alloc.registers.free(RegSelector::R16(RegisterPair::HL));
        alloc.registers.free(RegSelector::R8(GpRegister::A));
        Ok(())
    }

    fn copy(&mut self, alloc: &mut ConstAllocator, src: Addr, dest: Addr, len: u16) -> (r: Result<
        (),
        AssemblerError,
    >) {
        if len == 0 {
            return Ok(());
        }
        if !BasicBlock::copy_ready(alloc, len) {
            return Err(AssemblerError::AllocError(ConstAllocError::OutOfRegisters));
        }
        let hl_stacked = alloc.registers.is_claimed(RegSelector::R16(RegisterPair::HL));
        let af_stacked = alloc.registers.is_claimed(RegSelector::R8(GpRegister::A));
        let saved = alloc.registers.snapshot();
        alloc.registers.claim_pair(RegisterPair::HL, Id::Unset);
        alloc.registers.claim(GpRegister::A, Id::Unset);
        let mut prefix: Vec<Instruction> = Vec::new();
        let mut suffix: Vec<Instruction> = Vec::new();
        if hl_stacked {
            prefix.push(Instruction::Push(StackPair::HL));
        }
        if af_stacked {
            prefix.push(Instruction::Push(StackPair::AF));
            suffix.push(Instruction::Pop(StackPair::AF));
        }
        if hl_stacked {
            suffix.push(Instruction::Pop(StackPair::HL));
        }
        prefix.push(Instruction::LdR16Imm(RegisterPair::HL, dest));
        let mut data_pointer = self.new_var(2);
        let val_const = VarOrConst::Const(Constant::Inline16(src));
        let _ = set_raw_code(alloc, &mut data_pointer, &val_const, &mut prefix);
        let pointer = match data_pointer.as_raw() {
            RawVariable::Reg(RawRegVariable::R16 { reg_pair, .. }) => reg_pair,
            _ => {
                proof {
                    assert(false);
                }
                RegisterPair::BC
            },
        };
        let counter = match alloc.registers.alloc_reg() {
            Ok(counter) => counter,
            Err(_) => {
                proof {
                    assert(false);
                }
                GpRegister::B
            },
        };
        prefix.push(Instruction::LdR8Imm(counter, (len % 256) as u8));
        let body = BasicBlock::copy_body(pointer);
        proof {
            assert(prefix@ =~= spec_copy_prefix(old(alloc)@, src, dest, len));
            assert(suffix@ =~= spec_copy_suffix(old(alloc)@));
            assert(body@ =~= spec_copy_body(old(alloc)@));
        }
        if len <= 256 {
            self.push_buf(prefix.as_slice());
            self.push_counted_loop(counter, &body);
        } else {
            let outer = match alloc.registers.alloc_reg() {
                Ok(outer) => outer,
                Err(_) => {
                    proof {
                        assert(false);
                    }
                    GpRegister::B
                },
            };
            let runs = Instruction::LdR8Imm(outer, (len / 256) as u8);
            if len % 256 != 0 {
                self.push_buf(prefix.as_slice());
                self.push_counted_loop(counter, &body);
                self.push_instruction(runs);
            } else {
                prefix.push(runs);
                proof {
                    assert(prefix@ =~= spec_copy_prefix(old(alloc)@, src, dest, len) + seq![runs]);
                }
                self.push_buf(prefix.as_slice());
            }
            self.push_nested_loop(outer, counter, &body);
        }
        self.emit_code(&suffix);
        alloc.registers = saved;
        Ok(())
    }

    fn write_tile_data(
        &mut self,
        alloc: &mut ConstAllocator,
        area: TiledataSelector,
        idx: TileIdx,
        data: &Tile,
    ) -> (r: Result<(), AssemblerError>) {
        let bytes = data.as_bytes();
        if !alloc.constants.fits(16) {
            return Err(AssemblerError::AllocError(ConstAllocError::OutOfMemory));
        }
        if !BasicBlock::copy_ready(alloc, 16) {
            return Err(AssemblerError::AllocError(ConstAllocError::OutOfRegisters));
        }
        let src = match self.new_stored_const(alloc, bytes.as_slice()) {
            Ok(src) => src,
            Err(e) => {
                proof {
                    assert(false);
                }
                return Err(e);
            },
        };
        let dest = area.from_idx(idx);
        let block = self.basic_block();
        let r = block.copy(alloc, src.addr, dest, 16);
        r
    }

    fn set_tilemap(&mut self, alloc: &mut ConstAllocator, tilemap: TilemapSelector, data: &Tilemap) -> (r:
        Result<(), AssemblerError>) {
        if !alloc.constants.fits(1024) {
            return Err(AssemblerError::AllocError(ConstAllocError::OutOfMemory));
        }
        if !BasicBlock::copy_ready(alloc, 1024) {
            return Err(AssemblerError::AllocError(ConstAllocError::OutOfRegisters));
        }
        let block = self.basic_block();
        let addr = match block.new_stored_const(alloc, data.as_slice()) {
            Ok(addr) => addr,
            Err(e) => {
                proof {
                    assert(false);
                }
                return Err(e);
            },
        };
        let r = block.copy(alloc, addr.addr, tilemap.base(), 1024);
        r
    }

    fn gather_consts(&mut self) -> (r: Vec<(Constant, Vec<u8>)>) {
        self.drain_consts()
    }

    fn evaluate_meta(&mut self, alloc: &mut ConstAllocator) -> (r: Result<(), AssemblerError>) {
        if !self.meta_ready(alloc) {
            return Err(AssemblerError::ArgumentError);
        }
        self.rewrite_meta(alloc);
        Ok(())
    }
}

impl BlockTrait for BasicBlock {
    fn contents(&self) -> (r: &Vec<Block>) {
        &self.contents
    }

    fn contents_mut(&mut self) -> (r: &mut Vec<Block>) {
        &mut self.contents
    }

    fn ok(&self) -> (r: Result<(), AssemblerError>) {
        Ok(())
    }
}

} // verus!
