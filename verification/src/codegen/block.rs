//! The block tree and its mathematical model.
//!
//! A block is a raw run of instructions, a basic block (blocks in order, with
//! the constants that were declared in it), or a loop block (a basic block that
//! is run again while a condition holds). Contracts speak of the tree through
//! its model: the same tree with sequences in place of vectors.
use vstd::prelude::*;

pub mod basic_block;
pub mod loop_block;
pub mod raw_block;

use crate::codegen::AssemblerError;
use crate::codegen::allocator::{AllocState, ConstAllocator, GpRegisters};
use crate::codegen::assembler::Assembler;
use crate::codegen::block::basic_block::BasicBlock;
use crate::codegen::block::loop_block::{LoopBlock, LoopCondition};
use crate::codegen::block::raw_block::{code_ready, evaluate_code, RawBlock};
use crate::codegen::selection::{spec_code_of, spec_crement_raw, spec_lower_meta};
use crate::codegen::variables::{
    Constant, Id, IdInner, RawRegVariable, RawVariable, StoredConstant,
};
use crate::cpu::{CpuFlag, GpRegister};
use crate::cpu::instructions::{spec_offset_byte, Condition, Instruction};
use crate::memory::Addr;

verus! {

/// What in a stream cannot be written out.
#[derive(Clone, Copy, Debug, PartialEq, Eq, Structural)]
pub enum EmitterError {
    /// A placeholder was still in the stream; the variable is its subject.
    UnallocatedVariable(RawVariable),
    /// A label was still in the stream.
    UnresolvedLabel(Id),
}

/// A block of the tree.
#[derive(Debug, PartialEq, Eq)]
pub enum Block {
    Basic(BasicBlock),
    Loop(LoopBlock),
    Raw(RawBlock),
}

/// The model of a block.
#[verifier::ext_equal]
pub enum BlockModel {
    Basic(BasicModel),
    Loop(LoopModel),
    Raw(Seq<Instruction>),
}

/// The model of a basic block: the next identifier it will give out, its
/// blocks in order, and its constants in the order in which they were declared.
#[verifier::ext_equal]
pub struct BasicModel {
    pub next_id: IdInner,
    pub contents: Seq<BlockModel>,
    pub consts: Seq<(StoredConstant, Seq<u8>)>,
}

/// The model of a loop block.
#[verifier::ext_equal]
pub struct LoopModel {
    pub condition: LoopCondition,
    pub inner: BasicModel,
}

/// The model of a block.
pub open spec fn spec_block_model(block: Block) -> BlockModel
    decreases block, 0nat,
{
    match block {
        Block::Basic(block) => BlockModel::Basic(spec_basic_model(block)),
        Block::Loop(block) => BlockModel::Loop(
            LoopModel { condition: block.condition, inner: spec_basic_model(block.inner) },
        ),
        Block::Raw(block) => BlockModel::Raw(block.0@),
    }
}

/// The model of a basic block.
pub open spec fn spec_basic_model(block: BasicBlock) -> BasicModel
    decreases block, 1nat,
{
    BasicModel {
        next_id: block.next_id,
        contents: spec_block_models(block.contents@),
        consts: Seq::new(block.consts@.len(), |i: int| (block.consts@[i].0, block.consts@[i].1@)),
    }
}

/// The models of blocks.
pub open spec fn spec_block_models(blocks: Seq<Block>) -> Seq<BlockModel>
    decreases blocks, 0nat,
{
    Seq::new(
        blocks.len(),
        |i: int|
            if 0 <= i < blocks.len() {
                spec_block_model(blocks[i])
            } else {
                BlockModel::Raw(Seq::empty())
            },
    )
}

impl View for Block {
    type V = BlockModel;

    open spec fn view(&self) -> BlockModel {
        spec_block_model(*self)
    }
}

impl View for BasicBlock {
    type V = BasicModel;

    open spec fn view(&self) -> BasicModel {
        spec_basic_model(*self)
    }
}

impl View for LoopBlock {
    type V = LoopModel;

    open spec fn view(&self) -> LoopModel {
        LoopModel { condition: self.condition, inner: spec_basic_model(self.inner) }
    }
}

/// The bytes that a run of instructions takes: the sum of their lengths over
/// the first `n`.
pub open spec fn spec_code_len(code: Seq<Instruction>, n: nat) -> nat
    decreases n,
{
    if n == 0 {
        0
    } else {
        spec_code_len(code, (n - 1) as nat) + code[n - 1].spec_len()
    }
}

impl BlockModel {
    /// The bytes that the instructions of the block take, those of the blocks
    /// inside it included. What a loop adds when it is lowered is not counted.
    pub open spec fn spec_len(self) -> nat
        decreases self, 0nat,
    {
        match self {
            BlockModel::Basic(block) => spec_blocks_len(block.contents, block.contents.len()),
            BlockModel::Loop(block) => spec_blocks_len(
                block.inner.contents,
                block.inner.contents.len(),
            ),
            BlockModel::Raw(code) => spec_code_len(code, code.len()),
        }
    }

    /// The constants that are declared in the block and in the blocks inside it:
    /// a block's own first, then those of its blocks in order.
    pub open spec fn spec_consts(self) -> Seq<(Constant, Seq<u8>)>
        decreases self, 0nat,
    {
        match self {
            BlockModel::Basic(block) => spec_own_consts(block.consts) + spec_blocks_consts(
                block.contents,
                block.contents.len(),
            ),
            BlockModel::Loop(block) => spec_own_consts(block.inner.consts) + spec_blocks_consts(
                block.inner.contents,
                block.inner.contents.len(),
            ),
            BlockModel::Raw(_) => Seq::empty(),
        }
    }

    /// The block with no constant left in it or in the blocks inside it.
    pub open spec fn spec_drained(self) -> BlockModel
        decreases self, 0nat,
    {
        match self {
            BlockModel::Basic(block) => BlockModel::Basic(
                BasicModel {
                    next_id: block.next_id,
                    contents: spec_blocks_drained(block.contents),
                    consts: Seq::empty(),
                },
            ),
            BlockModel::Loop(block) => BlockModel::Loop(
                LoopModel {
                    condition: block.condition,
                    inner: BasicModel {
                        next_id: block.inner.next_id,
                        contents: spec_blocks_drained(block.inner.contents),
                        consts: Seq::empty(),
                    },
                },
            ),
            BlockModel::Raw(code) => BlockModel::Raw(code),
        }
    }
}

/// The bytes that the instructions of the first `n` blocks take.
pub open spec fn spec_blocks_len(blocks: Seq<BlockModel>, n: nat) -> nat
    decreases blocks, n,
{
    if n == 0 || n > blocks.len() {
        0
    } else {
        spec_blocks_len(blocks, (n - 1) as nat) + blocks[n - 1].spec_len()
    }
}

/// The constants of a block's own table, each as the address of its bytes.
pub open spec fn spec_own_consts(consts: Seq<(StoredConstant, Seq<u8>)>) -> Seq<
    (Constant, Seq<u8>),
> {
    Seq::new(consts.len(), |i: int| (Constant::Addr(consts[i].0), consts[i].1))
}

/// The constants that are declared in the first `n` blocks, in order.
pub open spec fn spec_blocks_consts(blocks: Seq<BlockModel>, n: nat) -> Seq<(Constant, Seq<u8>)>
    decreases blocks, n,
{
    if n == 0 || n > blocks.len() {
        Seq::empty()
    } else {
        spec_blocks_consts(blocks, (n - 1) as nat) + blocks[n - 1].spec_consts()
    }
}

/// The blocks with no constant left in any of them.
pub open spec fn spec_blocks_drained(blocks: Seq<BlockModel>) -> Seq<BlockModel>
    decreases blocks, 0nat,
{
    Seq::new(
        blocks.len(),
        |i: int|
            if 0 <= i < blocks.len() {
                blocks[i].spec_drained()
            } else {
                BlockModel::Raw(Seq::empty())
            },
    )
}

impl BasicModel {
    /// A basic block with nothing in it.
    pub open spec fn spec_new() -> BasicModel {
        BasicModel { next_id: 0, contents: Seq::empty(), consts: Seq::empty() }
    }

    /// The block after `code` was pushed: onto its last block if that is a raw
    /// one, else as a new raw block.
    pub open spec fn emit(self, code: Seq<Instruction>) -> BasicModel {
        if self.contents.len() > 0 && self.contents.last() is Raw {
            BasicModel {
                contents: self.contents.update(
                    self.contents.len() - 1,
                    BlockModel::Raw(self.contents.last()->Raw_0 + code),
                ),
                ..self
            }
        } else {
            BasicModel { contents: self.contents.push(BlockModel::Raw(code)), ..self }
        }
    }

    /// The block after `code` was emitted, if there is any: no instructions
    /// leave the block as it is.
    pub open spec fn append(self, code: Seq<Instruction>) -> BasicModel {
        if code.len() == 0 {
            self
        } else {
            self.emit(code)
        }
    }

    /// The block with one more block at its end.
    pub open spec fn push_block(self, block: BlockModel) -> BasicModel {
        BasicModel { contents: self.contents.push(block), ..self }
    }

    /// The block after it gave out one identifier.
    pub open spec fn with_next_id(self) -> BasicModel {
        BasicModel { next_id: (self.next_id + 1) as usize, ..self }
    }

    /// The block with one more constant in its table.
    pub open spec fn push_const(self, constant: StoredConstant, bytes: Seq<u8>) -> BasicModel {
        BasicModel { consts: self.consts.push((constant, bytes)), ..self }
    }

    pub open spec fn spec_len(self) -> nat {
        spec_blocks_len(self.contents, self.contents.len())
    }

    /// Each constant of the block has an identifier that the block gave out,
    /// and no two have the same.
    pub open spec fn spec_ids_wf(self) -> bool {
        &&& forall|i: int|
            0 <= i < self.consts.len() ==> ((#[trigger] self.consts[i]).0.id matches Id::Assigned(
                k,
            ) && k < self.next_id)
        &&& forall|i: int, j: int|
            0 <= i < j < self.consts.len() ==> (#[trigger] self.consts[i]).0.id != (
            #[trigger] self.consts[j]).0.id
    }

    /// The constants of the block and of the blocks inside it.
    pub open spec fn spec_consts(self) -> Seq<(Constant, Seq<u8>)> {
        BlockModel::Basic(self).spec_consts()
    }

    /// The block with no constant left in it or in the blocks inside it.
    pub open spec fn spec_drained(self) -> BasicModel {
        BasicModel {
            next_id: self.next_id,
            contents: spec_blocks_drained(self.contents),
            consts: Seq::empty(),
        }
    }

    /// Instructions that are pushed one run after the other make the block that
    /// they make when they are pushed as one run.
    pub proof fn lemma_emit_emit(self, first: Seq<Instruction>, second: Seq<Instruction>)
        ensures
            self.emit(first).emit(second) == self.emit(first + second),
    {
        let a = self.emit(first).emit(second);
        let b = self.emit(first + second);
        if self.contents.len() > 0 && self.contents.last() is Raw {
            assert((self.contents.last()->Raw_0 + first) + second =~= self.contents.last()->Raw_0
                + (first + second));
        } else {
            assert(first + second =~= first + second);
        }
        assert(a.contents =~= b.contents);
    }

    /// What is emitted in two steps makes the block that it makes when it is
    /// emitted in one.
    pub proof fn lemma_append_append(self, first: Seq<Instruction>, second: Seq<Instruction>)
        ensures
            self.append(first).append(second) == self.append(first + second),
    {
        if first.len() == 0 {
            assert(first + second =~= second);
        } else if second.len() == 0 {
            assert(first + second =~= first);
        } else {
            self.lemma_emit_emit(first, second);
        }
    }
}

/// No instruction takes more than three bytes.
pub proof fn lemma_code_len_bound(code: Seq<Instruction>, n: nat)
    ensures
        spec_code_len(code, n) <= 3 * n,
    decreases n,
{
    if n > 0 {
        lemma_code_len_bound(code, (n - 1) as nat);
    }
}

/// What lowering a block to bytes yields: the bytes, what could not be
/// written out, and the allocator's state afterwards. The bytes count only if
/// there are no errors.
#[verifier::ext_equal]
pub struct Lowered {
    pub bytes: Seq<u8>,
    pub errors: Seq<AssemblerError>,
    pub alloc: AllocState,
}

/// What the end of a loop is lowered to: the instructions that step the
/// counter and jump back, or the error that stopped it, and the allocator's
/// state afterwards.
#[verifier::ext_equal]
pub struct Tail {
    pub error: Option<AssemblerError>,
    pub code: Seq<Instruction>,
    pub alloc: AllocState,
}

/// The bytes of the first `n` instructions of `code`, in order, and for each
/// that has no bytes the reason, in order.
pub open spec fn spec_encode_code(code: Seq<Instruction>, n: nat) -> (Seq<u8>, Seq<AssemblerError>)
    decreases n,
{
    if n == 0 {
        (Seq::empty(), Seq::empty())
    } else {
        let before = spec_encode_code(code, (n - 1) as nat);
        match code[n - 1].spec_encode() {
            Ok(bytes) => (before.0 + bytes, before.1),
            Err(e) => (before.0, before.1.push(e)),
        }
    }
}

/// The jump that closes a loop whose body and counter step take `span` bytes:
/// back over them and over itself. A span of more than 126 bytes cannot be
/// jumped over.
pub open spec fn spec_jump_back(condition: Condition, span: nat) -> Result<Instruction, AssemblerError> {
    if span + 2 > 128 {
        Err(AssemblerError::LoopTooBig)
    } else {
        Ok(Instruction::Jr(condition, (-(span + 2)) as i8))
    }
}

/// The end of a loop over a counter: the counter is stepped, then the jump
/// back is taken while the step did not reach zero.
pub open spec fn spec_counted_tail(a: AllocState, counter: RawVariable, up: bool, body: nat) -> Tail {
    if !counter.spec_wf() {
        Tail { error: Some(AssemblerError::ArgumentError), code: Seq::empty(), alloc: a }
    } else {
        let step = spec_crement_raw(a, counter, up);
        match step.result {
            Err(e) => Tail { error: Some(e), code: step.code, alloc: step.alloc },
            Ok(_) => match spec_jump_back(
                Condition::Flag(CpuFlag::NZ),
                body + spec_code_len(step.code, step.code.len()),
            ) {
                Err(e) => Tail { error: Some(e), code: step.code, alloc: step.alloc },
                Ok(jump) => Tail { error: None, code: step.code.push(jump), alloc: step.alloc },
            },
        }
    }
}

/// The end of a loop whose body takes `body` bytes. A native condition is one
/// jump back. A countdown to zero decrements the counter, a count up to zero
/// increments it, and both jump back while the result is not zero. A count to
/// anything but zero, which the jump does not test, and a counter of two
/// bytes, whose steps set no flag, are out of place.
pub open spec fn spec_loop_tail(condition: LoopCondition, body: nat, a: AllocState) -> Tail {
    match condition {
        LoopCondition::Native(c) => match spec_jump_back(c, body) {
            Err(e) => Tail { error: Some(e), code: Seq::empty(), alloc: a },
            Ok(jump) => Tail { error: None, code: seq![jump], alloc: a },
        },
        LoopCondition::Countdown { counter, end } => if end != 0 || counter.spec_len() == 2 {
            Tail { error: Some(AssemblerError::ArgumentError), code: Seq::empty(), alloc: a }
        } else {
            spec_counted_tail(a, counter, false, body)
        },
        LoopCondition::Countup { counter, end } => if end != 0 || counter.spec_len() == 2 {
            Tail { error: Some(AssemblerError::ArgumentError), code: Seq::empty(), alloc: a }
        } else {
            spec_counted_tail(a, counter, true, body)
        },
    }
}

impl BlockModel {
    /// The block lowered to bytes. The instructions of a raw block are
    /// written out in order. The blocks of a basic block are lowered in order,
    /// and the errors of all of them are collected. A loop is its body, lowered,
    /// and then its end; if the body has errors, they are the loop's.
    pub open spec fn spec_lower(self, a: AllocState) -> Lowered
        decreases self, 0nat,
    {
        match self {
            BlockModel::Raw(code) => Lowered {
                bytes: spec_encode_code(code, code.len()).0,
                errors: spec_encode_code(code, code.len()).1,
                alloc: a,
            },
            BlockModel::Basic(block) => spec_lower_blocks(block.contents, a, block.contents.len()),
            BlockModel::Loop(block) => {
                let body = spec_lower_blocks(block.inner.contents, a, block.inner.contents.len());
                if body.errors.len() > 0 {
                    body
                } else {
                    spec_close_loop(body, spec_loop_tail(block.condition, body.bytes.len(), body.alloc))
                }
            },
        }
    }
}

/// A loop's body with the loop's end: the bytes of both, or the error of the
/// end, or what of the end could not be written out.
pub open spec fn spec_close_loop(body: Lowered, tail: Tail) -> Lowered {
    match tail.error {
        Some(e) => Lowered { bytes: body.bytes, errors: seq![e], alloc: tail.alloc },
        None => Lowered {
            bytes: body.bytes + spec_encode_code(tail.code, tail.code.len()).0,
            errors: spec_encode_code(tail.code, tail.code.len()).1,
            alloc: tail.alloc,
        },
    }
}

/// The first `n` blocks lowered to bytes, each with the allocator as the one
/// before left it.
pub open spec fn spec_lower_blocks(blocks: Seq<BlockModel>, a: AllocState, n: nat) -> Lowered
    decreases blocks, n,
{
    if n == 0 || n > blocks.len() {
        Lowered { bytes: Seq::empty(), errors: Seq::empty(), alloc: a }
    } else {
        let before = spec_lower_blocks(blocks, a, (n - 1) as nat);
        let block = blocks[n - 1].spec_lower(before.alloc);
        Lowered {
            bytes: before.bytes + block.bytes,
            errors: before.errors + block.errors,
            alloc: block.alloc,
        }
    }
}

impl BasicModel {
    /// The block lowered to bytes.
    pub open spec fn spec_lower(self, a: AllocState) -> Lowered {
        spec_lower_blocks(self.contents, a, self.contents.len())
    }
}

/// What lowering returns: the bytes if nothing went wrong, else all that did.
pub open spec fn spec_lowered_ok(lowered: Lowered, r: Result<Vec<u8>, Vec<AssemblerError>>) -> bool {
    match r {
        Ok(bytes) => lowered.errors.len() == 0 && bytes@ == lowered.bytes,
        Err(errors) => lowered.errors.len() > 0 && errors@ == lowered.errors,
    }
}

/// Encoding length. A run of instructions that can all be written out takes
/// as many bytes as the lengths of its instructions add up to.
pub proof fn lemma_encoded_len(code: Seq<Instruction>, n: nat)
    requires
        n <= code.len(),
        spec_encode_code(code, n).1.len() == 0,
    ensures
        spec_encode_code(code, n).0.len() == spec_code_len(code, n),
    decreases n,
{
    if n > 0 {
        let before = spec_encode_code(code, (n - 1) as nat);
        assert(before.1.len() == 0) by {
            if code[n - 1].spec_encode() is Err {
                assert(spec_encode_code(code, n).1.len() == before.1.len() + 1);
            }
        }
        lemma_encoded_len(code, (n - 1) as nat);
        code[n - 1].lemma_encoded_len();
    }
}

/// Loop jump arithmetic. The end of a loop that is lowered without error ends
/// in a `jr` whose offset is the negative of the bytes of the body, of the
/// counter step and of the jump itself; that number is at most 128, so the
/// offset is a signed byte.
pub proof fn lemma_loop_jump(condition: LoopCondition, body: nat, a: AllocState)
    requires
        spec_loop_tail(condition, body, a).error is None,
    ensures
        ({
            let tail = spec_loop_tail(condition, body, a);
            let step = tail.code.drop_last();
            let span = body + spec_code_len(step, step.len()) + 2;
            &&& tail.code.len() >= 1
            &&& span <= 128
            &&& tail.code.last() matches Instruction::Jr(_, offset) && offset == -span
            &&& tail.code.last().spec_encode() matches Ok(bytes) && bytes[1] == spec_offset_byte(
                (-span) as i8,
            )
        }),
{
    let tail = spec_loop_tail(condition, body, a);
    match condition {
        LoopCondition::Native(c) => {
            assert(tail.code.drop_last() =~= Seq::<Instruction>::empty());
        },
        LoopCondition::Countdown { counter, .. } => {
            let step = spec_crement_raw(a, counter, false);
            assert(tail.code.drop_last() =~= step.code);
        },
        LoopCondition::Countup { counter, .. } => {
            let step = spec_crement_raw(a, counter, true);
            assert(tail.code.drop_last() =~= step.code);
        },
    }
}

/// The opcode of the `jr` that closes a loop on the condition `c`.
pub open spec fn spec_jr_opcode(c: Condition) -> u8 {
    match c {
        Condition::Always => 0x18,
        Condition::Flag(flag) => (0x20 + 8 * flag.spec_code()) as u8,
    }
}

/// Loops on a native condition. A loop whose body is lowered without error to
/// `n` bytes is those bytes and one `jr` on the condition, whose operand is
/// `256 - (n + 2)`: the jump goes back over the body and over itself. That
/// holds while `n + 2` is at most 128; any longer loop is too big, and is
/// lowered to that one error. The allocator is as the body left it.
pub proof fn lemma_native_loop(inner: BasicModel, c: Condition, a: AllocState)
    requires
        inner.spec_lower(a).errors.len() == 0,
    ensures
        ({
            let body = inner.spec_lower(a);
            let lowered = BlockModel::Loop(
                LoopModel { condition: LoopCondition::Native(c), inner },
            ).spec_lower(a);
            let span = body.bytes.len() + 2;
            &&& lowered.alloc == body.alloc
            &&& span <= 128 ==> lowered.errors.len() == 0 && lowered.bytes == body.bytes
                + seq![spec_jr_opcode(c), (256 - span) as u8]
            &&& span > 128 ==> lowered.errors == seq![AssemblerError::LoopTooBig]
        }),
{
    let body = inner.spec_lower(a);
    let span = body.bytes.len() + 2;
    if span <= 128 {
        let jump = Instruction::Jr(c, (-span) as i8);
        let code = seq![jump];
        lemma_encode_one(jump);
        assert(jump.spec_encode() == Ok::<Seq<u8>, AssemblerError>(
            seq![spec_jr_opcode(c), (256 - span) as u8],
        )) by {
            assert(seq![jump.spec_opcode()] + jump.spec_operand_bytes() =~= seq![
                spec_jr_opcode(c),
                (256 - span) as u8,
            ]);
        }
    }
}

/// A run of one instruction is lowered to that instruction's bytes.
pub proof fn lemma_encode_one(instruction: Instruction)
    ensures
        spec_encode_code(seq![instruction], 1) == match instruction.spec_encode() {
            Ok(bytes) => (bytes, Seq::<AssemblerError>::empty()),
            Err(e) => (Seq::<u8>::empty(), seq![e]),
        },
{
    let code = seq![instruction];
    assert(spec_encode_code(code, 0) == (Seq::<u8>::empty(), Seq::<AssemblerError>::empty()));
    reveal_with_fuel(spec_encode_code, 2);
    match instruction.spec_encode() {
        Ok(bytes) => {
            assert(Seq::<u8>::empty() + bytes =~= bytes);
        },
        Err(e) => {
            assert(Seq::<AssemblerError>::empty().push(e) =~= seq![e]);
        },
    }
}

/// Loops that count a register. A loop whose body is lowered without error to
/// `n` bytes and whose counter is the register `reg`, counted to zero, is
/// those bytes, then `dec reg` (or `inc reg`, counting up), then `jr nz` with
/// the operand `256 - (n + 3)`: the jump goes back over the body, the step and
/// itself. That holds while `n + 3` is at most 128; any longer loop is too big,
/// and is lowered to that one error. The allocator is as the body left it.
pub proof fn lemma_counted_loop(inner: BasicModel, reg: GpRegister, id: Id, up: bool, a: AllocState)
    requires
        inner.spec_lower(a).errors.len() == 0,
    ensures
        ({
            let counter = RawVariable::Reg(RawRegVariable::R8 { reg, id });
            let condition = if up {
                LoopCondition::Countup { counter, end: 0 }
            } else {
                LoopCondition::Countdown { counter, end: 0 }
            };
            let step: int = if up {
                0x04
            } else {
                0x05
            };
            let body = inner.spec_lower(a);
            let lowered = BlockModel::Loop(LoopModel { condition, inner }).spec_lower(a);
            let span = body.bytes.len() + 3;
            &&& lowered.alloc == body.alloc
            &&& span <= 128 ==> lowered.errors.len() == 0 && lowered.bytes == body.bytes + seq![
                (step + 8 * reg.spec_code()) as u8,
                0x20u8,
                (256 - span) as u8,
            ]
            &&& span > 128 ==> lowered.errors == seq![AssemblerError::LoopTooBig]
        }),
{
    let counter = RawVariable::Reg(RawRegVariable::R8 { reg, id });
    let body = inner.spec_lower(a);
    let span = body.bytes.len() + 3;
    let stepped = spec_crement_raw(body.alloc, counter, up);
    let crement = if up {
        Instruction::IncR8(reg)
    } else {
        Instruction::DecR8(reg)
    };
    assert(stepped.result is Ok);
    assert(stepped.code =~= seq![crement]);
    assert(stepped.alloc == body.alloc);
    assert(spec_code_len(stepped.code, 1) == 1) by {
        reveal_with_fuel(spec_code_len, 2);
    }
    if span <= 128 {
        let jump = Instruction::Jr(Condition::Flag(CpuFlag::NZ), (-span) as i8);
        let code = seq![crement, jump];
        assert(stepped.code.push(jump) =~= code);
        lemma_encode_one(crement);
        lemma_encode_one(jump);
        lemma_encode_code_add(seq![crement], seq![jump], 1);
        assert(seq![crement] + seq![jump] =~= code);
        let first: int = if up {
            0x04
        } else {
            0x05
        };
        assert(seq![crement.spec_opcode()] + crement.spec_operand_bytes() =~= seq![
            (first + 8 * reg.spec_code()) as u8,
        ]);
        assert(seq![jump.spec_opcode()] + jump.spec_operand_bytes() =~= seq![
            0x20u8,
            (256 - span) as u8,
        ]);
        assert(spec_encode_code(code, 2).0 =~= seq![
            (first + 8 * reg.spec_code()) as u8,
            0x20u8,
            (256 - span) as u8,
        ]);
        assert(spec_encode_code(code, 2).1 =~= Seq::<AssemblerError>::empty());
    }
}

/// The bytes that the jump of a loop goes back over, itself included: the body,
/// the step of the counter, and the two bytes of the jump. `None` if the
/// condition is out of place or the counter cannot be stepped.
pub open spec fn spec_loop_span(condition: LoopCondition, body: nat, a: AllocState) -> Option<nat> {
    match condition {
        LoopCondition::Native(_) => Some(body + 2),
        LoopCondition::Countdown { counter, end } => if end != 0 || counter.spec_len() == 2
            || !counter.spec_wf() || spec_crement_raw(a, counter, false).result is Err {
            None
        } else {
            let step = spec_crement_raw(a, counter, false).code;
            Some(body + spec_code_len(step, step.len()) + 2)
        },
        LoopCondition::Countup { counter, end } => if end != 0 || counter.spec_len() == 2
            || !counter.spec_wf() || spec_crement_raw(a, counter, true).result is Err {
            None
        } else {
            let step = spec_crement_raw(a, counter, true).code;
            Some(body + spec_code_len(step, step.len()) + 2)
        },
    }
}

/// Loops that are too big. A loop whose body is lowered without error is
/// rejected for its size exactly if the bytes that its jump goes back over are
/// more than 128; it is then lowered to errors and to no jump. A loop of at
/// most 128 such bytes is not rejected for its size.
pub proof fn lemma_loop_too_big(block: LoopModel, a: AllocState)
    requires
        block.inner.spec_lower(a).errors.len() == 0,
    ensures
        ({
            let body = block.inner.spec_lower(a);
            let tail = spec_loop_tail(block.condition, body.bytes.len(), body.alloc);
            let lowered = BlockModel::Loop(block).spec_lower(a);
            &&& tail.error is Some ==> lowered.errors.len() > 0
            &&& spec_loop_span(block.condition, body.bytes.len(), body.alloc) matches Some(span) ==> (
            span > 128 <==> tail.error == Some(AssemblerError::LoopTooBig)) && (span <= 128
                <==> tail.error is None)
        }),
{
}

/// The constants of a list, each with its bytes as a sequence.
pub open spec fn spec_const_list(list: Seq<(Constant, Vec<u8>)>) -> Seq<(Constant, Seq<u8>)> {
    Seq::new(list.len(), |i: int| (list[i].0, list[i].1@))
}

/// The first `n` instructions of `code` with each placeholder replaced by the
/// instructions that it is rewritten to.
pub open spec fn spec_evaluate_code(registers: GpRegisters, code: Seq<Instruction>, n: nat) -> Seq<
    Instruction,
>
    decreases n,
{
    if n == 0 {
        Seq::empty()
    } else {
        spec_evaluate_code(registers, code, (n - 1) as nat) + (match code[n - 1] {
            Instruction::Meta(meta) => spec_code_of(spec_lower_meta(registers, meta)),
            other => seq![other],
        })
    }
}

/// True if each placeholder among the first `n` instructions of `code` can be
/// rewritten.
pub open spec fn spec_code_ready(registers: GpRegisters, code: Seq<Instruction>, n: nat) -> bool
    decreases n,
{
    n == 0 || (spec_code_ready(registers, code, (n - 1) as nat) && (code[n
        - 1] matches Instruction::Meta(meta) ==> spec_lower_meta(registers, meta) is Ok))
}

/// True if each placeholder in the first `n` blocks can be rewritten.
pub open spec fn spec_blocks_ready(registers: GpRegisters, blocks: Seq<BlockModel>, n: nat) -> bool
    decreases blocks, n,
{
    n == 0 || n > blocks.len() || (spec_blocks_ready(registers, blocks, (n - 1) as nat) && blocks[n
        - 1].spec_ready(registers))
}

/// The blocks with each placeholder rewritten.
pub open spec fn spec_blocks_evaluated(registers: GpRegisters, blocks: Seq<BlockModel>) -> Seq<
    BlockModel,
>
    decreases blocks, 0nat,
{
    Seq::new(
        blocks.len(),
        |i: int|
            if 0 <= i < blocks.len() {
                blocks[i].spec_evaluated(registers)
            } else {
                BlockModel::Raw(Seq::empty())
            },
    )
}

impl BlockModel {
    /// True if each placeholder in the block and in the blocks inside it can
    /// be rewritten.
    pub open spec fn spec_ready(self, registers: GpRegisters) -> bool
        decreases self, 0nat,
    {
        match self {
            BlockModel::Basic(block) => spec_blocks_ready(
                registers,
                block.contents,
                block.contents.len(),
            ),
            BlockModel::Loop(block) => spec_blocks_ready(
                registers,
                block.inner.contents,
                block.inner.contents.len(),
            ),
            BlockModel::Raw(code) => spec_code_ready(registers, code, code.len()),
        }
    }

    /// The block with each placeholder in it and in the blocks inside it
    /// rewritten.
    pub open spec fn spec_evaluated(self, registers: GpRegisters) -> BlockModel
        decreases self, 1nat,
    {
        match self {
            BlockModel::Basic(block) => BlockModel::Basic(
                BasicModel {
                    contents: spec_blocks_evaluated(registers, block.contents),
                    ..block
                },
            ),
            BlockModel::Loop(block) => BlockModel::Loop(
                LoopModel {
                    condition: block.condition,
                    inner: BasicModel {
                        contents: spec_blocks_evaluated(registers, block.inner.contents),
                        ..block.inner
                    },
                },
            ),
            BlockModel::Raw(code) => BlockModel::Raw(
                spec_evaluate_code(registers, code, code.len()),
            ),
        }
    }
}

impl BasicModel {
    /// True if each placeholder in the block can be rewritten.
    pub open spec fn spec_ready(self, registers: GpRegisters) -> bool {
        spec_blocks_ready(registers, self.contents, self.contents.len())
    }

    /// The block with each placeholder rewritten.
    pub open spec fn spec_evaluated(self, registers: GpRegisters) -> BasicModel {
        BasicModel { contents: spec_blocks_evaluated(registers, self.contents), ..self }
    }
}

/// What basic blocks and loop blocks have in common: the blocks inside them.
pub trait BlockTrait: Assembler {
    /// The blocks inside the block, in order.
    fn contents(&self) -> (r: &Vec<Block>)
        ensures
            spec_block_models(r@) == self.model().contents,
    ;

    /// The blocks inside the block, to be changed.
    fn contents_mut(&mut self) -> (r: &mut Vec<Block>)
        ensures
            spec_block_models(r@) == old(self).model().contents,
            final(self).model().contents == spec_block_models(final(r)@),
            final(self).model().next_id == old(self).model().next_id,
            final(self).model().consts == old(self).model().consts,
    ;

    /// A block is in order as it is.
    fn ok(&self) -> (r: Result<(), AssemblerError>)
        ensures
            r is Ok,
    ;
}

/// Two runs of instructions that agree on their first `n` have the same bytes
/// over them.
pub proof fn lemma_encode_code_prefix(a: Seq<Instruction>, b: Seq<Instruction>, n: nat)
    requires
        n <= a.len(),
        n <= b.len(),
        forall|i: int| 0 <= i < n ==> a[i] == b[i],
    ensures
        spec_encode_code(a, n) == spec_encode_code(b, n),
    decreases n,
{
    if n > 0 {
        lemma_encode_code_prefix(a, b, (n - 1) as nat);
    }
}

/// The bytes of two runs of instructions are the bytes of one after those of
/// the other, and so are their errors.
pub proof fn lemma_encode_code_add(first: Seq<Instruction>, second: Seq<Instruction>, n: nat)
    requires
        n <= second.len(),
    ensures
        spec_encode_code(first + second, first.len() + n).0 == spec_encode_code(
            first,
            first.len(),
        ).0 + spec_encode_code(second, n).0,
        spec_encode_code(first + second, first.len() + n).1 == spec_encode_code(
            first,
            first.len(),
        ).1 + spec_encode_code(second, n).1,
    decreases n,
{
    let a = spec_encode_code(first, first.len());
    if n == 0 {
        lemma_encode_code_prefix(first, first + second, first.len());
        assert(a.0 + Seq::<u8>::empty() =~= a.0);
        assert(a.1 + Seq::<AssemblerError>::empty() =~= a.1);
    } else {
        lemma_encode_code_add(first, second, (n - 1) as nat);
        assert((first + second)[first.len() + n - 1] == second[n - 1]);
        let b = spec_encode_code(second, (n - 1) as nat);
        match second[n - 1].spec_encode() {
            Ok(bytes) => {
                assert((a.0 + b.0) + bytes =~= a.0 + (b.0 + bytes));
            },
            Err(e) => {
                assert((a.1 + b.1).push(e) =~= a.1 + b.1.push(e));
            },
        }
    }
}

/// Two sequences of blocks that agree on their first `n` are lowered alike
/// over them.
pub proof fn lemma_lower_blocks_prefix(a: Seq<BlockModel>, b: Seq<BlockModel>, alloc: AllocState, n: nat)
    requires
        n <= a.len(),
        n <= b.len(),
        forall|i: int| 0 <= i < n ==> a[i] == b[i],
    ensures
        spec_lower_blocks(a, alloc, n) == spec_lower_blocks(b, alloc, n),
    decreases n,
{
    if n > 0 {
        lemma_lower_blocks_prefix(a, b, alloc, (n - 1) as nat);
    }
}

impl BasicModel {
    /// The byte stream is in the order of the pushes. What is pushed onto a
    /// block is lowered after everything that the block held: its bytes follow
    /// the block's bytes, its errors the block's errors, and the allocator is
    /// left as the block left it.
    pub proof fn lemma_emit_is_lowered_last(self, code: Seq<Instruction>, a: AllocState)
        ensures
            self.emit(code).spec_lower(a).bytes == self.spec_lower(a).bytes + spec_encode_code(
                code,
                code.len(),
            ).0,
            self.emit(code).spec_lower(a).errors == self.spec_lower(a).errors + spec_encode_code(
                code,
                code.len(),
            ).1,
            self.emit(code).spec_lower(a).alloc == self.spec_lower(a).alloc,
    {
        let n = self.contents.len();
        let after = self.emit(code).contents;
        let encoded = spec_encode_code(code, code.len());
        if n > 0 && self.contents.last() is Raw {
            let held = self.contents.last()->Raw_0;
            let head = spec_lower_blocks(self.contents, a, (n - 1) as nat);
            lemma_lower_blocks_prefix(self.contents, after, a, (n - 1) as nat);
            lemma_encode_code_add(held, code, code.len());
            assert(after[n - 1] == BlockModel::Raw(held + code));
            assert(self.contents[n - 1] == BlockModel::Raw(held));
            assert((held + code).len() == held.len() + code.len());
            let held_encoded = spec_encode_code(held, held.len());
            let both_encoded = spec_encode_code(held + code, (held + code).len());
            assert(after.len() == n);
            assert(spec_lower_blocks(after, a, (n - 1) as nat) == head);
            assert(after[n - 1].spec_lower(head.alloc).bytes == both_encoded.0);
            assert(after[n - 1].spec_lower(head.alloc).errors == both_encoded.1);
            assert(self.contents[n - 1].spec_lower(head.alloc).bytes == held_encoded.0);
            assert(self.contents[n - 1].spec_lower(head.alloc).errors == held_encoded.1);
            assert(spec_lower_blocks(after, a, n).bytes == head.bytes + both_encoded.0);
            assert(spec_lower_blocks(self.contents, a, n).bytes == head.bytes + held_encoded.0);
            assert(spec_lower_blocks(after, a, n).errors == head.errors + both_encoded.1);
            assert(spec_lower_blocks(self.contents, a, n).errors == head.errors + held_encoded.1);
            assert(head.bytes + (held_encoded.0 + encoded.0) =~= (head.bytes + held_encoded.0)
                + encoded.0);
            assert(head.errors + (held_encoded.1 + encoded.1) =~= (head.errors + held_encoded.1)
                + encoded.1);
        } else {
            let before = spec_lower_blocks(self.contents, a, n);
            lemma_lower_blocks_prefix(self.contents, after, a, n);
            assert(after[n as int] == BlockModel::Raw(code));
            assert(after.len() == n + 1);
            assert(spec_lower_blocks(after, a, n) == before);
            assert(after[n as int].spec_lower(before.alloc).bytes == encoded.0);
            assert(after[n as int].spec_lower(before.alloc).errors == encoded.1);
            assert(spec_lower_blocks(after, a, (n + 1) as nat).bytes == before.bytes + encoded.0);
            assert(spec_lower_blocks(after, a, (n + 1) as nat).errors == before.errors
                + encoded.1);
        }
    }
}

/// A block that was drained holds no constant, nor does a block inside it.
pub proof fn lemma_drained_has_no_consts(block: BlockModel)
    ensures
        block.spec_drained().spec_consts() == Seq::<(Constant, Seq<u8>)>::empty(),
    decreases block, 1nat,
{
    match block {
        BlockModel::Basic(b) => {
            lemma_drained_blocks_have_no_consts(b.contents, b.contents.len());
            assert(spec_own_consts(Seq::empty()) =~= Seq::<(Constant, Seq<u8>)>::empty());
        },
        BlockModel::Loop(l) => {
            lemma_drained_blocks_have_no_consts(l.inner.contents, l.inner.contents.len());
            assert(spec_own_consts(Seq::empty()) =~= Seq::<(Constant, Seq<u8>)>::empty());
        },
        BlockModel::Raw(_) => {},
    }
}

/// Blocks that were drained hold no constant.
pub proof fn lemma_drained_blocks_have_no_consts(blocks: Seq<BlockModel>, n: nat)
    requires
        n <= blocks.len(),
    ensures
        spec_blocks_consts(spec_blocks_drained(blocks), n) == Seq::<(Constant, Seq<u8>)>::empty(),
    decreases blocks, n,
{
    if n > 0 {
        lemma_drained_blocks_have_no_consts(blocks, (n - 1) as nat);
        lemma_drained_has_no_consts(blocks[n - 1]);
    }
}

impl Block {
    /// Lowers the block to bytes. Returns the bytes, what could not be
    /// written out, and leaves the allocator as lowering left it.
    pub fn lower(&self, alloc: &mut ConstAllocator) -> (r: (Vec<u8>, Vec<AssemblerError>))
        requires
            old(alloc)@.wf(),
        ensures
            r.0@ == self@.spec_lower(old(alloc)@).bytes,
            r.1@ == self@.spec_lower(old(alloc)@).errors,
            final(alloc)@ == self@.spec_lower(old(alloc)@).alloc,
            final(alloc)@.wf(),
        decreases self,
    {
        match self {
            Block::Basic(block) => block.lower(alloc),
            Block::Loop(block) => block.lower(alloc),
            Block::Raw(block) => crate::codegen::block::raw_block::RawBlock::encode_code(&block.0),
        }
    }

    /// Lowers the block to bytes, or returns everything that could not be
    /// written out.
    pub fn encode(&self, alloc: &mut ConstAllocator) -> (r: Result<Vec<u8>, Vec<AssemblerError>>)
        requires
            old(alloc)@.wf(),
        ensures
            spec_lowered_ok(self@.spec_lower(old(alloc)@), r),
            final(alloc)@ == self@.spec_lower(old(alloc)@).alloc,
            final(alloc)@.wf(),
    {
        let (bytes, errors) = self.lower(alloc);
        if errors.len() > 0 {
            Err(errors)
        } else {
            Ok(bytes)
        }
    }
}

/// The models of blocks of which one was replaced are the models of the
/// blocks with that one's model replaced.
pub proof fn lemma_models_update(blocks: Seq<Block>)
    ensures
        forall|i: int, block: Block|
            0 <= i < blocks.len() ==> #[trigger] spec_block_models(blocks.update(i, block))
                == spec_block_models(blocks).update(i, block@),
{
    assert forall|i: int, block: Block| 0 <= i < blocks.len() implies #[trigger] spec_block_models(
        blocks.update(i, block),
    ) == spec_block_models(blocks).update(i, block@) by {
        assert(spec_block_models(blocks.update(i, block)) =~= spec_block_models(blocks).update(
            i,
            block@,
        ));
    }
}

/// The models of blocks to which one was added are the models of the blocks
/// and that one's model.
pub proof fn lemma_models_push(blocks: Seq<Block>, block: Block)
    ensures
        spec_block_models(blocks.push(block)) == spec_block_models(blocks).push(block@),
{
    assert(spec_block_models(blocks.push(block)) =~= spec_block_models(blocks).push(block@));
}

/// A block is as long as the basic block that it stands for.
pub proof fn lemma_block_model_len(block: Block)
    ensures
        block.model().spec_len() == block@.spec_len(),
{
    match block {
        Block::Raw(raw) => {
            let m = raw.model();
            assert(m.contents[0] == BlockModel::Raw(raw.0@));
            reveal_with_fuel(spec_blocks_len, 2);
        },
        _ => {},
    }
}

/// The length of a sequence of blocks grows with the sequence.
pub proof fn lemma_blocks_len_grows(blocks: Seq<BlockModel>, n: nat, m: nat)
    requires
        n <= m <= blocks.len(),
    ensures
        spec_blocks_len(blocks, n) <= spec_blocks_len(blocks, m),
    decreases m,
{
    if n < m {
        lemma_blocks_len_grows(blocks, n, (m - 1) as nat);
    }
}

impl Default for Block {
    /// An empty raw block.
    fn default() -> (r: Self)
        ensures
            r@ == BlockModel::Raw(Seq::empty()),
    {
        Block::Raw(RawBlock::default())
    }
}

impl Block {
    /// A raw block of one instruction.
    pub fn from_instruction(value: Instruction) -> (r: Self)
        ensures
            r@ == BlockModel::Raw(seq![value]),
    {
        let mut code: Vec<Instruction> = Vec::new();
        code.push(value);
        proof {
            assert(code@ =~= seq![value]);
        }
        Block::Raw(RawBlock(code))
    }

}

impl Assembler for Block {
    /// A basic block is itself, a loop block is its inner block, and a raw
    /// block stands for a basic block that holds it and nothing else.
    open spec fn model(&self) -> BasicModel {
        match self {
            Block::Basic(block) => block.model(),
            Block::Loop(block) => block.model(),
            Block::Raw(block) => block.model(),
        }
    }

    open spec fn spec_allocator(&self) -> Option<AllocState> {
        None
    }

    open spec fn spec_condition(&self) -> Option<LoopCondition> {
        match self {
            Block::Loop(block) => Some(block.condition),
            _ => None,
        }
    }

    fn push_instruction(&mut self, instruction: Instruction) {
        match self {
            Block::Basic(block) => block.push_instruction(instruction),
            Block::Loop(block) => block.push_instruction(instruction),
            Block::Raw(block) => block.push_instruction(instruction),
        }
    }

    fn push_buf(&mut self, buf: &[Instruction]) {
        match self {
            Block::Basic(block) => block.push_buf(buf),
            Block::Loop(block) => block.push_buf(buf),
            Block::Raw(block) => block.push_buf(buf),
        }
    }

    fn len(&self) -> (r: usize)
        ensures
            r == self@.spec_len(),
        decreases self,
    {
        proof {
            lemma_block_model_len(*self);
        }
        match self {
            Block::Basic(block) => block.len(),
            Block::Loop(block) => block.len(),
            Block::Raw(block) => block.len(),
        }
    }
}

impl Block {
    /// Takes the constants out of the block and out of the blocks inside it,
    /// and returns them with their bytes. A raw block has none.
    pub fn gather_consts(&mut self) -> (r: Vec<(Constant, Vec<u8>)>)
        ensures
            spec_const_list(r@) == old(self)@.spec_consts(),
            final(self)@ == old(self)@.spec_drained(),
        decreases *old(self),
    {
        match self {
            Block::Basic(block) => block.drain_consts(),
            Block::Loop(block) => block.inner.drain_consts(),
            Block::Raw(_) => Vec::new(),
        }
    }
}

/// Blocks whose first blocks hold a placeholder that cannot be rewritten are
/// not ready.
pub proof fn lemma_blocks_not_ready(
    registers: crate::codegen::allocator::GpRegisters,
    blocks: Seq<BlockModel>,
    n: nat,
    m: nat,
)
    requires
        n <= m <= blocks.len(),
        !spec_blocks_ready(registers, blocks, n),
    ensures
        !spec_blocks_ready(registers, blocks, m),
    decreases m,
{
    if n < m {
        lemma_blocks_not_ready(registers, blocks, n, (m - 1) as nat);
    }
}

impl Block {
    /// True if each placeholder in the block and in the blocks inside it can
    /// be rewritten.
    pub fn meta_ready(&self, alloc: &mut ConstAllocator) -> (r: bool)
        requires
            old(alloc)@.wf(),
        ensures
            final(alloc)@ == old(alloc)@,
            r == self@.spec_ready(old(alloc)@.registers),
        decreases self,
    {
        match self {
            Block::Basic(block) => block.meta_ready(alloc),
            Block::Loop(block) => block.inner.meta_ready(alloc),
            Block::Raw(block) => code_ready(alloc, &block.0),
        }
    }

    /// Rewrites each placeholder in the block and in the blocks inside it.
    pub fn rewrite_meta(&mut self, alloc: &mut ConstAllocator)
        requires
            old(alloc)@.wf(),
        ensures
            final(alloc)@ == old(alloc)@,
            final(self)@ == old(self)@.spec_evaluated(old(alloc)@.registers),
        decreases *old(self),
    {
        match self {
            Block::Basic(block) => block.rewrite_meta(alloc),
            Block::Loop(block) => block.inner.rewrite_meta(alloc),
            Block::Raw(block) => {
                let code = evaluate_code(alloc, &block.0);
                block.0 = code;
            },
        }
    }
}

impl From<LoopBlock> for Block {
    fn from(value: LoopBlock) -> (r: Self) {
        Block::Loop(value)
    }
}

impl vstd::std_specs::convert::FromSpecImpl<LoopBlock> for Block {
    open spec fn obeys_from_spec() -> bool {
        true
    }

    open spec fn from_spec(value: LoopBlock) -> Self {
        Block::Loop(value)
    }
}

impl From<BasicBlock> for Block {
    fn from(value: BasicBlock) -> (r: Self) {
        Block::Basic(value)
    }
}

impl vstd::std_specs::convert::FromSpecImpl<BasicBlock> for Block {
    open spec fn obeys_from_spec() -> bool {
        true
    }

    open spec fn from_spec(value: BasicBlock) -> Self {
        Block::Basic(value)
    }
}

impl From<Vec<Instruction>> for Block {
    /// A raw block of the instructions `value`.
    fn from(value: Vec<Instruction>) -> (r: Self) {
        Block::Raw(RawBlock(value))
    }
}

impl vstd::std_specs::convert::FromSpecImpl<Vec<Instruction>> for Block {
    open spec fn obeys_from_spec() -> bool {
        true
    }

    open spec fn from_spec(value: Vec<Instruction>) -> Self {
        Block::Raw(RawBlock(value))
    }
}

} // verus!
