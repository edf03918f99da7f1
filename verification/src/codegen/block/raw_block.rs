//! A raw run of instructions.
use vstd::prelude::*;

use crate::codegen::AssemblerError;
use crate::codegen::allocator::{AllocState, ConstAllocator, GpRegisters};
use crate::codegen::assembler::Assembler;
use crate::codegen::block::loop_block::LoopCondition;
use crate::codegen::block::{
    lemma_encoded_len, spec_blocks_len, spec_code_len, spec_code_ready, spec_encode_code,
    spec_evaluate_code, BasicModel, BlockModel,
};
use crate::codegen::selection::lower_meta;
use crate::cpu::instructions::Instruction;

verus! {

/// A flat sequence of instructions.
#[derive(Debug, PartialEq, Eq)]
pub struct RawBlock(pub Vec<Instruction>);

impl Default for RawBlock {
    fn default() -> (r: Self)
        ensures
            r.0@ == Seq::<Instruction>::empty(),
    {
        RawBlock(Vec::new())
    }
}

impl RawBlock {
    /// Appends the instructions of `buf` to `code`.
    pub fn extend_code(code: &mut Vec<Instruction>, buf: &[Instruction])
        ensures
            final(code)@ == old(code)@ + buf@,
    {
        let mut i: usize = 0;
        while i < buf.len()
            invariant
                i <= buf@.len(),
                code@ == old(code)@ + buf@.take(i as int),
            decreases buf@.len() - i,
        {
            code.push(buf[i]);
            proof {
                assert(buf@.take(i + 1) =~= buf@.take(i as int).push(buf@[i as int]));
            }
            i = i + 1;
        }
        proof {
            assert(buf@.take(i as int) =~= buf@);
        }
    }

    /// Writes the instructions of `code` out in order. Returns the bytes of
    /// those that have bytes, and for each that has none the reason.
    pub fn encode_code(code: &Vec<Instruction>) -> (r: (Vec<u8>, Vec<AssemblerError>))
        ensures
            r.0@ == spec_encode_code(code@, code@.len()).0,
            r.1@ == spec_encode_code(code@, code@.len()).1,
    {
        let mut bytes: Vec<u8> = Vec::new();
        let mut errors: Vec<AssemblerError> = Vec::new();
        let mut i: usize = 0;
        while i < code.len()
            invariant
                i <= code@.len(),
                bytes@ == spec_encode_code(code@, i as nat).0,
                errors@ == spec_encode_code(code@, i as nat).1,
            decreases code@.len() - i,
        {
            match code[i].encode() {
                Ok(encoded) => {
                    extend_vec(&mut bytes, &encoded);
                },
                Err(e) => {
                    errors.push(e);
                },
            }
            i = i + 1;
        }
        (bytes, errors)
    }

    /// Lowers the block to bytes: every instruction in order. If some cannot
    /// be written out, the reasons for all of them are returned instead.
    pub fn encode(&self) -> (r: Result<Vec<u8>, Vec<AssemblerError>>)
        ensures
            r matches Ok(bytes) ==> spec_encode_code(self.0@, self.0@.len()).1.len() == 0 && bytes@
                == spec_encode_code(self.0@, self.0@.len()).0 && bytes@.len() == spec_code_len(
                self.0@,
                self.0@.len(),
            ),
            r matches Err(errors) ==> errors@.len() > 0 && errors@ == spec_encode_code(
                self.0@,
                self.0@.len(),
            ).1,
    {
        let (bytes, errors) = RawBlock::encode_code(&self.0);
        if errors.len() > 0 {
            Err(errors)
        } else {
            proof {
                lemma_encoded_len(self.0@, self.0@.len());
            }
            Ok(bytes)
        }
    }

    /// The bytes that the instructions of `code` take.
    pub fn code_len(code: &Vec<Instruction>) -> (r: usize)
        requires
            spec_code_len(code@, code@.len()) <= usize::MAX,
        ensures
            r == spec_code_len(code@, code@.len()),
    {
        let mut acc: usize = 0;
        let mut i: usize = 0;
        while i < code.len()
            invariant
                i <= code@.len(),
                acc == spec_code_len(code@, i as nat),
                spec_code_len(code@, code@.len()) <= usize::MAX,
            decreases code@.len() - i,
        {
            proof {
                lemma_code_len_grows(code@, (i + 1) as nat, code@.len());
            }
            acc = acc + code[i].len();
            i = i + 1;
        }
        acc
    }
}

/// Appends the items of `more` to `out`.
pub fn extend_vec<T: Copy>(out: &mut Vec<T>, more: &Vec<T>)
    ensures
        final(out)@ == old(out)@ + more@,
{
    let mut i: usize = 0;
    while i < more.len()
        invariant
            i <= more@.len(),
            out@ == old(out)@ + more@.take(i as int),
        decreases more@.len() - i,
    {
        out.push(more[i]);
        proof {
            assert(more@.take(i + 1) =~= more@.take(i as int).push(more@[i as int]));
        }
        i = i + 1;
    }
    proof {
        assert(more@.take(i as int) =~= more@);
    }
}

/// The length of a run of instructions grows with the run.
pub proof fn lemma_code_len_grows(code: Seq<Instruction>, n: nat, m: nat)
    requires
        n <= m,
    ensures
        spec_code_len(code, n) <= spec_code_len(code, m),
    decreases m,
{
    if n < m {
        lemma_code_len_grows(code, n, (m - 1) as nat);
    }
}

impl Assembler for RawBlock {
    /// A raw block stands for a basic block that holds it and nothing else.
    open spec fn model(&self) -> BasicModel {
        BasicModel { next_id: 0, contents: seq![BlockModel::Raw(self.0@)], consts: Seq::empty() }
    }

    open spec fn spec_allocator(&self) -> Option<AllocState> {
        None
    }

    open spec fn spec_condition(&self) -> Option<LoopCondition> {
        None
    }

    fn push_instruction(&mut self, instruction: Instruction)
        ensures
            final(self).0@ == old(self).0@.push(instruction),
    {
        self.0.push(instruction);
        proof {
            assert(old(self).0@ + seq![instruction] =~= old(self).0@.push(instruction));
            assert(final(self).model().contents =~= old(self).model().emit(
                seq![instruction],
            ).contents);
        }
    }

    fn push_buf(&mut self, buf: &[Instruction])
        ensures
            final(self).0@ == old(self).0@ + buf@,
    {
        RawBlock::extend_code(&mut self.0, buf);
        proof {
            assert(old(self).model().contents.last() == BlockModel::Raw(old(self).0@));
            assert(final(self).model().contents =~= old(self).model().emit(buf@).contents);
        }
    }

    fn len(&self) -> (r: usize)
        decreases self,
    {
        proof {
            assert(self.model().contents[0] == BlockModel::Raw(self.0@));
            reveal_with_fuel(crate::codegen::block::spec_blocks_len, 2);
        }
        RawBlock::code_len(&self.0)
    }
}

/// True if each placeholder in `code` can be rewritten.
pub fn code_ready(alloc: &mut ConstAllocator, code: &Vec<Instruction>) -> (r: bool)
    requires
        old(alloc)@.wf(),
    ensures
        final(alloc)@ == old(alloc)@,
        r == spec_code_ready(old(alloc)@.registers, code@, code@.len()),
{
    let mut i: usize = 0;
    while i < code.len()
        invariant
            i <= code@.len(),
            alloc@ == old(alloc)@,
            alloc@.wf(),
            spec_code_ready(old(alloc)@.registers, code@, i as nat),
        decreases code@.len() - i,
    {
        match &code[i] {
            Instruction::Meta(meta) => {
                if lower_meta(alloc, meta).is_err() {
                    proof {
                        lemma_code_not_ready(
                            old(alloc)@.registers,
                            code@,
                            (i + 1) as nat,
                            code@.len(),
                        );
                    }
                    return false;
                }
            },
            _ => {},
        }
        i = i + 1;
    }
    true
}

/// Code whose first instructions hold a placeholder that cannot be rewritten
/// is not ready.
pub proof fn lemma_code_not_ready(
    registers: crate::codegen::allocator::GpRegisters,
    code: Seq<Instruction>,
    n: nat,
    m: nat,
)
    requires
        n <= m,
        !spec_code_ready(registers, code, n),
    ensures
        !spec_code_ready(registers, code, m),
    decreases m,
{
    if n < m {
        lemma_code_not_ready(registers, code, n, (m - 1) as nat);
    }
}

/// Rewrites each placeholder in `code`.
pub fn evaluate_code(alloc: &mut ConstAllocator, code: &Vec<Instruction>) -> (r: Vec<Instruction>)
    requires
        old(alloc)@.wf(),
    ensures
        final(alloc)@ == old(alloc)@,
        r@ == spec_evaluate_code(old(alloc)@.registers, code@, code@.len()),
{
    let mut out: Vec<Instruction> = Vec::new();
    let mut i: usize = 0;
    while i < code.len()
        invariant
            i <= code@.len(),
            alloc@ == old(alloc)@,
            alloc@.wf(),
            out@ == spec_evaluate_code(old(alloc)@.registers, code@, i as nat),
        decreases code@.len() - i,
    {
        match &code[i] {
            Instruction::Meta(meta) => {
                match lower_meta(alloc, meta) {
                    Ok(lowered) => {
                        extend_vec(&mut out, &lowered);
                    },
                    Err(_) => {
                        proof {
                            assert(out@ + Seq::<Instruction>::empty() =~= out@);
                        }
                    },
                }
            },
            other => {
                out.push(*other);
                proof {
                    assert(out@ =~= spec_evaluate_code(
                        old(alloc)@.registers,
                        code@,
                        i as nat,
                    ) + seq![*other]);
                }
            },
        }
        i = i + 1;
    }
    out
}

} // verus!
