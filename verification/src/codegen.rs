//! The code generator: allocator, variables, blocks and the assembler layers.
use vstd::prelude::*;

pub mod allocator;
pub mod assembler;
pub mod block;
pub mod cgb;
pub mod meta_instr;
pub mod selection;
pub mod variables;

use crate::cpu::{GpRegister, IndirectPair, RegConversionError, RegisterPair, SplitError, StackPair};
use allocator::{AllocErrorTrait, ConstAllocError};
use assembler::ErrorTrait;
use block::EmitterError;
use variables::RawVariable;

pub use assembler::{Assembler, BlockAssembler, MacroAssembler};
pub use block::{
    basic_block::BasicBlock,
    loop_block::{LoopBlock, LoopCondition},
    Block,
};
pub use variables::{Id, IdInner, Variable};

verus! {

/// Everything that can go wrong while code is generated or lowered to bytes.
#[derive(Clone, Copy, Debug, PartialEq, Eq, Structural)]
pub enum AssemblerError {
    /// The allocator ran out of memory or registers, or a value is too wide.
    AllocError(ConstAllocError),
    /// An operand cannot be used where it was given.
    ArgumentError,
    /// A register pair has no form in the operand position that was asked for.
    ConversionError(RegConversionError),
    /// The stream holds something that cannot be written out.
    EmitterError(EmitterError),
    /// `SP` was to be split into halves.
    RegSplitError(SplitError),
    /// A buffer of the first length was expected, one of the second was given.
    SizeError(usize, usize),
    /// The backward jump of a loop would span more than 128 bytes.
    LoopTooBig,
}

impl ErrorTrait for AssemblerError {
    open spec fn spec_invalid_arg() -> Self {
        AssemblerError::ArgumentError
    }

    fn invalid_arg() -> (r: Self) {
        AssemblerError::ArgumentError
    }
}

/// An 8-bit operand: a register or a variable that lives in one.
#[derive(Clone, Copy, Debug, PartialEq, Eq, Structural)]
pub enum R8Arg {
    GpRegister(GpRegister),
    Variable(RawVariable),
}

/// A 16-bit operand: a register pair or a variable that lives in one.
#[derive(Clone, Copy, Debug, PartialEq, Eq, Structural)]
pub enum R16Arg {
    RegisterPair(RegisterPair),
    Variable(RawVariable),
}

/// A pointer operand: an indirect pair or a variable that holds the address.
#[derive(Clone, Copy, Debug, PartialEq, Eq, Structural)]
pub enum IndirectArg {
    IndirectPair(IndirectPair),
    Variable(RawVariable),
}

/// A stack operand: a stack pair or a variable that lives in one.
#[derive(Clone, Copy, Debug, PartialEq, Eq, Structural)]
pub enum StackArg {
    StackPair(StackPair),
    Variable(RawVariable),
}

impl From<ConstAllocError> for AssemblerError {
    fn from(value: ConstAllocError) -> (r: Self) {
        AssemblerError::AllocError(value)
    }
}

impl vstd::std_specs::convert::FromSpecImpl<ConstAllocError> for AssemblerError {
    open spec fn obeys_from_spec() -> bool {
        true
    }

    open spec fn from_spec(value: ConstAllocError) -> Self {
        AssemblerError::AllocError(value)
    }
}

impl From<EmitterError> for AssemblerError {
    fn from(value: EmitterError) -> (r: Self) {
        AssemblerError::EmitterError(value)
    }
}

impl vstd::std_specs::convert::FromSpecImpl<EmitterError> for AssemblerError {
    open spec fn obeys_from_spec() -> bool {
        true
    }

    open spec fn from_spec(value: EmitterError) -> Self {
        AssemblerError::EmitterError(value)
    }
}

impl From<SplitError> for AssemblerError {
    fn from(value: SplitError) -> (r: Self) {
        AssemblerError::RegSplitError(value)
    }
}

impl vstd::std_specs::convert::FromSpecImpl<SplitError> for AssemblerError {
    open spec fn obeys_from_spec() -> bool {
        true
    }

    open spec fn from_spec(value: SplitError) -> Self {
        AssemblerError::RegSplitError(value)
    }
}

impl From<RegConversionError> for AssemblerError {
    fn from(value: RegConversionError) -> (r: Self) {
        AssemblerError::ConversionError(value)
    }
}

impl vstd::std_specs::convert::FromSpecImpl<RegConversionError> for AssemblerError {
    open spec fn obeys_from_spec() -> bool {
        true
    }

    open spec fn from_spec(value: RegConversionError) -> Self {
        AssemblerError::ConversionError(value)
    }
}

impl From<GpRegister> for R8Arg {
    fn from(value: GpRegister) -> (r: Self) {
        R8Arg::GpRegister(value)
    }
}

impl vstd::std_specs::convert::FromSpecImpl<GpRegister> for R8Arg {
    open spec fn obeys_from_spec() -> bool {
        true
    }

    open spec fn from_spec(value: GpRegister) -> Self {
        R8Arg::GpRegister(value)
    }
}

impl From<RegisterPair> for R16Arg {
    fn from(value: RegisterPair) -> (r: Self) {
        R16Arg::RegisterPair(value)
    }
}

impl vstd::std_specs::convert::FromSpecImpl<RegisterPair> for R16Arg {
    open spec fn obeys_from_spec() -> bool {
        true
    }

    open spec fn from_spec(value: RegisterPair) -> Self {
        R16Arg::RegisterPair(value)
    }
}

impl From<IndirectPair> for IndirectArg {
    fn from(value: IndirectPair) -> (r: Self) {
        IndirectArg::IndirectPair(value)
    }
}

impl vstd::std_specs::convert::FromSpecImpl<IndirectPair> for IndirectArg {
    open spec fn obeys_from_spec() -> bool {
        true
    }

    open spec fn from_spec(value: IndirectPair) -> Self {
        IndirectArg::IndirectPair(value)
    }
}

impl From<StackPair> for StackArg {
    fn from(value: StackPair) -> (r: Self) {
        StackArg::StackPair(value)
    }
}

impl vstd::std_specs::convert::FromSpecImpl<StackPair> for StackArg {
    open spec fn obeys_from_spec() -> bool {
        true
    }

    open spec fn from_spec(value: StackPair) -> Self {
        StackArg::StackPair(value)
    }
}

} // verus!
