//! Placeholders for operations whose operands had no home when they were emitted.
use vstd::prelude::*;

use crate::codegen::variables::{Constant, RawVariable};

verus! {

/// A source operand: a variable or a constant.
#[derive(Clone, Copy, Debug, PartialEq, Eq, Structural)]
pub enum VarOrConst {
    Var(RawVariable),
    Const(Constant),
}

/// A placeholder in the instruction stream. It is rewritten into machine
/// instructions before the stream is written out.
#[derive(Clone, Copy, Debug, PartialEq, Eq, Structural)]
pub enum MetaInstruction {
    VarSet { dest: RawVariable, src: VarOrConst },
    VarFromInd { dest: RawVariable, src: RawVariable },
    VarToInd { dest: RawVariable, src: RawVariable },
    VarAdd { lhs: RawVariable, rhs: RawVariable },
    VarInc { var: RawVariable },
    VarSub { lhs: RawVariable, rhs: RawVariable },
    VarDec { var: RawVariable },
}

/// The constructors of placeholders, one for each operation on variables.
pub trait MetaInstructionTrait: Sized {
    /// The placeholder that a value stands for.
    spec fn meta(&self) -> MetaInstruction;

    fn set_var(dest: RawVariable, src: VarOrConst) -> (r: Self)
        ensures
            r.meta() == (MetaInstruction::VarSet { dest, src }),
    ;

    fn var_from_ind(dest: RawVariable, src: RawVariable) -> (r: Self)
        ensures
            r.meta() == (MetaInstruction::VarFromInd { dest, src }),
    ;

    fn var_to_ind(dest: RawVariable, src: RawVariable) -> (r: Self)
        ensures
            r.meta() == (MetaInstruction::VarToInd { dest, src }),
    ;

    fn add_var(lhs: RawVariable, rhs: RawVariable) -> (r: Self)
        ensures
            r.meta() == (MetaInstruction::VarAdd { lhs, rhs }),
    ;

    fn inc_var(var: RawVariable) -> (r: Self)
        ensures
            r.meta() == (MetaInstruction::VarInc { var }),
    ;

    fn sub_var(lhs: RawVariable, rhs: RawVariable) -> (r: Self)
        ensures
            r.meta() == (MetaInstruction::VarSub { lhs, rhs }),
    ;

    fn dec_var(var: RawVariable) -> (r: Self)
        ensures
            r.meta() == (MetaInstruction::VarDec { var }),
    ;
}

impl MetaInstructionTrait for MetaInstruction {
    open spec fn meta(&self) -> MetaInstruction {
        *self
    }

    fn set_var(dest: RawVariable, src: VarOrConst) -> (r: Self) {
        MetaInstruction::VarSet { dest, src }
    }

    fn var_from_ind(dest: RawVariable, src: RawVariable) -> (r: Self) {
        MetaInstruction::VarFromInd { dest, src }
    }

    fn var_to_ind(dest: RawVariable, src: RawVariable) -> (r: Self) {
        MetaInstruction::VarToInd { dest, src }
    }

    fn add_var(lhs: RawVariable, rhs: RawVariable) -> (r: Self) {
        MetaInstruction::VarAdd { lhs, rhs }
    }

    fn inc_var(var: RawVariable) -> (r: Self) {
        MetaInstruction::VarInc { var }
    }

    fn sub_var(lhs: RawVariable, rhs: RawVariable) -> (r: Self) {
        MetaInstruction::VarSub { lhs, rhs }
    }

    fn dec_var(var: RawVariable) -> (r: Self) {
        MetaInstruction::VarDec { var }
    }
}

impl MetaInstruction {
    /// The variable that a placeholder is reported under when it reaches the
    /// encoder: its first operand without a home, or else its first operand.
    pub open spec fn spec_subject(self) -> RawVariable {
        match self {
            MetaInstruction::VarSet { dest, src } => match src {
                VarOrConst::Var(v) => if dest.spec_is_unallocated() || !v.spec_is_unallocated() {
                    dest
                } else {
                    v
                },
                VarOrConst::Const(_) => dest,
            },
            MetaInstruction::VarFromInd { dest: a, src: b }
            | MetaInstruction::VarToInd { dest: a, src: b }
            | MetaInstruction::VarAdd { lhs: a, rhs: b }
            | MetaInstruction::VarSub { lhs: a, rhs: b } => if a.spec_is_unallocated()
                || !b.spec_is_unallocated() {
                a
            } else {
                b
            },
            MetaInstruction::VarInc { var } | MetaInstruction::VarDec { var } => var,
        }
    }

    pub fn subject(&self) -> (r: RawVariable)
        ensures
            r == self.spec_subject(),
    {
        match self {
            MetaInstruction::VarSet { dest, src } => match src {
                VarOrConst::Var(v) => if dest.is_unallocated() || !v.is_unallocated() {
                    *dest
                } else {
                    *v
                },
                VarOrConst::Const(_) => *dest,
            },
            MetaInstruction::VarFromInd { dest: a, src: b }
            | MetaInstruction::VarToInd { dest: a, src: b }
            | MetaInstruction::VarAdd { lhs: a, rhs: b }
            | MetaInstruction::VarSub { lhs: a, rhs: b } => if a.is_unallocated()
                || !b.is_unallocated() {
                *a
            } else {
                *b
            },
            MetaInstruction::VarInc { var } | MetaInstruction::VarDec { var } => *var,
        }
    }
}

} // verus!
