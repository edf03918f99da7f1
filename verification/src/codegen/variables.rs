//! Where a value lives: nowhere yet, in a register, or in memory.
use vstd::prelude::*;

use crate::codegen::allocator::{ConstAllocator, GpRegisters, RcRegVariable};
use crate::codegen::assembler::{Assembler, BlockAssembler, Context};
use crate::codegen::meta_instr::VarOrConst;
use crate::codegen::selection::{
    spec_crement_var, spec_jr_nz_var, spec_ld_a_from_var_ind, spec_ld_var_from_ind,
    spec_ld_var_to_ind, spec_load_var, spec_promoted_var, spec_set_var, spec_store_var,
};
use crate::codegen::AssemblerError;
use crate::cpu::{GpRegister, RegisterPair};
use crate::memory::Addr;

verus! {

/// The number of an identifier.
pub type IdInner = usize;

/// Identifier of a variable or constant. `Unset` marks a register that was
/// taken without a variable behind it.
#[derive(Clone, Copy, Debug, PartialEq, Eq, Hash, Structural)]
pub enum Id {
    Unset,
    Assigned(IdInner),
}

impl Default for Id {
    fn default() -> (r: Self)
        ensures
            r == Id::Unset,
    {
        Id::Unset
    }
}

/// A constant whose bytes lie in ROM.
#[derive(Clone, Copy, Debug, PartialEq, Eq, Structural)]
pub struct StoredConstant {
    pub id: Id,
    pub addr: Addr,
    pub len: u16,
}

/// A constant: an immediate, or the address of stored bytes.
#[derive(Clone, Copy, Debug, PartialEq, Eq, Structural)]
pub enum Constant {
    Inline8(u8),
    Inline16(u16),
    Addr(StoredConstant),
}

/// A variable as far as registers are concerned, without a share in any
/// register's reference count.
#[derive(Clone, Copy, Debug, PartialEq, Eq, Structural)]
pub enum RawRegVariable {
    UnallocatedR8(Id),
    UnallocatedR16(Id),
    R8 { reg: GpRegister, id: Id },
    R16 { reg_pair: RegisterPair, id: Id },
    MemR8 { addr: Addr, reg: GpRegister, id: Id },
    MemR16 { addr: Addr, reg_pair: RegisterPair, id: Id },
}

/// A variable in registers: counted (`Rc`) or not (`Raw`).
#[derive(Debug, PartialEq, Eq, Structural)]
pub enum RegVariable {
    Rc(RcRegVariable),
    Raw(RawRegVariable),
}

/// A variable that lives in RAM.
#[derive(Clone, Copy, Debug, PartialEq, Eq, Structural)]
pub struct MemoryVariable {
    pub addr: Addr,
    pub len: u16,
    pub id: Id,
}

/// A variable. One that holds a counted register owns one reference to it.
#[derive(Debug, PartialEq, Eq, Structural)]
pub enum Variable {
    Unallocated { len: u16, id: Id },
    Reg(RegVariable),
    Memory(MemoryVariable),
}

/// A variable without a share in any register's reference count.
#[derive(Clone, Copy, Debug, PartialEq, Eq, Structural)]
pub enum RawVariable {
    Unallocated { len: u16, id: Id },
    Reg(RawRegVariable),
    Memory(MemoryVariable),
}

/// One register or one register pair.
#[derive(Clone, Copy, Debug, PartialEq, Eq, Structural)]
pub enum RegSelector {
    R8(GpRegister),
    R16(RegisterPair),
}

impl RawRegVariable {
    /// The memory behind a variable lies within the address space.
    pub open spec fn spec_wf(self) -> bool {
        match self {
            RawRegVariable::MemR8 { addr, .. } => addr + 1 <= 0x10000,
            RawRegVariable::MemR16 { addr, .. } => addr + 2 <= 0x10000,
            _ => true,
        }
    }

    /// The register of a variable of one byte that lives in one.
    pub open spec fn spec_reg8(self) -> Option<GpRegister> {
        match self {
            RawRegVariable::R8 { reg, .. } | RawRegVariable::MemR8 { reg, .. } => Some(reg),
            _ => None,
        }
    }

    /// The pair of a variable of two bytes that lives in one.
    pub open spec fn spec_reg16(self) -> Option<RegisterPair> {
        match self {
            RawRegVariable::R16 { reg_pair, .. } | RawRegVariable::MemR16 { reg_pair, .. } => Some(
                reg_pair,
            ),
            _ => None,
        }
    }

    /// The number of bytes of the variable.
    pub open spec fn spec_len(self) -> u16 {
        match self {
            RawRegVariable::UnallocatedR8(_)
            | RawRegVariable::R8 { .. }
            | RawRegVariable::MemR8 { .. } => 1,
            _ => 2,
        }
    }

    pub fn len(&self) -> (r: u16)
        ensures
            r == self.spec_len(),
    {
        match self {
            RawRegVariable::UnallocatedR8(_)
            | RawRegVariable::R8 { .. }
            | RawRegVariable::MemR8 { .. } => 1,
            _ => 2,
        }
    }

    /// The register or pair that the variable occupies, if it has one.
    pub open spec fn spec_selector(self) -> Option<RegSelector> {
        match self {
            RawRegVariable::R8 { reg, .. } | RawRegVariable::MemR8 { reg, .. } => Some(
                RegSelector::R8(reg),
            ),
            RawRegVariable::R16 { reg_pair, .. } | RawRegVariable::MemR16 { reg_pair, .. } => Some(
                RegSelector::R16(reg_pair),
            ),
            RawRegVariable::UnallocatedR8(_) | RawRegVariable::UnallocatedR16(_) => None,
        }
    }

    pub fn selector(&self) -> (r: Option<RegSelector>)
        ensures
            r == self.spec_selector(),
    {
        match self {
            RawRegVariable::R8 { reg, .. } | RawRegVariable::MemR8 { reg, .. } => Some(
                RegSelector::R8(*reg),
            ),
            RawRegVariable::R16 { reg_pair, .. } | RawRegVariable::MemR16 { reg_pair, .. } => Some(
                RegSelector::R16(*reg_pair),
            ),
            RawRegVariable::UnallocatedR8(_) | RawRegVariable::UnallocatedR16(_) => None,
        }
    }

    /// The variable's identifier.
    pub open spec fn spec_id(self) -> Id {
        match self {
            RawRegVariable::UnallocatedR8(id) | RawRegVariable::UnallocatedR16(id) => id,
            RawRegVariable::R8 { id, .. } | RawRegVariable::R16 { id, .. } => id,
            RawRegVariable::MemR8 { id, .. } | RawRegVariable::MemR16 { id, .. } => id,
        }
    }

    pub fn id(&self) -> (r: Id)
        ensures
            r == self.spec_id(),
    {
        match self {
            RawRegVariable::UnallocatedR8(id) | RawRegVariable::UnallocatedR16(id) => *id,
            RawRegVariable::R8 { id, .. } | RawRegVariable::R16 { id, .. } => *id,
            RawRegVariable::MemR8 { id, .. } | RawRegVariable::MemR16 { id, .. } => *id,
        }
    }

    /// True if no register has been chosen for the variable.
    pub open spec fn spec_is_unallocated(self) -> bool {
        self is UnallocatedR8 || self is UnallocatedR16
    }

}

impl RegVariable {
    /// The variable without its share in the reference count.
    pub open spec fn spec_inner(self) -> RawRegVariable {
        match self {
            RegVariable::Rc(rc) => rc.inner,
            RegVariable::Raw(inner) => inner,
        }
    }

    /// Reads where the variable lives. The reference count is left alone.
    pub fn inner(&self) -> (raw: RawRegVariable)
        ensures
            raw == self.spec_inner(),
    {
        match self {
            RegVariable::Rc(rc) => rc.inner,
            RegVariable::Raw(inner) => *inner,
        }
    }

}

impl Variable {
    /// The variable without its share in any reference count.
    pub open spec fn spec_raw(self) -> RawVariable {
        match self {
            Variable::Unallocated { len, id } => RawVariable::Unallocated { len, id },
            Variable::Reg(value) => RawVariable::Reg(value.spec_inner()),
            Variable::Memory(var) => RawVariable::Memory(var),
        }
    }

    /// The register or pair in whose reference count the variable has a share.
    pub open spec fn spec_counted(self) -> Option<RegSelector> {
        match self {
            Variable::Reg(RegVariable::Rc(rc)) => rc.inner.spec_selector(),
            _ => None,
        }
    }

    /// Reads where the variable lives. The reference count is left alone.
    pub fn as_raw(&self) -> (raw: RawVariable)
        ensures
            raw == self.spec_raw(),
    {
        match self {
            Variable::Unallocated { len, id } => RawVariable::Unallocated { len: *len, id: *id },
            Variable::Reg(value) => RawVariable::Reg(value.inner()),
            Variable::Memory(var) => RawVariable::Memory(*var),
        }
    }

    /// Gives up the variable's share in its register's reference count: the
    /// register stays taken and is no longer released by counting. The caller
    /// answers for releasing it. Nothing changes if the register has gone to
    /// another variable.
    pub fn into_raw(self, registers: &mut GpRegisters) -> (raw: RawVariable)
        ensures
            raw == self.spec_raw(),
            *final(registers) == match self {
                Variable::Reg(RegVariable::Rc(rc)) => old(registers).spec_uncount_var(rc.inner),
                _ => *old(registers),
            },
    {
        match self {
            Variable::Unallocated { len, id } => RawVariable::Unallocated { len, id },
            Variable::Reg(value) => match value {
                RegVariable::Rc(var) => RawVariable::Reg(var.into_raw(registers)),
                RegVariable::Raw(var) => RawVariable::Reg(var),
            },
            Variable::Memory(var) => RawVariable::Memory(var),
        }
    }

}

impl RawVariable {
    /// The number of bytes of the variable.
    pub open spec fn spec_len(self) -> u16 {
        match self {
            RawVariable::Unallocated { len, .. } => len,
            RawVariable::Reg(var) => var.spec_len(),
            RawVariable::Memory(var) => var.len,
        }
    }

    pub fn len(&self) -> (r: u16)
        ensures
            r == self.spec_len(),
    {
        match self {
            RawVariable::Unallocated { len, .. } => *len,
            RawVariable::Reg(var) => var.len(),
            RawVariable::Memory(var) => var.len,
        }
    }

    /// True if the memory of the variable lies within the address space.
    pub fn is_wf(&self) -> (r: bool)
        ensures
            r == self.spec_wf(),
    {
        match self {
            RawVariable::Unallocated { .. } => true,
            RawVariable::Reg(RawRegVariable::MemR16 { addr, .. }) => *addr < 0xffff,
            RawVariable::Reg(_) => true,
            RawVariable::Memory(var) => var.len as u32 <= 0x10000 - var.addr as u32,
        }
    }

    /// A variable in memory lies within the address space.
    pub open spec fn spec_wf(self) -> bool {
        match self {
            RawVariable::Unallocated { .. } => true,
            RawVariable::Reg(var) => var.spec_wf(),
            RawVariable::Memory(var) => var.addr + var.len <= 0x10000,
        }
    }

    /// The variable's identifier.
    pub open spec fn spec_id(self) -> Id {
        match self {
            RawVariable::Unallocated { id, .. } => id,
            RawVariable::Reg(var) => var.spec_id(),
            RawVariable::Memory(var) => var.id,
        }
    }

    /// True if the variable has neither a register nor a memory cell.
    pub open spec fn spec_is_unallocated(self) -> bool {
        match self {
            RawVariable::Unallocated { .. } => true,
            RawVariable::Reg(var) => var.spec_is_unallocated(),
            RawVariable::Memory(_) => false,
        }
    }

    pub fn is_unallocated(&self) -> (r: bool)
        ensures
            r == self.spec_is_unallocated(),
    {
        match self {
            RawVariable::Unallocated { .. } => true,
            RawVariable::Reg(RawRegVariable::UnallocatedR8(_)) => true,
            RawVariable::Reg(RawRegVariable::UnallocatedR16(_)) => true,
            RawVariable::Reg(_) => false,
            RawVariable::Memory(_) => false,
        }
    }

}

impl From<GpRegister> for RawRegVariable {
    /// A variable that stands for a bare register.
    fn from(value: GpRegister) -> (r: Self) {
        RawRegVariable::R8 { reg: value, id: Id::Unset }
    }
}

impl vstd::std_specs::convert::FromSpecImpl<GpRegister> for RawRegVariable {
    open spec fn obeys_from_spec() -> bool {
        true
    }

    open spec fn from_spec(value: GpRegister) -> Self {
        RawRegVariable::R8 { reg: value, id: Id::Unset }
    }
}

impl From<RegisterPair> for RawRegVariable {
    /// A variable that stands for a bare register pair.
    fn from(value: RegisterPair) -> (r: Self) {
        RawRegVariable::R16 { reg_pair: value, id: Id::Unset }
    }
}

impl vstd::std_specs::convert::FromSpecImpl<RegisterPair> for RawRegVariable {
    open spec fn obeys_from_spec() -> bool {
        true
    }

    open spec fn from_spec(value: RegisterPair) -> Self {
        RawRegVariable::R16 { reg_pair: value, id: Id::Unset }
    }
}

impl From<RcRegVariable> for RegVariable {
    fn from(value: RcRegVariable) -> (r: Self) {
        RegVariable::Rc(value)
    }
}

impl vstd::std_specs::convert::FromSpecImpl<RcRegVariable> for RegVariable {
    open spec fn obeys_from_spec() -> bool {
        true
    }

    open spec fn from_spec(value: RcRegVariable) -> Self {
        RegVariable::Rc(value)
    }
}

impl From<RawRegVariable> for RegVariable {
    fn from(value: RawRegVariable) -> (r: Self) {
        RegVariable::Raw(value)
    }
}

impl vstd::std_specs::convert::FromSpecImpl<RawRegVariable> for RegVariable {
    open spec fn obeys_from_spec() -> bool {
        true
    }

    open spec fn from_spec(value: RawRegVariable) -> Self {
        RegVariable::Raw(value)
    }
}

impl From<RawVariable> for Variable {
    /// The variable of a raw one: it has no share in any reference count.
    fn from(value: RawVariable) -> (r: Self) {
        match value {
            RawVariable::Unallocated { len, id } => Variable::Unallocated { len, id },
            RawVariable::Reg(var) => Variable::Reg(RegVariable::Raw(var)),
            RawVariable::Memory(var) => Variable::Memory(var),
        }
    }
}

impl vstd::std_specs::convert::FromSpecImpl<RawVariable> for Variable {
    open spec fn obeys_from_spec() -> bool {
        true
    }

    open spec fn from_spec(value: RawVariable) -> Self {
        match value {
            RawVariable::Unallocated { len, id } => Variable::Unallocated { len, id },
            RawVariable::Reg(var) => Variable::Reg(RegVariable::Raw(var)),
            RawVariable::Memory(var) => Variable::Memory(var),
        }
    }
}

impl From<RegVariable> for Variable {
    fn from(value: RegVariable) -> (r: Self) {
        Variable::Reg(value)
    }
}

impl vstd::std_specs::convert::FromSpecImpl<RegVariable> for Variable {
    open spec fn obeys_from_spec() -> bool {
        true
    }

    open spec fn from_spec(value: RegVariable) -> Self {
        Variable::Reg(value)
    }
}

impl From<MemoryVariable> for Variable {
    fn from(value: MemoryVariable) -> (r: Self) {
        Variable::Memory(value)
    }
}

impl vstd::std_specs::convert::FromSpecImpl<MemoryVariable> for Variable {
    open spec fn obeys_from_spec() -> bool {
        true
    }

    open spec fn from_spec(value: MemoryVariable) -> Self {
        Variable::Memory(value)
    }
}

impl From<RawRegVariable> for RawVariable {
    fn from(value: RawRegVariable) -> (r: Self) {
        RawVariable::Reg(value)
    }
}

impl vstd::std_specs::convert::FromSpecImpl<RawRegVariable> for RawVariable {
    open spec fn obeys_from_spec() -> bool {
        true
    }

    open spec fn from_spec(value: RawRegVariable) -> Self {
        RawVariable::Reg(value)
    }
}

impl From<MemoryVariable> for RawVariable {
    fn from(value: MemoryVariable) -> (r: Self) {
        RawVariable::Memory(value)
    }
}

impl vstd::std_specs::convert::FromSpecImpl<MemoryVariable> for RawVariable {
    open spec fn obeys_from_spec() -> bool {
        true
    }

    open spec fn from_spec(value: MemoryVariable) -> Self {
        RawVariable::Memory(value)
    }
}

impl From<GpRegister> for RegSelector {
    fn from(value: GpRegister) -> (r: Self) {
        RegSelector::R8(value)
    }
}

impl vstd::std_specs::convert::FromSpecImpl<GpRegister> for RegSelector {
    open spec fn obeys_from_spec() -> bool {
        true
    }

    open spec fn from_spec(value: GpRegister) -> Self {
        RegSelector::R8(value)
    }
}

impl From<RegisterPair> for RegSelector {
    fn from(value: RegisterPair) -> (r: Self) {
        RegSelector::R16(value)
    }
}

impl vstd::std_specs::convert::FromSpecImpl<RegisterPair> for RegSelector {
    open spec fn obeys_from_spec() -> bool {
        true
    }

    open spec fn from_spec(value: RegisterPair) -> Self {
        RegSelector::R16(value)
    }
}

/// The operations on variables. Each selects its instructions from the state
/// of the allocator and appends them to the block; what it selects is said by
/// the function of the same name in `selection`. A variable whose register
/// has gone to another is used in the memory that it was moved to; where there
/// is no such memory the operation fails with `ArgumentError` and changes
/// nothing.
pub trait Variabler: Assembler + BlockAssembler + Context {
    /// A new variable of `len` bytes, without a home.
    fn new_var(&mut self, len: u16) -> (var: Variable)
        requires
            old(self).model().next_id < usize::MAX,
        ensures
            final(self).spec_condition() == old(self).spec_condition(),
            var == (Variable::Unallocated { len, id: Id::Assigned(old(self).model().next_id) }),
            final(self).model() == old(self).model().with_next_id(),
    ;

    /// Makes `var` available in registers and returns where it is. A variable in
    /// memory is loaded; the result then holds the one reference to its register.
    fn load_var(&mut self, alloc: &mut ConstAllocator, var: &Variable) -> (r: Result<RegVariable, AssemblerError>)
        requires
            old(alloc)@.wf(),
            var.spec_raw().spec_wf(),
        ensures
            final(self).spec_condition() == old(self).spec_condition(),
            r == spec_load_var(old(alloc)@, *var).result,
            final(alloc)@ == spec_load_var(old(alloc)@, *var).alloc,
            final(self).model() == old(self).model().append(spec_load_var(old(alloc)@, *var).code),
            final(alloc)@.wf(),
    ;

    /// Gives `var` a home in memory and returns it. A variable that lives in
    /// registers alone is stored in new cells of RAM.
    fn store_var(&mut self, alloc: &mut ConstAllocator, var: &Variable) -> (r: Result<MemoryVariable, AssemblerError>)
        requires
            old(alloc)@.wf(),
        ensures
            final(self).spec_condition() == old(self).spec_condition(),
            r == spec_store_var(old(alloc)@, *var).result,
            final(alloc)@ == spec_store_var(old(alloc)@, *var).alloc,
            final(self).model() == old(self).model().append(spec_store_var(old(alloc)@, *var).code),
            final(alloc)@.wf(),
    ;

    /// Stores the value of `var` at the address `dest`.
    fn ld_var_to_ind(&mut self, alloc: &mut ConstAllocator, var: &Variable, dest: Addr) -> (r: Result<(), AssemblerError>)
        requires
            old(alloc)@.wf(),
            var.spec_raw().spec_wf(),
            var.spec_raw().spec_len() == 2 ==> dest < u16::MAX,
        ensures
            final(self).spec_condition() == old(self).spec_condition(),
            r == spec_ld_var_to_ind(old(alloc)@, *var, dest).result,
            final(alloc)@ == spec_ld_var_to_ind(old(alloc)@, *var, dest).alloc,
            final(self).model() == old(self).model().append(spec_ld_var_to_ind(old(alloc)@, *var, dest).code),
            final(alloc)@.wf(),
    ;

    /// Loads the value of `var` from the address `src`.
    fn ld_var_from_ind(&mut self, alloc: &mut ConstAllocator, var: &Variable, src: Addr) -> (r: Result<(), AssemblerError>)
        requires
            old(alloc)@.wf(),
            var.spec_raw().spec_wf(),
            var.spec_raw().spec_len() == 2 ==> src < u16::MAX,
        ensures
            final(self).spec_condition() == old(self).spec_condition(),
            r == spec_ld_var_from_ind(old(alloc)@, *var, src).result,
            final(alloc)@ == spec_ld_var_from_ind(old(alloc)@, *var, src).alloc,
            final(self).model() == old(self).model().append(spec_ld_var_from_ind(old(alloc)@, *var, src).code),
            final(alloc)@.wf(),
    ;

    /// Decrements `var`.
    fn dec_var(&mut self, alloc: &mut ConstAllocator, var: &Variable) -> (r: Result<(), AssemblerError>)
        requires
            old(alloc)@.wf(),
            var.spec_raw().spec_wf(),
        ensures
            final(self).spec_condition() == old(self).spec_condition(),
            r == spec_crement_var(old(alloc)@, *var, false).result,
            final(alloc)@ == spec_crement_var(old(alloc)@, *var, false).alloc,
            final(self).model() == old(self).model().append(spec_crement_var(old(alloc)@, *var, false).code),
            final(alloc)@.wf(),
    ;

    /// Increments `var`.
    fn inc_var(&mut self, alloc: &mut ConstAllocator, var: &Variable) -> (r: Result<(), AssemblerError>)
        requires
            old(alloc)@.wf(),
            var.spec_raw().spec_wf(),
        ensures
            final(self).spec_condition() == old(self).spec_condition(),
            r == spec_crement_var(old(alloc)@, *var, true).result,
            final(alloc)@ == spec_crement_var(old(alloc)@, *var, true).alloc,
            final(self).model() == old(self).model().append(spec_crement_var(old(alloc)@, *var, true).code),
            final(alloc)@.wf(),
    ;

    /// Loads the byte that the value of `var` points to into `a`.
    fn ld_a_from_var_ind(&mut self, alloc: &mut ConstAllocator, var: &Variable) -> (r: Result<(), AssemblerError>)
        requires
            old(alloc)@.wf(),
            var.spec_raw().spec_wf(),
        ensures
            final(self).spec_condition() == old(self).spec_condition(),
            r == spec_ld_a_from_var_ind(old(alloc)@, *var).result,
            final(alloc)@ == spec_ld_a_from_var_ind(old(alloc)@, *var).alloc,
            final(self).model() == old(self).model().append(spec_ld_a_from_var_ind(old(alloc)@, *var).code),
            final(alloc)@.wf(),
    ;

    /// Jumps by `imm` bytes if `var` is not zero.
    fn jr_nz_var(&mut self, alloc: &mut ConstAllocator, var: &Variable, imm: i8) -> (r: Result<(), AssemblerError>)
        requires
            old(alloc)@.wf(),
            var.spec_raw().spec_wf(),
        ensures
            final(self).spec_condition() == old(self).spec_condition(),
            r == spec_jr_nz_var(old(alloc)@, *var, imm).result,
            final(alloc)@ == spec_jr_nz_var(old(alloc)@, *var, imm).alloc,
            final(self).model() == old(self).model().append(spec_jr_nz_var(old(alloc)@, *var, imm).code),
            final(alloc)@.wf(),
    ;

    /// Sets `var` to `value`. A variable without a register is given one; it
    /// then holds the one reference to it.
    fn set_var(&mut self, alloc: &mut ConstAllocator, var: &mut Variable, value: &VarOrConst) -> (r:
        Result<(), AssemblerError>)
        requires
            old(alloc)@.wf(),
            value matches VarOrConst::Var(src) ==> src.spec_wf(),
        ensures
            final(self).spec_condition() == old(self).spec_condition(),
            r == spec_set_var(old(alloc)@, *old(var), *value).result,
            final(alloc)@ == spec_set_var(old(alloc)@, *old(var), *value).alloc,
            final(self).model() == old(self).model().append(
                spec_set_var(old(alloc)@, *old(var), *value).code,
            ),
            *final(var) == spec_promoted_var(old(alloc)@, *old(var), *value),
            final(alloc)@.wf(),
    ;
}

} // verus!
