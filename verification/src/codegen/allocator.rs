//! The register file, the two bump arenas and the handles to registers.
//!
//! A register that is handed out carries a reference count. A handle stands for
//! one reference: `clone` adds one, `drop` gives one back, and the register is
//! free again when the last reference is gone. `into_raw` takes a register out
//! of the counting; it then stays taken until it is freed by name.
use vstd::prelude::*;

use crate::codegen::variables::{
    Id, MemoryVariable, RawRegVariable, RegSelector, RegVariable, Variable,
};
use crate::cpu::{GpRegister, RegisterPair, SplitError};
use crate::memory::Addr;

verus! {

/// What the register file knows of one register: nothing if it is free, else
/// who holds it and how many references there are (`None`: not counted).
pub type RegSlot = Option<(Id, Option<usize>)>;

/// The slot of a register that was just handed out for `id`.
pub open spec fn spec_fresh_slot(id: Id) -> RegSlot {
    Some((id, Some(1usize)))
}

/// A slot after one reference was added (`up`) or given back.
pub open spec fn spec_crement_slot(slot: RegSlot, up: bool) -> RegSlot {
    match slot {
        None => None,
        Some((id, None)) => Some((id, None)),
        Some((id, Some(rc))) => if up {
            Some((id, Some((rc + 1) as usize)))
        } else if rc <= 1 {
            None
        } else {
            Some((id, Some((rc - 1) as usize)))
        },
    }
}

/// True if one more reference to the slot can be counted.
pub open spec fn spec_slot_can_grow(slot: RegSlot) -> bool {
    slot matches Some((_, Some(rc))) ==> rc < usize::MAX
}

/// A slot taken out of the counting.
pub open spec fn spec_release_slot(slot: RegSlot) -> RegSlot {
    match slot {
        None => None,
        Some((id, _)) => Some((id, None)),
    }
}

/// A counted slot holds at least one reference.
pub open spec fn spec_slot_wf(slot: RegSlot) -> bool {
    slot matches Some((_, Some(rc))) ==> rc >= 1
}

/// True if the slot is free, uncounted, or holds at least one reference.
/// True if the slot is taken under the identifier `id`.
pub open spec fn spec_slot_is_of(slot: RegSlot, id: Id) -> bool {
    slot matches Some((holder, _)) && holder == id
}

pub fn slot_is_of(slot: RegSlot, id: Id) -> (r: bool)
    ensures
        r == spec_slot_is_of(slot, id),
{
    match slot {
        Some((holder, _)) => holder == id,
        None => false,
    }
}

pub fn slot_is_wf(slot: RegSlot) -> (r: bool)
    ensures
        r == spec_slot_wf(slot),
{
    match slot {
        Some((_, Some(rc))) => rc >= 1,
        _ => true,
    }
}

/// The register file.
#[derive(Clone, Debug, PartialEq, Eq)]
pub struct GpRegisters {
    pub a: RegSlot,
    pub b: RegSlot,
    pub c: RegSlot,
    pub d: RegSlot,
    pub e: RegSlot,
    pub h: RegSlot,
    pub l: RegSlot,
    /// Written when `IndHL` is named; never read.
    pub bleh: RegSlot,
}

/// Which way a reference count moves.
#[derive(Clone, Copy, Debug, PartialEq, Eq, Structural)]
pub enum Crementivity {
    Up,
    Down,
}

/// Why an allocation failed.
#[derive(Clone, Copy, Debug, PartialEq, Eq, Structural)]
pub enum ConstAllocError {
    OutOfMemory,
    OutOfRegisters,
    TooBigForRegister,
}

/// An error type that can report a value too wide for any register.
pub trait AllocErrorTrait: Sized {
    spec fn spec_oversized_load() -> Self;

    fn oversized_load() -> (r: Self)
        ensures
            r == Self::spec_oversized_load(),
    ;
}

impl AllocErrorTrait for ConstAllocError {
    open spec fn spec_oversized_load() -> Self {
        ConstAllocError::TooBigForRegister
    }

    fn oversized_load() -> (r: Self) {
        ConstAllocError::TooBigForRegister
    }
}

impl Default for GpRegisters {
    fn default() -> (r: Self)
        ensures
            r == GpRegisters::spec_empty(),
    {
        GpRegisters { a: None, b: None, c: None, d: None, e: None, h: None, l: None, bleh: None }
    }
}

impl GpRegisters {
    /// The register file with every register free.
    pub open spec fn spec_empty() -> GpRegisters {
        GpRegisters { a: None, b: None, c: None, d: None, e: None, h: None, l: None, bleh: None }
    }

    /// What is known of `reg`. `IndHL` is no register: it is always absent.
    pub open spec fn spec_slot(self, reg: GpRegister) -> RegSlot {
        match reg {
            GpRegister::A => self.a,
            GpRegister::B => self.b,
            GpRegister::C => self.c,
            GpRegister::D => self.d,
            GpRegister::E => self.e,
            GpRegister::H => self.h,
            GpRegister::L => self.l,
            GpRegister::IndHL => None,
        }
    }

    /// The register file with the slot of `reg` replaced.
    pub open spec fn spec_with(self, reg: GpRegister, slot: RegSlot) -> GpRegisters {
        match reg {
            GpRegister::A => GpRegisters { a: slot, ..self },
            GpRegister::B => GpRegisters { b: slot, ..self },
            GpRegister::C => GpRegisters { c: slot, ..self },
            GpRegister::D => GpRegisters { d: slot, ..self },
            GpRegister::E => GpRegisters { e: slot, ..self },
            GpRegister::H => GpRegisters { h: slot, ..self },
            GpRegister::L => GpRegisters { l: slot, ..self },
            GpRegister::IndHL => GpRegisters { bleh: slot, ..self },
        }
    }

    /// The register file with the slots of both halves of `pair` replaced; `SP`
    /// has no halves and leaves it as it is.
    pub open spec fn spec_with_pair(self, pair: RegisterPair, hi: RegSlot, lo: RegSlot) -> GpRegisters {
        match pair.spec_split() {
            Ok((reg1, reg2)) => self.spec_with(reg1, hi).spec_with(reg2, lo),
            Err(_) => self,
        }
    }

    pub open spec fn spec_is_free(self, reg: GpRegister) -> bool {
        self.spec_slot(reg) is None
    }

    /// A pair is free if and only if both halves are.
    pub open spec fn spec_pair_is_free(self, pair: RegisterPair) -> bool {
        match pair.spec_split() {
            Ok((reg1, reg2)) => self.spec_is_free(reg1) && self.spec_is_free(reg2),
            Err(_) => false,
        }
    }

    /// No counted register has a count of zero.
    pub open spec fn wf(self) -> bool {
        &&& spec_slot_wf(self.a)
        &&& spec_slot_wf(self.b)
        &&& spec_slot_wf(self.c)
        &&& spec_slot_wf(self.d)
        &&& spec_slot_wf(self.e)
        &&& spec_slot_wf(self.h)
        &&& spec_slot_wf(self.l)
    }

    /// The place of a register in the order in which `alloc_reg` looks for a free
    /// one: `A, B, C, D, E, H, L`.
    pub open spec fn spec_scan_index(reg: GpRegister) -> int {
        match reg {
            GpRegister::A => 0,
            GpRegister::B => 1,
            GpRegister::C => 2,
            GpRegister::D => 3,
            GpRegister::E => 4,
            GpRegister::H => 5,
            GpRegister::L => 6,
            GpRegister::IndHL => 7,
        }
    }

    /// The first free register in scan order.
    pub open spec fn spec_first_free(self) -> Option<GpRegister> {
        if self.a is None {
            Some(GpRegister::A)
        } else if self.b is None {
            Some(GpRegister::B)
        } else if self.c is None {
            Some(GpRegister::C)
        } else if self.d is None {
            Some(GpRegister::D)
        } else if self.e is None {
            Some(GpRegister::E)
        } else if self.h is None {
            Some(GpRegister::H)
        } else if self.l is None {
            Some(GpRegister::L)
        } else {
            None
        }
    }

    /// The first pair in the order `BC, DE, HL` whose halves are both free.
    pub open spec fn spec_first_free_pair(self) -> Option<RegisterPair> {
        if self.b is None && self.c is None {
            Some(RegisterPair::BC)
        } else if self.d is None && self.e is None {
            Some(RegisterPair::DE)
        } else if self.h is None && self.l is None {
            Some(RegisterPair::HL)
        } else {
            None
        }
    }

    /// The register file after `alloc_reg`.
    pub open spec fn spec_alloc(self) -> GpRegisters {
        match self.spec_first_free() {
            Some(reg) => self.spec_with(reg, spec_fresh_slot(Id::Unset)),
            None => self,
        }
    }

    /// The register file after `alloc_pair`.
    pub open spec fn spec_alloc_pair(self) -> GpRegisters {
        match self.spec_first_free_pair() {
            Some(pair) => self.spec_with_pair(
                pair,
                spec_fresh_slot(Id::Unset),
                spec_fresh_slot(Id::Unset),
            ),
            None => self,
        }
    }

    /// The register file after `free`.
    pub open spec fn spec_free(self, sel: RegSelector) -> GpRegisters {
        match sel {
            RegSelector::R8(reg) => self.spec_with(reg, None),
            RegSelector::R16(pair) => self.spec_with_pair(pair, None, None),
        }
    }

    /// True if the register is taken, or if a half of the pair is: a pair is
    /// free only if both halves are. `SP` is never taken.
    pub open spec fn spec_is_claimed(self, sel: RegSelector) -> bool {
        match sel {
            RegSelector::R8(reg) => !self.spec_is_free(reg),
            RegSelector::R16(pair) => match pair.spec_split() {
                Ok((reg1, reg2)) => !self.spec_is_free(reg1) || !self.spec_is_free(reg2),
                Err(_) => false,
            },
        }
    }

    /// The register file after one reference to `sel` was added (`up`) or given
    /// back. A register whose last reference is given back is free.
    pub open spec fn spec_crement_rc(self, sel: RegSelector, up: bool) -> GpRegisters {
        match sel {
            RegSelector::R8(reg) => self.spec_with(reg, spec_crement_slot(self.spec_slot(reg), up)),
            RegSelector::R16(pair) => match pair.spec_split() {
                Ok((reg1, reg2)) => self.spec_with_pair(
                    pair,
                    spec_crement_slot(self.spec_slot(reg1), up),
                    spec_crement_slot(self.spec_slot(reg2), up),
                ),
                Err(_) => self,
            },
        }
    }

    /// True if one more reference to `sel` can be counted.
    pub open spec fn spec_can_grow(self, sel: RegSelector) -> bool {
        match sel {
            RegSelector::R8(reg) => spec_slot_can_grow(self.spec_slot(reg)),
            RegSelector::R16(pair) => match pair.spec_split() {
                Ok((reg1, reg2)) => spec_slot_can_grow(self.spec_slot(reg1)) && spec_slot_can_grow(
                    self.spec_slot(reg2),
                ),
                Err(_) => false,
            },
        }
    }

    /// The register file after `sel` was taken out of the counting.
    pub open spec fn spec_release_rc(self, sel: RegSelector) -> GpRegisters {
        match sel {
            RegSelector::R8(reg) => self.spec_with(reg, spec_release_slot(self.spec_slot(reg))),
            RegSelector::R16(pair) => match pair.spec_split() {
                Ok((reg1, reg2)) => self.spec_with_pair(
                    pair,
                    spec_release_slot(self.spec_slot(reg1)),
                    spec_release_slot(self.spec_slot(reg2)),
                ),
                Err(_) => self,
            },
        }
    }

    /// True if the variable `raw` is where it says: its register, or each half
    /// of its pair, is taken under the variable's identifier. A variable loses
    /// its register when room is made for another. One without a register is
    /// where it says.
    pub open spec fn spec_holds(self, raw: RawRegVariable) -> bool {
        match raw.spec_selector() {
            None => true,
            Some(RegSelector::R8(reg)) => spec_slot_is_of(self.spec_slot(reg), raw.spec_id()),
            Some(RegSelector::R16(pair)) => match pair.spec_split() {
                Ok((reg1, reg2)) => spec_slot_is_of(self.spec_slot(reg1), raw.spec_id())
                    && spec_slot_is_of(self.spec_slot(reg2), raw.spec_id()),
                Err(_) => false,
            },
        }
    }

    /// The register file after a handle to the variable `raw` was given up:
    /// one reference less, if the variable is where it says; else unchanged.
    pub open spec fn spec_drop_var(self, raw: RawRegVariable) -> GpRegisters {
        match raw.spec_selector() {
            Some(sel) => if self.spec_holds(raw) {
                self.spec_crement_rc(sel, false)
            } else {
                self
            },
            None => self,
        }
    }

    /// The register file after a handle to the variable `raw` was copied: one
    /// reference more, if the variable is where it says; else unchanged.
    pub open spec fn spec_share_var(self, raw: RawRegVariable) -> GpRegisters {
        match raw.spec_selector() {
            Some(sel) => if self.spec_holds(raw) {
                self.spec_crement_rc(sel, true)
            } else {
                self
            },
            None => self,
        }
    }

    /// The register file after the variable `raw` was taken out of the
    /// counting, if it is where it says; else unchanged.
    pub open spec fn spec_uncount_var(self, raw: RawRegVariable) -> GpRegisters {
        match raw.spec_selector() {
            Some(sel) => if self.spec_holds(raw) {
                self.spec_release_rc(sel)
            } else {
                self
            },
            None => self,
        }
    }

    /// The register file after the uncounted variable `raw` was given up: its
    /// register is free, whatever its count, if the variable is where it says
    /// or names the register under no identifier; else nothing changes.
    pub open spec fn spec_free_var(self, raw: RawRegVariable) -> GpRegisters {
        match raw.spec_selector() {
            Some(sel) => if raw.spec_id() is Unset || self.spec_holds(raw) {
                self.spec_free(sel)
            } else {
                self
            },
            None => self,
        }
    }

    /// True if the variable `raw` is where it says.
    pub fn holds(&self, raw: &RawRegVariable) -> (r: bool)
        ensures
            r == self.spec_holds(*raw),
    {
        match raw.selector() {
            None => true,
            Some(RegSelector::R8(reg)) => slot_is_of(self.index(reg), raw.id()),
            Some(RegSelector::R16(pair)) => match pair.try_split() {
                Ok((reg1, reg2)) => slot_is_of(self.index(reg1), raw.id()) && slot_is_of(
                    self.index(reg2),
                    raw.id(),
                ),
                Err(_) => false,
            },
        }
    }

    /// True if no counted register has a count of zero.
    pub fn is_wf(&self) -> (r: bool)
        ensures
            r == self.wf(),
    {
        slot_is_wf(self.a) && slot_is_wf(self.b) && slot_is_wf(self.c) && slot_is_wf(self.d)
            && slot_is_wf(self.e) && slot_is_wf(self.h) && slot_is_wf(self.l)
    }

    /// A copy of the register file.
    pub fn snapshot(&self) -> (r: GpRegisters)
        ensures
            r == *self,
    {
        GpRegisters {
            a: self.a,
            b: self.b,
            c: self.c,
            d: self.d,
            e: self.e,
            h: self.h,
            l: self.l,
            bleh: self.bleh,
        }
    }

    /// Reads the slot of a register.
    pub fn index(&self, index: GpRegister) -> (slot: RegSlot)
        ensures
            slot == self.spec_slot(index),
    {
        match index {
            GpRegister::A => self.a,
            GpRegister::B => self.b,
            GpRegister::C => self.c,
            GpRegister::D => self.d,
            GpRegister::E => self.e,
            GpRegister::H => self.h,
            GpRegister::L => self.l,
            GpRegister::IndHL => None,
        }
    }

    /// The slot of a register, to be written.
    pub fn index_mut(&mut self, index: GpRegister) -> (slot: &mut RegSlot)
        ensures
            *final(self) == old(self).spec_with(index, *final(slot)),
            index != GpRegister::IndHL ==> *slot == old(self).spec_slot(index),
            index == GpRegister::IndHL ==> *slot == old(self).bleh,
    {
        match index {
            GpRegister::A => &mut self.a,
            GpRegister::B => &mut self.b,
            GpRegister::C => &mut self.c,
            GpRegister::D => &mut self.d,
            GpRegister::E => &mut self.e,
            GpRegister::H => &mut self.h,
            GpRegister::L => &mut self.l,
            GpRegister::IndHL => &mut self.bleh,
        }
    }

    /// Hands out the first free register in the order `A, B, C, D, E, H, L`, with
    /// one reference and no variable behind it.
    pub fn alloc_reg(&mut self) -> (r: Result<GpRegister, ConstAllocError>)
        ensures
            *final(self) == old(self).spec_alloc(),
            r == match old(self).spec_first_free() {
                Some(reg) => Ok::<GpRegister, ConstAllocError>(reg),
                None => Err(ConstAllocError::OutOfRegisters),
            },
            r matches Ok(reg) ==> old(self).spec_is_free(reg) && !final(self).spec_is_free(reg)
                && reg != GpRegister::IndHL,
            old(self).wf() ==> final(self).wf(),
    {
        let inner = if self.a.is_none() {
            self.a = Some((Id::Unset, Some(1)));
            GpRegister::A
        } else if self.b.is_none() {
            self.b = Some((Id::Unset, Some(1)));
            GpRegister::B
        } else if self.c.is_none() {
            self.c = Some((Id::Unset, Some(1)));
            GpRegister::C
        } else if self.d.is_none() {
            self.d = Some((Id::Unset, Some(1)));
            GpRegister::D
        } else if self.e.is_none() {
            self.e = Some((Id::Unset, Some(1)));
            GpRegister::E
        } else if self.h.is_none() {
            self.h = Some((Id::Unset, Some(1)));
            GpRegister::H
        } else if self.l.is_none() {
            self.l = Some((Id::Unset, Some(1)));
            GpRegister::L
        } else {
            return Err(ConstAllocError::OutOfRegisters);
        };
        Ok(inner)
    }

    /// Hands out the first pair in the order `BC, DE, HL` whose halves are both
    /// free. `SP` is never handed out.
    pub fn alloc_pair(&mut self) -> (r: Result<RegisterPair, ConstAllocError>)
        ensures
            *final(self) == old(self).spec_alloc_pair(),
            r == match old(self).spec_first_free_pair() {
                Some(pair) => Ok::<RegisterPair, ConstAllocError>(pair),
                None => Err(ConstAllocError::OutOfRegisters),
            },
            r matches Ok(pair) ==> old(self).spec_pair_is_free(pair) && final(self).spec_is_claimed(
                RegSelector::R16(pair),
            ),
            old(self).wf() ==> final(self).wf(),
    {
        let inner = if self.b.is_none() && self.c.is_none() {
            self.b = Some((Id::Unset, Some(1)));
            self.c = Some((Id::Unset, Some(1)));
            RegisterPair::BC
        } else if self.d.is_none() && self.e.is_none() {
            self.d = Some((Id::Unset, Some(1)));
            self.e = Some((Id::Unset, Some(1)));
            RegisterPair::DE
        } else if self.h.is_none() && self.l.is_none() {
            self.h = Some((Id::Unset, Some(1)));
            self.l = Some((Id::Unset, Some(1)));
            RegisterPair::HL
        } else {
            return Err(ConstAllocError::OutOfRegisters);
        };
        Ok(inner)
    }

    /// Takes `reg` for `id` with one reference, whoever held it before.
    pub fn claim(&mut self, reg: GpRegister, id: Id) -> (r: GpRegister)
        ensures
            r == reg,
            *final(self) == old(self).spec_with(reg, spec_fresh_slot(id)),
            old(self).wf() ==> final(self).wf(),
    {
        *self.index_mut(reg) = Some((id, Some(1)));
        reg
    }

    /// Takes both halves of `reg_pair` for `id`, whoever held them before. `SP`
    /// has no halves and nothing is taken.
    pub fn claim_pair(&mut self, reg_pair: RegisterPair, id: Id) -> (r: RegisterPair)
        ensures
            r == reg_pair,
            *final(self) == old(self).spec_with_pair(
                reg_pair,
                spec_fresh_slot(id),
                spec_fresh_slot(id),
            ),
            old(self).wf() ==> final(self).wf(),
    {
        if let Ok((reg1, reg2)) = reg_pair.try_split() {
            *self.index_mut(reg1) = Some((id, Some(1)));
            *self.index_mut(reg2) = Some((id, Some(1)));
        }
        reg_pair
    }

    /// Frees a register, or both halves of a pair, whatever its count.
    pub fn free(&mut self, reg: RegSelector)
        ensures
            *final(self) == old(self).spec_free(reg),
            old(self).wf() ==> final(self).wf(),
    {
        match reg {
            RegSelector::R8(r8) => {
                *self.index_mut(r8) = None;
            },
            RegSelector::R16(r16) => {
                if let Ok((reg1, reg2)) = r16.try_split() {
                    *self.index_mut(reg1) = None;
                    *self.index_mut(reg2) = None;
                }
            },
        }
    }

    /// True if the register is taken, or if a half of the pair is. A pair
    /// reports as free only if both halves are free.
    pub fn is_claimed(&self, reg: RegSelector) -> (r: bool)
        ensures
            r == self.spec_is_claimed(reg),
            reg matches RegSelector::R8(r8) ==> r == !self.spec_is_free(r8),
            reg matches RegSelector::R16(r16) ==> r == (r16 != RegisterPair::SP
                && !self.spec_pair_is_free(r16)),
    {
        match reg {
            RegSelector::R8(r8) => self.index(r8).is_some(),
            RegSelector::R16(r16) => {
                if let Ok((reg1, reg2)) = r16.try_split() {
                    self.index(reg1).is_some() || self.index(reg2).is_some()
                } else {
                    false
                }
            },
        }
    }

    /// Counts one more reference to `reg`.
    pub fn increment_rc(&mut self, reg: RegSelector)
        requires
            old(self).spec_can_grow(reg),
        ensures
            *final(self) == old(self).spec_crement_rc(reg, true),
            old(self).wf() ==> final(self).wf(),
    {
        self.crement_rc(reg, Crementivity::Up);
    }

    /// Gives one reference to `reg` back; the register is freed with its last.
    pub fn decrement_rc(&mut self, reg: RegSelector)
        requires
            old(self).wf(),
            reg != RegSelector::R16(RegisterPair::SP),
        ensures
            *final(self) == old(self).spec_crement_rc(reg, false),
            final(self).wf(),
    {
        self.crement_rc(reg, Crementivity::Down);
    }

    /// One step of a slot's reference count.
    fn crement_slot(slot: RegSlot, way: Crementivity) -> (r: RegSlot)
        requires
            way == Crementivity::Up ==> spec_slot_can_grow(slot),
            way == Crementivity::Down ==> spec_slot_wf(slot),
        ensures
            r == spec_crement_slot(slot, way == Crementivity::Up),
            spec_slot_wf(slot) ==> spec_slot_wf(r),
    {
        match slot {
            None => None,
            Some((id, None)) => Some((id, None)),
            Some((id, Some(rc))) => match way {
                Crementivity::Up => Some((id, Some(rc + 1))),
                Crementivity::Down => if rc <= 1 {
                    None
                } else {
                    Some((id, Some(rc - 1)))
                },
            },
        }
    }

    /// Moves the reference count of `reg` one step. `SP` is not counted.
    pub fn crement_rc(&mut self, reg: RegSelector, way: Crementivity)
        requires
            way == Crementivity::Up ==> old(self).spec_can_grow(reg),
            way == Crementivity::Down ==> old(self).wf(),
            reg != RegSelector::R16(RegisterPair::SP),
        ensures
            *final(self) == old(self).spec_crement_rc(reg, way == Crementivity::Up),
            old(self).wf() ==> final(self).wf(),
    {
        match reg {
            RegSelector::R8(r8) => {
                let slot = Self::crement_slot(self.index(r8), way);
                *self.index_mut(r8) = slot;
            },
            RegSelector::R16(r16) => {
                if let Ok((reg1, reg2)) = r16.try_split() {
                    let slot1 = Self::crement_slot(self.index(reg1), way);
                    let slot2 = Self::crement_slot(self.index(reg2), way);
                    *self.index_mut(reg1) = slot1;
                    *self.index_mut(reg2) = slot2;
                }
            },
        }
    }

    /// Takes `reg` out of the counting. It stays taken.
    pub fn release_rc(&mut self, reg: RegSelector)
        ensures
            *final(self) == old(self).spec_release_rc(reg),
            old(self).wf() ==> final(self).wf(),
    {
        match reg {
            RegSelector::R8(r8) => {
                let slot = Self::release_slot(self.index(r8));
                *self.index_mut(r8) = slot;
            },
            RegSelector::R16(r16) => {
                if let Ok((reg1, reg2)) = r16.try_split() {
                    let slot1 = Self::release_slot(self.index(reg1));
                    let slot2 = Self::release_slot(self.index(reg2));
                    *self.index_mut(reg1) = slot1;
                    *self.index_mut(reg2) = slot2;
                }
            },
        }
    }

    fn release_slot(slot: RegSlot) -> (r: RegSlot)
        ensures
            r == spec_release_slot(slot),
    {
        match slot {
            None => None,
            Some((id, _)) => Some((id, None)),
        }
    }
}


/// One counted reference to a register.
#[derive(Debug, PartialEq, Eq, Structural)]
pub struct RcGpRegister {
    pub inner: GpRegister,
}

/// One counted reference to a register pair.
#[derive(Debug, PartialEq, Eq, Structural)]
pub struct RcRegisterPair {
    pub inner: RegisterPair,
}

/// One counted reference to the register or pair of a variable.
#[derive(Debug, PartialEq, Eq, Structural)]
pub struct RcRegVariable {
    pub inner: RawRegVariable,
}

impl RcGpRegister {
    /// Takes the register out of the counting. It is then never released by
    /// counting: the caller answers for freeing it.
    pub fn into_raw(self, registers: &mut GpRegisters) -> (reg: GpRegister)
        ensures
            reg == self.inner,
            *final(registers) == old(registers).spec_release_rc(RegSelector::R8(self.inner)),
            old(registers).wf() ==> final(registers).wf(),
    {
        registers.release_rc(RegSelector::R8(self.inner));
        self.inner
    }

    /// A second handle to the same register: one more reference is counted.
    pub fn clone(&self, registers: &mut GpRegisters) -> (r: Self)
        requires
            old(registers).spec_can_grow(RegSelector::R8(self.inner)),
        ensures
            r.inner == self.inner,
            *final(registers) == old(registers).spec_crement_rc(RegSelector::R8(self.inner), true),
            old(registers).wf() ==> final(registers).wf(),
    {
        registers.increment_rc(RegSelector::R8(self.inner));
        RcGpRegister { inner: self.inner }
    }

    /// Gives the handle's reference back; the register is freed with its last.
    pub fn drop(self, registers: &mut GpRegisters)
        requires
            old(registers).wf(),
        ensures
            *final(registers) == old(registers).spec_crement_rc(RegSelector::R8(self.inner), false),
            final(registers).wf(),
    {
        registers.decrement_rc(RegSelector::R8(self.inner));
    }

    /// True if the handle is one to `other`.
    pub fn is_register(&self, other: GpRegister) -> (r: bool)
        ensures
            r == (self.inner == other),
    {
        self.inner == other
    }
}

impl RcRegisterPair {
    /// Takes the pair out of the counting. It is then never released by
    /// counting: the caller answers for freeing it.
    pub fn into_raw(self, registers: &mut GpRegisters) -> (pair: RegisterPair)
        ensures
            pair == self.inner,
            *final(registers) == old(registers).spec_release_rc(RegSelector::R16(self.inner)),
            old(registers).wf() ==> final(registers).wf(),
    {
        registers.release_rc(RegSelector::R16(self.inner));
        self.inner
    }

    /// The halves of the pair, high register first. The handle keeps both.
    pub fn try_split(&self) -> (r: Result<(GpRegister, GpRegister), SplitError>)
        ensures
            r == self.inner.spec_split(),
    {
        let (reg1, reg2) = match self.inner {
            RegisterPair::BC => (GpRegister::B, GpRegister::C),
            RegisterPair::DE => (GpRegister::D, GpRegister::E),
            RegisterPair::HL => (GpRegister::H, GpRegister::L),
            RegisterPair::SP => {
                return Err(SplitError::StackPointer);
            },
        };
        Ok((reg1, reg2))
    }

    /// Gives the handle's reference back; the halves are freed with their last.
    pub fn drop(self, registers: &mut GpRegisters)
        requires
            old(registers).wf(),
            self.inner != RegisterPair::SP,
        ensures
            *final(registers) == old(registers).spec_crement_rc(RegSelector::R16(self.inner), false),
            final(registers).wf(),
    {
        registers.decrement_rc(RegSelector::R16(self.inner));
    }

    /// True if the handle is one to `other`.
    pub fn is_pair(&self, other: RegisterPair) -> (r: bool)
        ensures
            r == (self.inner == other),
    {
        self.inner == other
    }
}

impl RcRegVariable {
    /// Takes the variable's register out of the counting. It is then never
    /// released by counting: the caller answers for freeing it. Nothing
    /// changes if the register has gone to another variable.
    pub fn into_raw(self, registers: &mut GpRegisters) -> (raw: RawRegVariable)
        ensures
            raw == self.inner,
            *final(registers) == old(registers).spec_uncount_var(self.inner),
            old(registers).wf() ==> final(registers).wf(),
    {
        if registers.holds(&self.inner) {
            match self.inner.selector() {
                Some(sel) => registers.release_rc(sel),
                None => {},
            }
        }
        self.inner
    }

    /// A second handle to the same variable: one more reference to its
    /// register is counted, unless the register has gone to another variable.
    pub fn clone(&self, registers: &mut GpRegisters) -> (r: Self)
        requires
            old(registers).spec_holds(self.inner) ==> (self.inner.spec_selector() matches Some(sel)
                ==> old(registers).spec_can_grow(sel)),
        ensures
            r.inner == self.inner,
            *final(registers) == old(registers).spec_share_var(self.inner),
            old(registers).wf() ==> final(registers).wf(),
    {
        if registers.holds(&self.inner) {
            match self.inner.selector() {
                Some(sel) => registers.increment_rc(sel),
                None => {},
            }
        }
        RcRegVariable { inner: self.inner }
    }

    /// Gives the handle's reference back; the register is freed with its last.
    /// Nothing changes if the register has gone to another variable.
    pub fn drop(self, registers: &mut GpRegisters)
        requires
            old(registers).wf(),
        ensures
            *final(registers) == old(registers).spec_drop_var(self.inner),
            final(registers).wf(),
    {
        if registers.holds(&self.inner) {
            match self.inner.selector() {
                Some(sel) => registers.decrement_rc(sel),
                None => {},
            }
        }
    }
}

/// A bump arena: `len` bytes that start at `offset`, of which the first `next`
/// are given out.
#[derive(Clone, Copy, Debug, PartialEq, Eq, Structural)]
pub struct AllocGroup {
    pub next: Addr,
    pub offset: Addr,
    pub len: Addr,
    pub used: u16,
}

impl AllocGroup {
    /// Nothing beyond the arena is given out, and the arena lies within the
    /// address space.
    pub open spec fn wf(self) -> bool {
        self.next <= self.len && self.offset + self.len <= 0x10000
    }

    /// True if `len` more bytes fit and have an address. Bytes that fit have
    /// one, but for a request for nothing that is made when the arena is full
    /// and ends at the top of the address space.
    pub open spec fn spec_fits(self, len: u16) -> bool {
        self.next + len <= self.len && self.offset + self.next <= u16::MAX
    }

    /// The arena after `len` bytes were asked for.
    pub open spec fn spec_after(self, len: u16) -> AllocGroup {
        if self.spec_fits(len) {
            AllocGroup { next: (self.next + len) as u16, ..self }
        } else {
            self
        }
    }

    /// What a request for `len` bytes returns.
    pub open spec fn spec_result(self, len: u16) -> Result<Addr, ConstAllocError> {
        if self.spec_fits(len) {
            Ok((self.offset + self.next) as u16)
        } else {
            Err(ConstAllocError::OutOfMemory)
        }
    }

    /// The arena after the requests `lens`, made in order.
    pub open spec fn spec_run(self, lens: Seq<u16>) -> AllocGroup
        decreases lens.len(),
    {
        if lens.len() == 0 {
            self
        } else {
            self.spec_run(lens.drop_last()).spec_after(lens.last())
        }
    }

    /// The sum of those of the requests `lens`, made in order, that succeed.
    pub open spec fn spec_granted(self, lens: Seq<u16>) -> int
        decreases lens.len(),
    {
        if lens.len() == 0 {
            0
        } else {
            self.spec_granted(lens.drop_last()) + if self.spec_run(lens.drop_last()).spec_fits(
                lens.last(),
            ) {
                lens.last() as int
            } else {
                0
            }
        }
    }

    /// True if nothing beyond the arena is given out and the arena lies
    /// within the address space.
    pub fn is_wf(&self) -> (r: bool)
        ensures
            r == self.wf(),
    {
        self.next <= self.len && self.len as u32 + self.offset as u32 <= 0x10000
    }

    /// True if `len` more bytes fit.
    pub fn fits(&self, len: u16) -> (r: bool)
        requires
            self.wf(),
        ensures
            r == self.spec_fits(len),
    {
        len <= self.len - self.next && self.next <= u16::MAX - self.offset
    }

    /// Gives out the next `len` bytes and returns their address, or fails with
    /// `OutOfMemory` and changes nothing if they do not fit. Bytes that do not
    /// go beyond the arena fit, with one exception: nothing can be given out
    /// at the address above the last one.
    pub fn allocate(&mut self, len: u16) -> (r: Result<Addr, ConstAllocError>)
        requires
            old(self).wf(),
        ensures
            r == old(self).spec_result(len),
            *final(self) == old(self).spec_after(len),
            r is Ok <==> old(self).next + len <= old(self).len && old(self).offset + old(
                self,
            ).next <= u16::MAX,
            len > 0 ==> (r is Ok <==> old(self).next + len <= old(self).len),
            r matches Ok(addr) ==> addr == old(self).offset + old(self).next && final(self).next
                == old(self).next + len,
            r is Err ==> *final(self) == *old(self),
            final(self).wf(),
    {
        let addr = self.next;
        if len > self.len - addr || addr > u16::MAX - self.offset {
            Err(ConstAllocError::OutOfMemory)
        } else {
            self.next = addr + len;
            Ok(addr + self.offset)
        }
    }

    /// Gives nothing back: what a bump arena has given out stays given out.
    pub fn dealloc(&mut self, addr: Addr) -> (r: Result<(), ConstAllocError>)
        ensures
            r is Ok,
            *final(self) == *old(self),
    {
        Ok(())
    }

    /// After any requests the arena has advanced by the sum of those that
    /// succeeded, and by nothing else.
    pub proof fn lemma_run_advances(self, lens: Seq<u16>)
        requires
            self.wf(),
        ensures
            self.spec_run(lens).wf(),
            self.spec_run(lens).next == self.next + self.spec_granted(lens),
            self.spec_run(lens).offset == self.offset,
            self.spec_run(lens).len == self.len,
            self.spec_run(lens).used == self.used,
            0 <= self.spec_granted(lens),
        decreases lens.len(),
    {
        if lens.len() > 0 {
            self.lemma_run_advances(lens.drop_last());
        }
    }

    /// The requests that succeed among the first `i` are among the first `j`.
    pub proof fn lemma_granted_grows(self, lens: Seq<u16>, i: int, j: int)
        requires
            self.wf(),
            0 <= i <= j <= lens.len(),
        ensures
            self.spec_granted(lens.take(i)) <= self.spec_granted(lens.take(j)),
            i < j && self.spec_run(lens.take(i)).spec_fits(lens[i]) ==> self.spec_granted(
                lens.take(i),
            ) + lens[i] <= self.spec_granted(lens.take(j)),
        decreases j - i,
    {
        if i < j {
            assert(lens.take(j).drop_last() =~= lens.take(j - 1));
            assert(lens.take(j).last() == lens[j - 1]);
            self.lemma_granted_grows(lens, i, j - 1);
        }
    }

    /// Bump monotonicity. Of any requests made in order, a successful one
    /// returns the arena's first free address plus the lengths of the successful
    /// requests before it; so each later successful address lies at least the
    /// earlier request's length above the earlier one. A request that fails
    /// leaves the arena as it was.
    pub proof fn lemma_bump_monotonic(self, lens: Seq<u16>, i: int, j: int)
        requires
            self.wf(),
            0 <= i < j < lens.len(),
        ensures
            self.spec_run(lens.take(i)).spec_result(lens[i]) matches Ok(a) ==> a == self.offset
                + self.next + self.spec_granted(lens.take(i)),
            self.spec_run(lens.take(i)).spec_result(lens[i]) matches Ok(a) ==> (self.spec_run(
                lens.take(j),
            ).spec_result(lens[j]) matches Ok(b) ==> b >= a + lens[i] && b - a
                == self.spec_granted(lens.take(j)) - self.spec_granted(lens.take(i))),
            self.spec_run(lens.take(i)).spec_result(lens[i]) is Err ==> self.spec_run(
                lens.take(i + 1),
            ) == self.spec_run(lens.take(i)),
    {
        self.lemma_run_advances(lens.take(i));
        self.lemma_run_advances(lens.take(j));
        self.lemma_granted_grows(lens, i, j);
        assert(lens.take(i + 1).drop_last() =~= lens.take(i));
        assert(lens.take(i + 1).last() == lens[i]);
    }
}

/// The two lengths that a register or a pair can hold.
#[derive(Clone, Copy, Debug, PartialEq, Eq, Structural)]
pub enum RegKind {
    GpRegister,
    RegisterPair,
}

impl RegKind {
    /// The kind of register that holds `len` bytes: a register for one, a pair
    /// for two, none for any other length.
    pub open spec fn spec_from_len(len: u16) -> Option<RegKind> {
        if len == 1 {
            Some(RegKind::GpRegister)
        } else if len == 2 {
            Some(RegKind::RegisterPair)
        } else {
            None
        }
    }

    pub fn try_from_len<AllocError: AllocErrorTrait>(len: u16) -> (r: Result<Self, AllocError>)
        ensures
            r == match Self::spec_from_len(len) {
                Some(kind) => Ok::<RegKind, AllocError>(kind),
                None => Err(AllocError::spec_oversized_load()),
            },
    {
        if len == 1 {
            Ok(RegKind::GpRegister)
        } else if len == 2 {
            Ok(RegKind::RegisterPair)
        } else {
            Err(AllocError::oversized_load())
        }
    }
}

/// The allocator that a block tree shares: the ROM arena for constants, the
/// RAM arena for variables, the register file, and the variables that lost
/// their register to another.
#[derive(Clone, Debug, PartialEq, Eq)]
pub struct ConstAllocator {
    pub constants: AllocGroup,
    pub variables: AllocGroup,
    pub registers: GpRegisters,
    /// Where each variable lives that was moved out of its register to make
    /// room, oldest first.
    pub spilled: Vec<MemoryVariable>,
}

/// The last record of the variable `id` among `spilled`, if there is one.
pub open spec fn spec_home(spilled: Seq<MemoryVariable>, id: Id) -> Option<MemoryVariable>
    decreases spilled.len(),
{
    if spilled.len() == 0 {
        None
    } else if spilled.last().id == id {
        Some(spilled.last())
    } else {
        spec_home(spilled.drop_last(), id)
    }
}

/// What an allocator holds, as a value of the mathematics.
#[verifier::ext_equal]
pub struct AllocState {
    pub constants: AllocGroup,
    pub variables: AllocGroup,
    pub registers: GpRegisters,
    pub spilled: Seq<MemoryVariable>,
}

impl AllocState {
    pub open spec fn wf(self) -> bool {
        self.constants.wf() && self.variables.wf() && self.registers.wf()
    }

    pub open spec fn with_registers(self, registers: GpRegisters) -> AllocState {
        AllocState { registers, ..self }
    }

    /// The registers after a variable was given up: a counted one gives its
    /// reference back and an uncounted one frees its register, if it is where
    /// it says.
    pub open spec fn spec_dealloc_var(self, var: Variable) -> AllocState {
        match var {
            Variable::Reg(RegVariable::Rc(rc)) => self.with_registers(
                self.registers.spec_drop_var(rc.inner),
            ),
            Variable::Reg(RegVariable::Raw(raw)) => self.with_registers(
                self.registers.spec_free_var(raw),
            ),
            _ => self,
        }
    }
}

impl View for ConstAllocator {
    type V = AllocState;

    open spec fn view(&self) -> AllocState {
        AllocState {
            constants: self.constants,
            variables: self.variables,
            registers: self.registers,
            spilled: self.spilled@,
        }
    }
}

impl Default for ConstAllocator {
    /// 2 KiB of ROM and 4 KiB of RAM, both at offset 0, and no register taken.
    fn default() -> (r: Self)
        ensures
            r@ == ConstAllocator::spec_default(),
            r@.wf(),
    {
        let constants = AllocGroup { next: 0, offset: 0x0000, len: 0x0800, used: 0 };
        let variables = AllocGroup { next: 0, offset: 0x0000, len: 0x1000, used: 0 };
        ConstAllocator {
            constants,
            variables,
            registers: GpRegisters::default(),
            spilled: Vec::new(),
        }
    }
}

impl ConstAllocator {
    /// True if both arenas and the register file are well-formed.
    pub fn is_wf(&self) -> (r: bool)
        ensures
            r == self@.wf(),
    {
        self.constants.is_wf() && self.variables.is_wf() && self.registers.is_wf()
    }

    /// Where the variable `id` lives since it lost its register to another:
    /// the last record of it, or `None` if it never lost one.
    pub fn spilled_home(&self, id: Id) -> (r: Option<MemoryVariable>)
        ensures
            r == spec_home(self@.spilled, id),
            r is None <==> forall|i: int| 0 <= i < self@.spilled.len() ==> self@.spilled[i].id != id,
            r matches Some(home) ==> home.id == id && exists|i: int|
                0 <= i < self@.spilled.len() && self@.spilled[i] == home && forall|j: int|
                    i < j < self@.spilled.len() ==> self@.spilled[j].id != id,
    {
        let mut n: usize = self.spilled.len();
        proof {
            assert(self.spilled@.subrange(0, n as int) =~= self.spilled@);
        }
        while n > 0
            invariant
                n <= self.spilled@.len(),
                forall|j: int| n <= j < self.spilled@.len() ==> self.spilled@[j].id != id,
                spec_home(self.spilled@, id) == spec_home(self.spilled@.subrange(0, n as int), id),
            decreases n,
        {
            proof {
                assert(self.spilled@.subrange(0, n as int).drop_last() =~= self.spilled@.subrange(
                    0,
                    n - 1,
                ));
            }
            n = n - 1;
            if self.spilled[n].id == id {
                return Some(self.spilled[n]);
            }
        }
        None
    }

    /// True if one of the seven registers is free.
    pub fn has_free_register(&self) -> (r: bool)
        ensures
            r == (self@.registers.spec_first_free() is Some),
    {
        self.registers.a.is_none() || self.registers.b.is_none() || self.registers.c.is_none()
            || self.registers.d.is_none() || self.registers.e.is_none()
            || self.registers.h.is_none() || self.registers.l.is_none()
    }

    /// True if both halves of one of `BC`, `DE` and `HL` are free.
    pub fn has_free_pair(&self) -> (r: bool)
        ensures
            r == (self@.registers.spec_first_free_pair() is Some),
    {
        (self.registers.b.is_none() && self.registers.c.is_none()) || (self.registers.d.is_none()
            && self.registers.e.is_none()) || (self.registers.h.is_none()
            && self.registers.l.is_none())
    }

    pub open spec fn spec_default() -> AllocState {
        AllocState {
            constants: AllocGroup { next: 0, offset: 0x0000, len: 0x0800, used: 0 },
            variables: AllocGroup { next: 0, offset: 0x0000, len: 0x1000, used: 0 },
            registers: GpRegisters::spec_empty(),
            spilled: Seq::empty(),
        }
    }
}

/// What a block tree asks of its allocator.
pub trait Allocator: Sized {
    /// What the allocator holds.
    spec fn state(&self) -> AllocState;

    /// Hands out the first free register, with one reference.
    fn alloc_reg(&mut self) -> (r: Result<RcGpRegister, ConstAllocError>)
        ensures
            final(self).state() == old(self).state().with_registers(
                old(self).state().registers.spec_alloc(),
            ),
            r == match old(self).state().registers.spec_first_free() {
                Some(reg) => Ok::<RcGpRegister, ConstAllocError>(RcGpRegister { inner: reg }),
                None => Err(ConstAllocError::OutOfRegisters),
            },
    ;

    /// Hands out the first pair whose halves are both free, with one reference.
    fn alloc_reg_pair(&mut self) -> (r: Result<RcRegisterPair, ConstAllocError>)
        ensures
            final(self).state() == old(self).state().with_registers(
                old(self).state().registers.spec_alloc_pair(),
            ),
            r == match old(self).state().registers.spec_first_free_pair() {
                Some(pair) => Ok::<RcRegisterPair, ConstAllocError>(RcRegisterPair { inner: pair }),
                None => Err(ConstAllocError::OutOfRegisters),
            },
    ;

    /// Frees a register or a pair, whatever its count.
    fn release_reg(&mut self, reg: RegSelector) -> (ret: &mut Self)
        ensures
            ret.state() == old(self).state().with_registers(
                old(self).state().registers.spec_free(reg),
            ),
            *final(self) == *final(ret),
    ;

    /// Claims a specific register for the given ID.
    fn claim_reg(&mut self, reg: GpRegister, id: Id) -> (r: RcGpRegister)
        ensures
            r.inner == reg,
            final(self).state() == old(self).state().with_registers(
                old(self).state().registers.spec_with(reg, spec_fresh_slot(id)),
            ),
    ;

    /// Claims a specific register pair for the given ID.
    fn claim_reg_pair(&mut self, reg: RegisterPair, id: Id) -> (r: RcRegisterPair)
        ensures
            r.inner == reg,
            final(self).state() == old(self).state().with_registers(
                old(self).state().registers.spec_with_pair(
                    reg,
                    spec_fresh_slot(id),
                    spec_fresh_slot(id),
                ),
            ),
    ;

    /// Returns true if the selected register is taken.
    fn reg_is_used(&self, reg: RegSelector) -> (r: bool)
        ensures
            r == self.state().registers.spec_is_claimed(reg),
    ;

    /// Gives out `len` bytes of ROM.
    fn alloc_const(&mut self, len: u16) -> (r: Result<Addr, ConstAllocError>)
        requires
            old(self).state().wf(),
        ensures
            r == old(self).state().constants.spec_result(len),
            final(self).state() == (AllocState {
                constants: old(self).state().constants.spec_after(len),
                ..old(self).state()
            }),
            final(self).state().wf(),
    ;

    /// Gives out `len` bytes of RAM.
    fn alloc_var(&mut self, len: u16) -> (r: Result<Addr, ConstAllocError>)
        requires
            old(self).state().wf(),
        ensures
            r == old(self).state().variables.spec_result(len),
            final(self).state() == (AllocState {
                variables: old(self).state().variables.spec_after(len),
                ..old(self).state()
            }),
            final(self).state().wf(),
    ;

    /// Gives a variable up. Its memory stays given out; a counted register
    /// gets its reference back, an uncounted one is freed. A register that has
    /// gone to another variable is left to that.
    fn dealloc_var(&mut self, var: Variable) -> (r: Result<(), ConstAllocError>)
        requires
            old(self).state().wf(),
        ensures
            r is Ok,
            final(self).state() == old(self).state().spec_dealloc_var(var),
            final(self).state().wf(),
    ;
}

impl Allocator for ConstAllocator {
    open spec fn state(&self) -> AllocState {
        self@
    }

    fn alloc_reg(&mut self) -> (r: Result<RcGpRegister, ConstAllocError>) {
        match self.registers.alloc_reg() {
            Ok(inner) => Ok(RcGpRegister { inner }),
            Err(e) => Err(e),
        }
    }

    fn alloc_reg_pair(&mut self) -> (r: Result<RcRegisterPair, ConstAllocError>) {
        match self.registers.alloc_pair() {
            Ok(inner) => Ok(RcRegisterPair { inner }),
            Err(e) => Err(e),
        }
    }

    fn release_reg(&mut self, reg: RegSelector) -> (ret: &mut Self) {
        self.registers.free(reg);
        self
    }

    fn claim_reg(&mut self, reg: GpRegister, id: Id) -> (r: RcGpRegister) {
        RcGpRegister { inner: self.registers.claim(reg, id) }
    }

    fn claim_reg_pair(&mut self, reg_pair: RegisterPair, id: Id) -> (r: RcRegisterPair) {
        RcRegisterPair { inner: self.registers.claim_pair(reg_pair, id) }
    }

    fn reg_is_used(&self, reg: RegSelector) -> (r: bool) {
        self.registers.is_claimed(reg)
    }

    fn alloc_const(&mut self, len: u16) -> (r: Result<Addr, ConstAllocError>) {
        self.constants.allocate(len)
    }

    fn alloc_var(&mut self, len: u16) -> (r: Result<Addr, ConstAllocError>) {
        self.variables.allocate(len)
    }

    fn dealloc_var(&mut self, var: Variable) -> (r: Result<(), ConstAllocError>) {
        match var {
            Variable::Memory(MemoryVariable { addr, .. }) => {
                let _ = self.variables.dealloc(addr);
            },
            Variable::Reg(var) => match var {
                RegVariable::Rc(var) => {
                    match var.inner {
                        RawRegVariable::MemR8 { addr, .. } | RawRegVariable::MemR16 { addr, .. } => {
                            let _ = self.variables.dealloc(addr);
                        },
                        _ => {},
                    }
                    var.drop(&mut self.registers);
                },
                RegVariable::Raw(var) => {
                    match var {
                        RawRegVariable::MemR8 { addr, .. } | RawRegVariable::MemR16 { addr, .. } => {
                            let _ = self.variables.dealloc(addr);
                        },
                        _ => {},
                    }
                    let found = match var.id() {
                        Id::Unset => true,
                        Id::Assigned(_) => self.registers.holds(&var),
                    };
                    if found {
                        match var.selector() {
                            Some(sel) => self.registers.free(sel),
                            None => {},
                        }
                    }
                },
            },
            Variable::Unallocated { .. } => {},
        };
        Ok(())
    }
}

/// True if the variable `raw` says that it lives in the register `reg`: in it,
/// or in a pair of which it is a half.
pub open spec fn spec_occupies(raw: RawRegVariable, reg: GpRegister) -> bool {
    match raw.spec_selector() {
        Some(RegSelector::R8(own)) => own == reg,
        Some(RegSelector::R16(pair)) => match pair.spec_split() {
            Ok((reg1, reg2)) => reg == reg1 || reg == reg2,
            Err(_) => false,
        },
        None => false,
    }
}

/// One holder. Of the variables that say that they live in a register, only
/// those of one identifier are where they say: a register is held under one
/// identifier at a time, and every other variable has lost it.
pub proof fn lemma_one_holder(
    registers: GpRegisters,
    first: RawRegVariable,
    second: RawRegVariable,
    reg: GpRegister,
)
    requires
        spec_occupies(first, reg),
        spec_occupies(second, reg),
        registers.spec_holds(first),
        first.spec_id() != second.spec_id(),
    ensures
        !registers.spec_holds(second),
{
}

/// Register mutual exclusion. A register that `alloc_reg` hands out was free,
/// and is not handed out again while it stays taken: whatever is done to the
/// other registers in between.
pub proof fn lemma_alloc_is_exclusive(before: GpRegisters, later: GpRegisters)
    requires
        before.spec_first_free() matches Some(reg) && !later.spec_is_free(reg),
    ensures
        before.spec_is_free(before.spec_first_free()->Some_0),
        !before.spec_alloc().spec_is_free(before.spec_first_free()->Some_0),
        later.spec_first_free() != before.spec_first_free(),
        later.spec_first_free_pair() matches Some(pair) ==> (pair.spec_split() matches Ok(
            (reg1, reg2),
        ) ==> reg1 != before.spec_first_free()->Some_0 && reg2 != before.spec_first_free()->Some_0),
{
}

/// The register that `alloc_reg` hands out is the first free one in scan
/// order, and it fails only if none of the seven is free.
pub proof fn lemma_first_free_is_first(registers: GpRegisters, other: GpRegister)
    ensures
        registers.spec_first_free() matches Some(reg) ==> registers.spec_is_free(reg) && (
        GpRegisters::spec_scan_index(other) < GpRegisters::spec_scan_index(reg)
            ==> !registers.spec_is_free(other)),
        registers.spec_first_free() is None && other != GpRegister::IndHL
            ==> !registers.spec_is_free(other),
{
}

/// A pair can be handed out if and only if both halves of one of `BC`, `DE`
/// and `HL` are free; the pair handed out is free, and after it no register of
/// it is.
pub proof fn lemma_pair_needs_both_halves(registers: GpRegisters)
    ensures
        registers.spec_first_free_pair() is Some <==> (registers.spec_pair_is_free(RegisterPair::BC)
            || registers.spec_pair_is_free(RegisterPair::DE) || registers.spec_pair_is_free(
            RegisterPair::HL,
        )),
        registers.spec_first_free_pair() matches Some(pair) ==> registers.spec_pair_is_free(pair)
            && registers.spec_alloc_pair().spec_is_claimed(RegSelector::R16(pair)),
        !registers.spec_pair_is_free(RegisterPair::SP),
{
}

/// The number of references that are left of one that was handed out, after
/// the first `n` of the steps `ups` (true: a handle was cloned; false: one was
/// dropped).
pub open spec fn spec_live_handles(ups: Seq<bool>, n: int) -> int
    decreases n,
{
    if n <= 0 {
        1
    } else {
        spec_live_handles(ups, n - 1) + if ups[n - 1] {
            1int
        } else {
            -1int
        }
    }
}

/// A slot after the first `n` of the steps `ups`.
pub open spec fn spec_slot_after(slot: RegSlot, ups: Seq<bool>, n: int) -> RegSlot
    decreases n,
{
    if n <= 0 {
        slot
    } else {
        spec_crement_slot(spec_slot_after(slot, ups, n - 1), ups[n - 1])
    }
}

/// Reference counting is correct. While handles to a register that was handed
/// out are cloned and dropped, its count is the number of clones less the
/// number of drops, plus the one handle it was handed out with; and the
/// register is free if and only if that number has reached zero.
pub proof fn lemma_rc_counts_handles(id: Id, ups: Seq<bool>, n: int)
    requires
        0 <= n <= ups.len(),
        forall|k: int| 0 <= k < n ==> 0 < #[trigger] spec_live_handles(ups, k) < usize::MAX,
    ensures
        spec_live_handles(ups, n) >= 0,
        spec_live_handles(ups, n) > 0 ==> spec_slot_after(spec_fresh_slot(id), ups, n) == Some(
            (id, Some(spec_live_handles(ups, n) as usize)),
        ),
        spec_live_handles(ups, n) == 0 <==> spec_slot_after(spec_fresh_slot(id), ups, n) is None,
    decreases n,
{
    if n > 0 {
        lemma_rc_counts_handles(id, ups, n - 1);
        assert(0 < spec_live_handles(ups, n - 1) < usize::MAX);
    }
}

} // verus!
