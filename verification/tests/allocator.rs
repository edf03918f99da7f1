use gleeby::codegen::allocator::{
    slot_is_of, AllocErrorTrait, AllocGroup, Allocator, ConstAllocError, ConstAllocator, Crementivity,
    GpRegisters, RcGpRegister, RcRegVariable, RcRegisterPair, RegKind,
};
use gleeby::codegen::selection::slot_is_variable;
use gleeby::codegen::variables::{
    Id, MemoryVariable, RawRegVariable, RawVariable, RegSelector, RegVariable, Variable,
};
use gleeby::cpu::{GpRegister, RegisterPair, SplitError};

fn arena() -> AllocGroup {
    AllocGroup { next: 0, offset: 0x0800, len: 0x10, used: 0 }
}

#[test]
fn bump_arena_gives_out_rising_addresses() {
    let mut group = arena();
    assert_eq!(group.allocate(4), Ok(0x0800));
    assert_eq!(group.allocate(8), Ok(0x0804));
    assert_eq!(group.next, 12);
    assert_eq!(group.allocate(8), Err(ConstAllocError::OutOfMemory));
    assert_eq!(group.next, 12);
    assert_eq!(group.allocate(4), Ok(0x080c));
    assert_eq!(group.next, 16);
    assert_eq!(group.allocate(0), Ok(0x0810));
    assert_eq!(group.allocate(1), Err(ConstAllocError::OutOfMemory));
    assert_eq!(group, AllocGroup { next: 16, offset: 0x0800, len: 0x10, used: 0 });
}

#[test]
fn bump_arena_frees_nothing() {
    let mut group = arena();
    let addr = group.allocate(16).unwrap();
    assert!(!group.fits(1));
    assert_eq!(group.dealloc(addr), Ok(()));
    assert_eq!(group.next, 16);
    assert_eq!(group.allocate(1), Err(ConstAllocError::OutOfMemory));
}

#[test]
fn registers_are_handed_out_in_scan_order() {
    let mut registers = GpRegisters::default();
    let order = [
        GpRegister::A,
        GpRegister::B,
        GpRegister::C,
        GpRegister::D,
        GpRegister::E,
        GpRegister::H,
        GpRegister::L,
    ];
    for reg in order {
        assert_eq!(registers.alloc_reg(), Ok(reg));
        assert_eq!(registers.index(reg), Some((Id::Unset, Some(1))));
    }
    assert_eq!(registers.alloc_reg(), Err(ConstAllocError::OutOfRegisters));
    registers.free(RegSelector::R8(GpRegister::D));
    assert_eq!(registers.alloc_reg(), Ok(GpRegister::D));
}

#[test]
fn a_register_is_not_handed_out_twice() {
    let mut registers = GpRegisters::default();
    let first = registers.alloc_reg().unwrap();
    let second = registers.alloc_reg().unwrap();
    assert_ne!(first, second);
    let pair = registers.alloc_pair().unwrap();
    let (hi, lo) = pair.try_split().unwrap();
    assert!(hi != first && hi != second && lo != first && lo != second);
    assert_eq!(pair, RegisterPair::DE);
}

#[test]
fn a_pair_needs_both_halves() {
    let mut registers = GpRegisters::default();
    registers.claim(GpRegister::B, Id::Assigned(1));
    assert_eq!(registers.alloc_pair(), Ok(RegisterPair::DE));
    registers.claim(GpRegister::L, Id::Assigned(2));
    assert_eq!(registers.alloc_pair(), Err(ConstAllocError::OutOfRegisters));
    registers.free(RegSelector::R8(GpRegister::B));
    assert_eq!(registers.alloc_pair(), Ok(RegisterPair::BC));
    assert_eq!(registers.b, Some((Id::Unset, Some(1))));
    assert_eq!(registers.c, Some((Id::Unset, Some(1))));
    registers.free(RegSelector::R16(RegisterPair::DE));
    registers.free(RegSelector::R8(GpRegister::L));
    assert_eq!(registers.alloc_pair(), Ok(RegisterPair::DE));
    assert_eq!(registers.alloc_pair(), Ok(RegisterPair::HL));
    assert_eq!(registers.alloc_pair(), Err(ConstAllocError::OutOfRegisters));
}

#[test]
fn claim_and_free() {
    let mut registers = GpRegisters::default();
    assert_eq!(registers.claim(GpRegister::E, Id::Assigned(7)), GpRegister::E);
    assert_eq!(registers.e, Some((Id::Assigned(7), Some(1))));
    assert!(registers.is_claimed(RegSelector::R8(GpRegister::E)));
    assert!(!registers.is_claimed(RegSelector::R8(GpRegister::D)));
    assert!(registers.is_claimed(RegSelector::R16(RegisterPair::DE)));
    assert!(!registers.is_claimed(RegSelector::R16(RegisterPair::BC)));
    assert_eq!(registers.claim_pair(RegisterPair::DE, Id::Assigned(8)), RegisterPair::DE);
    assert!(registers.is_claimed(RegSelector::R16(RegisterPair::DE)));
    assert_eq!(registers.d, Some((Id::Assigned(8), Some(1))));
    assert_eq!(registers.e, Some((Id::Assigned(8), Some(1))));
    assert_eq!(registers.claim_pair(RegisterPair::SP, Id::Assigned(9)), RegisterPair::SP);
    assert!(!registers.is_claimed(RegSelector::R16(RegisterPair::SP)));
    registers.free(RegSelector::R16(RegisterPair::DE));
    assert_eq!(registers, GpRegisters::default());
    registers.claim(GpRegister::IndHL, Id::Assigned(1));
    assert_eq!(registers.index(GpRegister::IndHL), None);
    assert_eq!(registers.bleh, Some((Id::Assigned(1), Some(1))));
    assert!(!registers.is_claimed(RegSelector::R8(GpRegister::IndHL)));
    *registers.index_mut(GpRegister::C) = Some((Id::Unset, None));
    assert_eq!(registers.c, Some((Id::Unset, None)));
}

#[test]
fn a_register_is_free_when_its_last_handle_is_dropped() {
    let mut alloc = ConstAllocator::default();
    let first = alloc.alloc_reg().unwrap();
    assert_eq!(first.inner, GpRegister::A);
    assert!(first.is_register(GpRegister::A));
    let second = first.clone(&mut alloc.registers);
    let third = second.clone(&mut alloc.registers);
    assert_eq!(alloc.registers.a, Some((Id::Unset, Some(3))));
    first.drop(&mut alloc.registers);
    assert_eq!(alloc.registers.a, Some((Id::Unset, Some(2))));
    third.drop(&mut alloc.registers);
    assert_eq!(alloc.registers.a, Some((Id::Unset, Some(1))));
    assert!(alloc.reg_is_used(RegSelector::R8(GpRegister::A)));
    second.drop(&mut alloc.registers);
    assert_eq!(alloc.registers.a, None);
    assert!(!alloc.reg_is_used(RegSelector::R8(GpRegister::A)));
}

#[test]
fn a_pair_is_counted_by_halves() {
    let mut alloc = ConstAllocator::default();
    let pair = alloc.alloc_reg_pair().unwrap();
    assert!(pair.is_pair(RegisterPair::BC));
    assert_eq!(pair.try_split(), Ok((GpRegister::B, GpRegister::C)));
    alloc.registers.increment_rc(RegSelector::R16(RegisterPair::BC));
    assert_eq!(alloc.registers.b, Some((Id::Unset, Some(2))));
    assert_eq!(alloc.registers.c, Some((Id::Unset, Some(2))));
    alloc.registers.crement_rc(RegSelector::R8(GpRegister::C), Crementivity::Down);
    assert_eq!(alloc.registers.c, Some((Id::Unset, Some(1))));
    alloc.registers.decrement_rc(RegSelector::R16(RegisterPair::BC));
    assert_eq!(alloc.registers.b, Some((Id::Unset, Some(1))));
    assert_eq!(alloc.registers.c, None);
    pair.drop(&mut alloc.registers);
    assert_eq!(alloc.registers, GpRegisters::default());
    let sp = RcRegisterPair { inner: RegisterPair::SP };
    assert_eq!(sp.try_split(), Err(SplitError::StackPointer));
}

#[test]
fn a_raw_register_is_not_counted() {
    let mut alloc = ConstAllocator::default();
    let handle = alloc.claim_reg(GpRegister::D, Id::Assigned(3));
    assert_eq!(handle.into_raw(&mut alloc.registers), GpRegister::D);
    assert_eq!(alloc.registers.d, Some((Id::Assigned(3), None)));
    alloc.registers.increment_rc(RegSelector::R8(GpRegister::D));
    alloc.registers.decrement_rc(RegSelector::R8(GpRegister::D));
    assert_eq!(alloc.registers.d, Some((Id::Assigned(3), None)));
    let pair = alloc.claim_reg_pair(RegisterPair::HL, Id::Assigned(4));
    assert_eq!(pair.into_raw(&mut alloc.registers), RegisterPair::HL);
    assert_eq!(alloc.registers.h, Some((Id::Assigned(4), None)));
    assert_eq!(alloc.registers.l, Some((Id::Assigned(4), None)));
    alloc.release_reg(RegSelector::R16(RegisterPair::HL)).release_reg(RegSelector::R8(GpRegister::D));
    assert_eq!(alloc.registers, GpRegisters::default());
    alloc.registers.release_rc(RegSelector::R8(GpRegister::A));
    assert_eq!(alloc.registers.a, None);
}

#[test]
fn handles_of_variables() {
    let mut alloc = ConstAllocator::default();
    alloc.registers.claim_pair(RegisterPair::DE, Id::Assigned(5));
    let inner = RawRegVariable::R16 { reg_pair: RegisterPair::DE, id: Id::Assigned(5) };
    let handle = RcRegVariable { inner };
    let copy = handle.clone(&mut alloc.registers);
    assert_eq!(copy.inner, inner);
    assert_eq!(alloc.registers.d, Some((Id::Assigned(5), Some(2))));
    copy.drop(&mut alloc.registers);
    assert_eq!(alloc.registers.e, Some((Id::Assigned(5), Some(1))));
    let var = Variable::Reg(RegVariable::Rc(handle));
    assert_eq!(var.as_raw(), RawVariable::Reg(inner));
    assert_eq!(var.into_raw(&mut alloc.registers), RawVariable::Reg(inner));
    assert_eq!(alloc.registers.d, Some((Id::Assigned(5), None)));
    assert_eq!(alloc.registers.e, Some((Id::Assigned(5), None)));
    let homeless = RcRegVariable { inner: RawRegVariable::UnallocatedR8(Id::Assigned(6)) };
    let before = alloc.registers.clone();
    let copy = homeless.clone(&mut alloc.registers);
    copy.drop(&mut alloc.registers);
    assert_eq!(homeless.into_raw(&mut alloc.registers), RawRegVariable::UnallocatedR8(Id::Assigned(6)));
    assert_eq!(alloc.registers, before);
}

#[test]
fn a_variable_is_given_up() {
    let mut alloc = ConstAllocator::default();
    alloc.registers.claim(GpRegister::B, Id::Assigned(1));
    alloc.registers.claim(GpRegister::C, Id::Assigned(2));
    let counted = Variable::Reg(RegVariable::Rc(RcRegVariable {
        inner: RawRegVariable::R8 { reg: GpRegister::B, id: Id::Assigned(1) },
    }));
    alloc.registers.increment_rc(RegSelector::R8(GpRegister::B));
    assert_eq!(alloc.dealloc_var(counted), Ok(()));
    assert_eq!(alloc.registers.b, Some((Id::Assigned(1), Some(1))));
    let raw = Variable::Reg(RegVariable::Raw(RawRegVariable::MemR8 {
        addr: 0xc000,
        reg: GpRegister::C,
        id: Id::Assigned(2),
    }));
    assert_eq!(alloc.dealloc_var(raw), Ok(()));
    assert_eq!(alloc.registers.c, None);
    let memory = Variable::Memory(MemoryVariable { addr: 0xc000, len: 1, id: Id::Assigned(3) });
    let before = alloc.clone();
    assert_eq!(alloc.dealloc_var(memory), Ok(()));
    assert_eq!(alloc.dealloc_var(Variable::Unallocated { len: 1, id: Id::Unset }), Ok(()));
    assert_eq!(alloc, before);
}

#[test]
fn the_allocator_starts_with_both_arenas_at_zero() {
    let mut alloc = ConstAllocator::default();
    assert_eq!(alloc.constants, AllocGroup { next: 0, offset: 0, len: 0x0800, used: 0 });
    assert_eq!(alloc.variables, AllocGroup { next: 0, offset: 0, len: 0x1000, used: 0 });
    assert_eq!(alloc.registers, GpRegisters::default());
    assert!(alloc.spilled.is_empty());
    assert!(alloc.has_free_register());
    assert!(alloc.has_free_pair());
    assert_eq!(alloc.alloc_const(0x0800), Ok(0));
    assert_eq!(alloc.alloc_const(1), Err(ConstAllocError::OutOfMemory));
    assert_eq!(alloc.alloc_var(2), Ok(0));
    assert_eq!(alloc.alloc_var(0x0fff), Err(ConstAllocError::OutOfMemory));
    assert_eq!(alloc.alloc_var(0x0ffe), Ok(2));
}

#[test]
fn lengths_that_fit_a_register() {
    assert_eq!(RegKind::try_from_len::<ConstAllocError>(1), Ok(RegKind::GpRegister));
    assert_eq!(RegKind::try_from_len::<ConstAllocError>(2), Ok(RegKind::RegisterPair));
    assert_eq!(
        RegKind::try_from_len::<ConstAllocError>(3),
        Err(ConstAllocError::TooBigForRegister)
    );
    assert_eq!(
        RegKind::try_from_len::<ConstAllocError>(0),
        Err(ConstAllocError::TooBigForRegister)
    );
    assert_eq!(ConstAllocError::oversized_load(), ConstAllocError::TooBigForRegister);
    let handle = RcGpRegister { inner: GpRegister::B };
    assert!(!handle.is_register(GpRegister::C));
}

#[test]
fn well_formed_states_are_told_apart() {
    let mut alloc = ConstAllocator::default();
    assert!(alloc.is_wf());
    alloc.registers.c = Some((Id::Unset, Some(0)));
    assert!(!alloc.registers.is_wf());
    assert!(!alloc.is_wf());
    alloc.registers.c = Some((Id::Unset, None));
    assert!(alloc.is_wf());
    alloc.variables.next = alloc.variables.len + 1;
    assert!(!alloc.variables.is_wf());
    alloc.variables = AllocGroup { next: 0, offset: 0xf001, len: 0x1000, used: 0 };
    assert!(!alloc.is_wf());
    alloc.variables.len = 0x0fff;
    assert!(alloc.is_wf());
}

#[test]
fn an_arena_may_end_at_the_top_of_the_address_space() {
    let mut group = AllocGroup { next: 0, offset: 0xf000, len: 0x1000, used: 0 };
    assert!(group.is_wf());
    assert_eq!(group.allocate(0x0fff), Ok(0xf000));
    assert_eq!(group.allocate(0), Ok(0xffff));
    assert_eq!(group.allocate(2), Err(ConstAllocError::OutOfMemory));
    assert_eq!(group.allocate(1), Ok(0xffff));
    assert_eq!(group.next, 0x1000);
    assert!(!group.fits(0));
    assert_eq!(group.allocate(0), Err(ConstAllocError::OutOfMemory));
    assert_eq!(group.allocate(1), Err(ConstAllocError::OutOfMemory));
    assert_eq!(group, AllocGroup { next: 0x1000, offset: 0xf000, len: 0x1000, used: 0 });
    let mut below = AllocGroup { next: 0x1000, offset: 0xe000, len: 0x1000, used: 0 };
    assert_eq!(below.allocate(0), Ok(0xf000));
}

#[test]
fn a_pair_with_one_half_taken_is_taken() {
    let mut alloc = ConstAllocator::default();
    alloc.registers.claim(GpRegister::B, Id::Assigned(1));
    assert!(alloc.reg_is_used(RegSelector::R16(RegisterPair::BC)));
    assert!(alloc.registers.is_claimed(RegSelector::R16(RegisterPair::BC)));
    alloc.registers.free(RegSelector::R8(GpRegister::B));
    alloc.registers.claim(GpRegister::C, Id::Assigned(1));
    assert!(alloc.reg_is_used(RegSelector::R16(RegisterPair::BC)));
    assert!(!alloc.reg_is_used(RegSelector::R16(RegisterPair::DE)));
    assert!(!alloc.reg_is_used(RegSelector::R16(RegisterPair::HL)));
    alloc.registers.claim(GpRegister::L, Id::Unset);
    assert!(alloc.reg_is_used(RegSelector::R16(RegisterPair::HL)));
    assert!(!alloc.reg_is_used(RegSelector::R16(RegisterPair::SP)));
    alloc.registers.free(RegSelector::R16(RegisterPair::BC));
    assert!(!alloc.reg_is_used(RegSelector::R16(RegisterPair::BC)));
}


#[test]
fn the_last_record_of_a_spilled_variable_is_found() {
    let mut alloc = ConstAllocator::default();
    assert_eq!(alloc.spilled_home(Id::Assigned(1)), None);
    alloc.spilled.push(MemoryVariable { addr: 0xc000, len: 1, id: Id::Assigned(1) });
    alloc.spilled.push(MemoryVariable { addr: 0xc001, len: 1, id: Id::Assigned(2) });
    alloc.spilled.push(MemoryVariable { addr: 0xc002, len: 1, id: Id::Assigned(1) });
    assert_eq!(
        alloc.spilled_home(Id::Assigned(1)),
        Some(MemoryVariable { addr: 0xc002, len: 1, id: Id::Assigned(1) })
    );
    assert_eq!(
        alloc.spilled_home(Id::Assigned(2)),
        Some(MemoryVariable { addr: 0xc001, len: 1, id: Id::Assigned(2) })
    );
    assert_eq!(alloc.spilled_home(Id::Unset), None);
}

#[test]
fn a_slot_knows_its_holder() {
    let held = Some((Id::Assigned(3), Some(2)));
    let bare = Some((Id::Unset, Some(1)));
    assert!(slot_is_of(held, Id::Assigned(3)));
    assert!(!slot_is_of(held, Id::Assigned(4)));
    assert!(!slot_is_of(held, Id::Unset));
    assert!(slot_is_of(bare, Id::Unset));
    assert!(!slot_is_of(None, Id::Unset));
    assert!(slot_is_variable(held));
    assert!(!slot_is_variable(bare));
    assert!(!slot_is_variable(None));
}

#[test]
fn a_variable_is_where_it_says_under_its_identifier() {
    let mut regs = GpRegisters::default();
    regs.claim(GpRegister::D, Id::Assigned(1));
    regs.claim_pair(RegisterPair::HL, Id::Assigned(2));
    regs.claim(GpRegister::B, Id::Assigned(3));
    let copy = regs.snapshot();
    assert_eq!(copy, regs);
    let byte = |reg, n| RawRegVariable::R8 { reg, id: Id::Assigned(n) };
    let pair = |reg_pair, n| RawRegVariable::R16 { reg_pair, id: Id::Assigned(n) };
    assert!(regs.holds(&byte(GpRegister::D, 1)));
    assert!(!regs.holds(&byte(GpRegister::D, 2)));
    assert!(!regs.holds(&byte(GpRegister::E, 1)));
    assert!(regs.holds(&RawRegVariable::MemR8 { addr: 0xc000, reg: GpRegister::D, id: Id::Assigned(1) }));
    assert!(regs.holds(&pair(RegisterPair::HL, 2)));
    assert!(regs.holds(&byte(GpRegister::H, 2)));
    assert!(!regs.holds(&pair(RegisterPair::HL, 1)));
    assert!(!regs.holds(&pair(RegisterPair::BC, 3)));
    assert!(!regs.holds(&pair(RegisterPair::DE, 1)));
    assert!(!regs.holds(&pair(RegisterPair::SP, 1)));
    assert!(regs.holds(&RawRegVariable::UnallocatedR16(Id::Assigned(9))));
    assert_eq!(byte(GpRegister::D, 1).id(), Id::Assigned(1));
    assert_eq!(RawRegVariable::UnallocatedR8(Id::Unset).id(), Id::Unset);
    assert_eq!(regs, copy);
}
