//! Instruction selection for the operations on variables.
//!
//! Each operation is a function from the allocator's state and the operands to
//! the instructions that are emitted, the allocator's state afterwards and a
//! result. The accumulator `a` is the pivot of every move to and from memory;
//! what it held is kept in a scratch register or on the stack meanwhile.
use vstd::prelude::*;

use crate::codegen::allocator::{
    spec_fresh_slot, spec_home, Allocator, AllocErrorTrait, AllocState, ConstAllocator, ConstAllocError,
    GpRegisters, RcGpRegister, RcRegVariable, RegKind, RegSlot,
};
use crate::codegen::meta_instr::{MetaInstruction, MetaInstructionTrait, VarOrConst};
use crate::codegen::variables::{
    Constant, Id, MemoryVariable, RawRegVariable, RawVariable, RegSelector, RegVariable, Variable,
};
use crate::codegen::AssemblerError;
use crate::cpu::instructions::{Condition, Instruction};
use crate::cpu::{CpuFlag, GpRegister, IndirectPair, RegisterPair, StackPair};
use crate::memory::{low_byte, spec_low_byte, Addr, ZERO_PAGE};

verus! {

/// What an operation selects: its result, the instructions that it emits, and
/// the allocator's state after it. The instructions are emitted and the state
/// is reached whether the result is an error or not.
#[verifier::ext_equal]
pub struct Selected<T> {
    pub result: Result<T, AssemblerError>,
    pub code: Seq<Instruction>,
    pub alloc: AllocState,
}

/// Where the accumulator's value is kept while the accumulator is the pivot of
/// a move.
#[derive(Clone, Copy, Debug, PartialEq, Eq, Structural)]
pub enum Scratch {
    /// Nowhere: the accumulator was free.
    Accumulator,
    /// In a register that was free.
    Register(GpRegister),
    /// On the stack: no register was free.
    Stack,
}

/// The instruction that stores `a` at `addr`: the short form within the zero
/// page, the long form elsewhere.
pub open spec fn spec_store_a(addr: Addr) -> Instruction {
    if addr >= ZERO_PAGE {
        Instruction::LdhFromA(spec_low_byte(addr))
    } else {
        Instruction::LdAToInd(addr)
    }
}

/// The instruction that loads `a` from `addr`: the short form within the zero
/// page, the long form elsewhere.
pub open spec fn spec_load_a(addr: Addr) -> Instruction {
    if addr >= ZERO_PAGE {
        Instruction::LdhToA(spec_low_byte(addr))
    } else {
        Instruction::LdAFromInd(addr)
    }
}

/// Where the accumulator's value is kept, given the registers: nowhere if the
/// accumulator is free, else in the first free register, else on the stack.
pub open spec fn spec_scratch(registers: GpRegisters) -> Scratch {
    match registers.spec_first_free() {
        Some(GpRegister::A) => Scratch::Accumulator,
        Some(reg) => Scratch::Register(reg),
        None => Scratch::Stack,
    }
}

/// The instructions that put the accumulator's value away.
pub open spec fn spec_save_a(scratch: Scratch) -> Seq<Instruction> {
    match scratch {
        Scratch::Accumulator => Seq::empty(),
        Scratch::Register(reg) => seq![Instruction::LdR8FromR8(reg, GpRegister::A)],
        Scratch::Stack => seq![Instruction::Push(StackPair::AF)],
    }
}

/// The instructions that bring the accumulator's value back.
pub open spec fn spec_restore_a(scratch: Scratch) -> Seq<Instruction> {
    match scratch {
        Scratch::Accumulator => Seq::empty(),
        Scratch::Register(reg) => seq![Instruction::LdR8FromR8(GpRegister::A, reg)],
        Scratch::Stack => seq![Instruction::Pop(StackPair::AF)],
    }
}

/// `body` with the accumulator's value put away before it and brought back
/// after it.
pub open spec fn spec_with_a(registers: GpRegisters, body: Seq<Instruction>) -> Seq<Instruction> {
    spec_save_a(spec_scratch(registers)) + body + spec_restore_a(spec_scratch(registers))
}

/// The identifier in a slot; `Unset` for a free one.
pub open spec fn spec_slot_id(slot: RegSlot) -> Id {
    match slot {
        Some((id, _)) => id,
        None => Id::Unset,
    }
}

pub fn slot_id(slot: RegSlot) -> (id: Id)
    ensures
        id == spec_slot_id(slot),
{
    match slot {
        Some((id, _)) => id,
        None => Id::Unset,
    }
}

/// Emits the store of `a` at `addr`.
pub fn store_a(addr: Addr, out: &mut Vec<Instruction>)
    ensures
        final(out)@ == old(out)@.push(spec_store_a(addr)),
{
    if addr >= ZERO_PAGE {
        out.push(Instruction::LdhFromA(low_byte(addr)));
    } else {
        out.push(Instruction::LdAToInd(addr));
    }
}

/// Emits the load of `a` from `addr`.
pub fn load_a(addr: Addr, out: &mut Vec<Instruction>)
    ensures
        final(out)@ == old(out)@.push(spec_load_a(addr)),
{
    if addr >= ZERO_PAGE {
        out.push(Instruction::LdhToA(low_byte(addr)));
    } else {
        out.push(Instruction::LdAFromInd(addr));
    }
}

/// Puts the accumulator's value away: takes the first free register for it, or
/// pushes it if there is none. Returns the handle to the register that was
/// taken.
pub fn save_a(alloc: &mut ConstAllocator, out: &mut Vec<Instruction>) -> (tmp: Option<
    RcGpRegister,
>)
    ensures
        final(alloc)@ == old(alloc)@.with_registers(old(alloc)@.registers.spec_alloc()),
        final(out)@ == old(out)@ + spec_save_a(spec_scratch(old(alloc)@.registers)),
        tmp == match old(alloc)@.registers.spec_first_free() {
            Some(reg) => Some(RcGpRegister { inner: reg }),
            None => None,
        },
        old(alloc)@.wf() ==> final(alloc)@.wf(),
{
    match alloc.registers.alloc_reg() {
        Ok(reg) => {
            let tmp = RcGpRegister { inner: reg };
            if !tmp.is_register(GpRegister::A) {
                out.push(Instruction::LdR8FromR8(tmp.inner, GpRegister::A));
            }
            Some(tmp)
        },
        Err(_) => {
            out.push(Instruction::Push(StackPair::AF));
            None
        },
    }
}

/// Brings the accumulator's value back from where `save_a` put it, and gives
/// the register up that it was kept in.
pub fn restore_a(alloc: &mut ConstAllocator, tmp: Option<RcGpRegister>, out: &mut Vec<Instruction>)
    requires
        old(alloc)@.wf(),
    ensures
        final(alloc)@ == old(alloc)@.with_registers(
            match tmp {
                Some(t) => old(alloc)@.registers.spec_crement_rc(RegSelector::R8(t.inner), false),
                None => old(alloc)@.registers,
            },
        ),
        final(out)@ == old(out)@ + spec_restore_a(
            match tmp {
                Some(t) => if t.inner == GpRegister::A {
                    Scratch::Accumulator
                } else {
                    Scratch::Register(t.inner)
                },
                None => Scratch::Stack,
            },
        ),
        final(alloc)@.wf(),
{
    match tmp {
        Some(tmp) => {
            if !tmp.is_register(GpRegister::A) {
                out.push(Instruction::LdR8FromR8(GpRegister::A, tmp.inner));
            }
            tmp.drop(&mut alloc.registers);
        },
        None => {
            out.push(Instruction::Pop(StackPair::AF));
        },
    }
}

/// A register that is taken for a scratch value and given up again leaves the
/// registers as they were.
pub proof fn lemma_scratch_is_returned(registers: GpRegisters)
    ensures
        registers.spec_first_free() matches Some(reg) ==> registers.spec_alloc().spec_crement_rc(
            RegSelector::R8(reg),
            false,
        ) == registers,
{
}

/// Emits `body` between `save_a` and `restore_a`.
pub fn with_a(alloc: &mut ConstAllocator, body: &Vec<Instruction>, out: &mut Vec<Instruction>)
    requires
        old(alloc)@.wf(),
    ensures
        final(alloc)@ == old(alloc)@,
        final(out)@ == old(out)@ + spec_with_a(old(alloc)@.registers, body@),
{
    let tmp = save_a(alloc, out);
    let mut i: usize = 0;
    let ghost before = out@;
    while i < body.len()
        invariant
            i <= body@.len(),
            out@ == before + body@.take(i as int),
        decreases body@.len() - i,
    {
        out.push(body[i]);
        proof {
            assert(body@.take(i + 1) =~= body@.take(i as int).push(body@[i as int]));
        }
        i = i + 1;
    }
    proof {
        assert(body@.take(i as int) =~= body@);
        lemma_scratch_is_returned(old(alloc)@.registers);
    }
    restore_a(alloc, tmp, out);
}


/// The records of the variables that lose a pair: one of two bytes if both
/// halves belong to one variable, else one of one byte for each half that is
/// taken, the low half at `cell`, the high half above it.
pub open spec fn spec_pair_records(hi: RegSlot, lo: RegSlot, cell: Addr) -> Seq<MemoryVariable> {
    if hi is Some && lo is Some && spec_slot_id(hi) == spec_slot_id(lo) {
        seq![MemoryVariable { addr: cell, len: 2, id: spec_slot_id(lo) }]
    } else {
        (if lo is Some {
            seq![MemoryVariable { addr: cell, len: 1, id: spec_slot_id(lo) }]
        } else {
            Seq::empty()
        }) + (if hi is Some {
            seq![MemoryVariable { addr: (cell + 1) as u16, len: 1, id: spec_slot_id(hi) }]
        } else {
            Seq::empty()
        })
    }
}

/// True if what holds the slot can be moved to memory: a variable, which is
/// known by the identifier that it was given. A register that was handed out
/// by itself, under no identifier, stays where it is.
pub open spec fn spec_slot_is_variable(slot: RegSlot) -> bool {
    slot matches Some((Id::Assigned(_), _))
}

pub fn slot_is_variable(slot: RegSlot) -> (r: bool)
    ensures
        r == spec_slot_is_variable(slot),
{
    match slot {
        Some((Id::Assigned(_), _)) => true,
        _ => false,
    }
}

/// True if each half of a pair that is taken is taken by a variable.
pub open spec fn spec_pair_can_move(hi: RegSlot, lo: RegSlot) -> bool {
    (hi is None || spec_slot_is_variable(hi)) && (lo is None || spec_slot_is_variable(lo))
}

/// Making room for one byte when no register is free: the accumulator's
/// variable moves to a new cell of RAM, is recorded there, and the accumulator
/// is free. Fails with `OutOfRegisters` if no variable holds the accumulator,
/// and with `OutOfMemory` if RAM is full, and changes nothing then.
pub open spec fn spec_spill8(a: AllocState) -> Selected<()> {
    if !spec_slot_is_variable(a.registers.a) {
        Selected {
            result: Err(AssemblerError::AllocError(ConstAllocError::OutOfRegisters)),
            code: Seq::empty(),
            alloc: a,
        }
    } else {
        match a.variables.spec_result(1) {
            Err(e) => Selected { result: Err(AssemblerError::AllocError(e)), code: Seq::empty(), alloc: a },
            Ok(cell) => Selected {
                result: Ok(()),
                code: seq![spec_store_a(cell)],
                alloc: AllocState {
                    variables: a.variables.spec_after(1),
                    registers: a.registers.spec_with(GpRegister::A, None),
                    spilled: a.spilled.push(
                        MemoryVariable { addr: cell, len: 1, id: spec_slot_id(a.registers.a) },
                    ),
                    ..a
                },
            },
        }
    }
}

/// Making room for two bytes when no pair is free: what `BC` holds moves to
/// two new cells of RAM, low byte first, is recorded there, and `BC` is free.
/// Fails with `OutOfRegisters` if a half of `BC` is taken by anything but a
/// variable, and with `OutOfMemory` if RAM is full, and changes nothing then.
pub open spec fn spec_spill16(a: AllocState) -> Selected<()> {
    if !spec_pair_can_move(a.registers.b, a.registers.c) {
        Selected {
            result: Err(AssemblerError::AllocError(ConstAllocError::OutOfRegisters)),
            code: Seq::empty(),
            alloc: a,
        }
    } else {
        match a.variables.spec_result(2) {
            Err(e) => Selected { result: Err(AssemblerError::AllocError(e)), code: Seq::empty(), alloc: a },
            Ok(cell) => Selected {
                result: Ok(()),
                code: spec_with_a(
                    a.registers,
                    seq![
                        Instruction::LdR8FromR8(GpRegister::A, GpRegister::C),
                        spec_store_a(cell),
                        Instruction::LdR8FromR8(GpRegister::A, GpRegister::B),
                        spec_store_a((cell + 1) as u16),
                    ],
                ),
                alloc: AllocState {
                    variables: a.variables.spec_after(2),
                    registers: a.registers.spec_with(GpRegister::B, None).spec_with(GpRegister::C, None),
                    spilled: a.spilled + spec_pair_records(a.registers.b, a.registers.c, cell),
                    ..a
                },
            },
        }
    }
}

/// Loading one byte from `addr` for the variable `id`: room is made if no
/// register is free; the first free register is taken for the variable, and
/// takes over the accumulator's value unless it is the accumulator; then the
/// byte is loaded into the accumulator.
pub open spec fn spec_load8(a: AllocState, addr: Addr, id: Id) -> Selected<RegVariable> {
    let room = if a.registers.spec_first_free() is None {
        spec_spill8(a)
    } else {
        Selected { result: Ok(()), code: Seq::empty(), alloc: a }
    };
    match room.result {
        Err(e) => Selected { result: Err(e), code: room.code, alloc: room.alloc },
        Ok(_) => {
            let reg = room.alloc.registers.spec_first_free()->Some_0;
            Selected {
                result: Ok(
                    RegVariable::Rc(RcRegVariable { inner: RawRegVariable::MemR8 { addr, reg, id } }),
                ),
                code: room.code + (if reg != GpRegister::A {
                    seq![Instruction::LdR8FromR8(reg, GpRegister::A)]
                } else {
                    Seq::empty()
                }) + seq![Instruction::LdAFromInd(addr)],
                alloc: room.alloc.with_registers(
                    room.alloc.registers.spec_with(reg, spec_fresh_slot(id)),
                ),
            }
        },
    }
}

/// Loading two bytes from `addr` for the variable `id`: room is made if no
/// pair is free; the first free pair is taken for the variable; then the low
/// byte is loaded from `addr` and the high byte from above it, each through
/// the accumulator, whose value is kept.
pub open spec fn spec_load16(a: AllocState, addr: Addr, id: Id) -> Selected<RegVariable> {
    let room = if a.registers.spec_first_free_pair() is None {
        spec_spill16(a)
    } else {
        Selected { result: Ok(()), code: Seq::empty(), alloc: a }
    };
    match room.result {
        Err(e) => Selected { result: Err(e), code: room.code, alloc: room.alloc },
        Ok(_) => {
            let pair = room.alloc.registers.spec_first_free_pair()->Some_0;
            let hi = pair.spec_split()->Ok_0.0;
            let lo = pair.spec_split()->Ok_0.1;
            let registers = room.alloc.registers.spec_with_pair(
                pair,
                spec_fresh_slot(id),
                spec_fresh_slot(id),
            );
            Selected {
                result: Ok(
                    RegVariable::Rc(
                        RcRegVariable { inner: RawRegVariable::MemR16 { addr, reg_pair: pair, id } },
                    ),
                ),
                code: room.code + spec_with_a(
                    registers,
                    seq![
                        Instruction::LdAFromInd(addr),
                        Instruction::LdR8FromR8(lo, GpRegister::A),
                        Instruction::LdAFromInd((addr + 1) as u16),
                        Instruction::LdR8FromR8(hi, GpRegister::A),
                    ],
                ),
                alloc: room.alloc.with_registers(registers),
            }
        },
    }
}

/// Making a variable available in registers. One that is in registers is
/// returned as it is, uncounted, and one without a home as the register
/// variable without a home of its length; nothing is emitted for either. One in
/// memory is loaded into a register or pair that is taken for it, and the
/// result holds the one reference to that. A length other than 1 and 2 fails
/// with `TooBigForRegister`.
pub open spec fn spec_load_raw(a: AllocState, var: RawVariable) -> Selected<RegVariable> {
    match var {
        RawVariable::Reg(v) => Selected { result: Ok(RegVariable::Raw(v)), code: Seq::empty(), alloc: a },
        RawVariable::Unallocated { len, id } => Selected {
            result: if len == 1 {
                Ok(RegVariable::Raw(RawRegVariable::UnallocatedR8(id)))
            } else if len == 2 {
                Ok(RegVariable::Raw(RawRegVariable::UnallocatedR16(id)))
            } else {
                Err(AssemblerError::AllocError(ConstAllocError::TooBigForRegister))
            },
            code: Seq::empty(),
            alloc: a,
        },
        RawVariable::Memory(m) => match RegKind::spec_from_len(m.len) {
            None => Selected {
                result: Err(AssemblerError::AllocError(ConstAllocError::TooBigForRegister)),
                code: Seq::empty(),
                alloc: a,
            },
            Some(RegKind::GpRegister) => spec_load8(a, m.addr, m.id),
            Some(RegKind::RegisterPair) => spec_load16(a, m.addr, m.id),
        },
    }
}

/// The allocator after a register variable that an operation loaded for its
/// own use was given up: a counted one gives its reference back.
pub open spec fn spec_release_loaded(a: AllocState, var: RegVariable) -> AllocState {
    match var {
        RegVariable::Rc(rc) => a.with_registers(a.registers.spec_drop_var(rc.inner)),
        RegVariable::Raw(_) => a,
    }
}

/// Makes room for one byte when no register is free.
fn spill8(alloc: &mut ConstAllocator, out: &mut Vec<Instruction>) -> (r: Result<(), AssemblerError>)
    requires
        old(alloc)@.wf(),
    ensures
        r == spec_spill8(old(alloc)@).result,
        final(alloc)@ == spec_spill8(old(alloc)@).alloc,
        final(out)@ == old(out)@ + spec_spill8(old(alloc)@).code,
        final(alloc)@.wf(),
{
    proof {
        assert(out@ =~= old(out)@ + Seq::<Instruction>::empty());
    }
    if !slot_is_variable(alloc.registers.index(GpRegister::A)) {
        return Err(AssemblerError::AllocError(ConstAllocError::OutOfRegisters));
    }
    let cell = match alloc.variables.allocate(1) {
        Ok(cell) => cell,
        Err(e) => {
            return Err(AssemblerError::AllocError(e));
        },
    };
    store_a(cell, out);
    let id = slot_id(alloc.registers.index(GpRegister::A));
    alloc.spilled.push(MemoryVariable { addr: cell, len: 1, id });
    alloc.registers.free(RegSelector::R8(GpRegister::A));
    proof {
        assert(out@ =~= old(out)@ + seq![spec_store_a(cell)]);
    }
    Ok(())
}

/// Records the variables that lose the pair `BC` to the cells at `cell`.
fn record_pair(alloc: &mut ConstAllocator, cell: Addr)
    requires
        cell < u16::MAX,
    ensures
        final(alloc)@ == (AllocState {
            spilled: old(alloc)@.spilled + spec_pair_records(
                old(alloc)@.registers.b,
                old(alloc)@.registers.c,
                cell,
            ),
            ..old(alloc)@
        }),
{
    let hi = alloc.registers.index(GpRegister::B);
    let lo = alloc.registers.index(GpRegister::C);
    let ghost before = alloc.spilled@;
    let same = match (hi, lo) {
        (Some((id1, _)), Some((id2, _))) => id1 == id2,
        _ => false,
    };
    if same {
        alloc.spilled.push(MemoryVariable { addr: cell, len: 2, id: slot_id(lo) });
    } else {
        if lo.is_some() {
            alloc.spilled.push(MemoryVariable { addr: cell, len: 1, id: slot_id(lo) });
        }
        if hi.is_some() {
            alloc.spilled.push(MemoryVariable { addr: cell + 1, len: 1, id: slot_id(hi) });
        }
    }
    proof {
        assert(alloc.spilled@ =~= before + spec_pair_records(hi, lo, cell));
    }
}

/// Makes room for two bytes when no pair is free.
fn spill16(alloc: &mut ConstAllocator, out: &mut Vec<Instruction>) -> (r: Result<(), AssemblerError>)
    requires
        old(alloc)@.wf(),
    ensures
        r == spec_spill16(old(alloc)@).result,
        final(alloc)@ == spec_spill16(old(alloc)@).alloc,
        final(out)@ == old(out)@ + spec_spill16(old(alloc)@).code,
        final(alloc)@.wf(),
{
    proof {
        assert(out@ =~= old(out)@ + Seq::<Instruction>::empty());
    }
    let hi = alloc.registers.index(GpRegister::B);
    let lo = alloc.registers.index(GpRegister::C);
    if !((hi.is_none() || slot_is_variable(hi)) && (lo.is_none() || slot_is_variable(lo))) {
        return Err(AssemblerError::AllocError(ConstAllocError::OutOfRegisters));
    }
    let cell = match alloc.variables.allocate(2) {
        Ok(cell) => cell,
        Err(e) => {
            return Err(AssemblerError::AllocError(e));
        },
    };
    let mut body: Vec<Instruction> = Vec::new();
    body.push(Instruction::LdR8FromR8(GpRegister::A, GpRegister::C));
    store_a(cell, &mut body);
    body.push(Instruction::LdR8FromR8(GpRegister::A, GpRegister::B));
    store_a(cell + 1, &mut body);
    proof {
        assert(body@ =~= seq![
            Instruction::LdR8FromR8(GpRegister::A, GpRegister::C),
            spec_store_a(cell),
            Instruction::LdR8FromR8(GpRegister::A, GpRegister::B),
            spec_store_a((cell + 1) as u16),
        ]);
    }
    with_a(alloc, &body, out);
    record_pair(alloc, cell);
    alloc.registers.free(RegSelector::R16(RegisterPair::BC));
    Ok(())
}

/// Loads one byte from `addr` for the variable `id`.
fn load8(alloc: &mut ConstAllocator, addr: Addr, id: Id, out: &mut Vec<Instruction>) -> (r: Result<
    RegVariable,
    AssemblerError,
>)
    requires
        old(alloc)@.wf(),
    ensures
        r == spec_load8(old(alloc)@, addr, id).result,
        final(alloc)@ == spec_load8(old(alloc)@, addr, id).alloc,
        final(out)@ == old(out)@ + spec_load8(old(alloc)@, addr, id).code,
        final(alloc)@.wf(),
{
    if !alloc.has_free_register() {
        match spill8(alloc, out) {
            Ok(_) => {},
            Err(e) => {
                return Err(e);
            },
        }
    } else {
        proof {
            assert(out@ =~= old(out)@ + Seq::<Instruction>::empty());
        }
    }
    let ghost room = out@;
    let reg = match alloc.registers.alloc_reg() {
        Ok(reg) => reg,
        Err(_) => {
            proof {
                assert(false);
            }
            return Err(AssemblerError::AllocError(ConstAllocError::OutOfRegisters));
        },
    };
    alloc.registers.claim(reg, id);
    if reg != GpRegister::A {
        out.push(Instruction::LdR8FromR8(reg, GpRegister::A));
    }
    out.push(Instruction::LdAFromInd(addr));
    proof {
        assert(out@ =~= room + (if reg != GpRegister::A {
            seq![Instruction::LdR8FromR8(reg, GpRegister::A)]
        } else {
            Seq::empty()
        }) + seq![Instruction::LdAFromInd(addr)]);
    }
    Ok(RegVariable::Rc(RcRegVariable { inner: RawRegVariable::MemR8 { addr, reg, id } }))
}

/// Loads two bytes from `addr` for the variable `id`.
fn load16(alloc: &mut ConstAllocator, addr: Addr, id: Id, out: &mut Vec<Instruction>) -> (r: Result<
    RegVariable,
    AssemblerError,
>)
    requires
        old(alloc)@.wf(),
        addr < u16::MAX,
    ensures
        r == spec_load16(old(alloc)@, addr, id).result,
        final(alloc)@ == spec_load16(old(alloc)@, addr, id).alloc,
        final(out)@ == old(out)@ + spec_load16(old(alloc)@, addr, id).code,
        final(alloc)@.wf(),
{
    if !alloc.has_free_pair() {
        match spill16(alloc, out) {
            Ok(_) => {},
            Err(e) => {
                return Err(e);
            },
        }
    } else {
        proof {
            assert(out@ =~= old(out)@ + Seq::<Instruction>::empty());
        }
    }
    let ghost room = out@;
    let pair = match alloc.registers.alloc_pair() {
        Ok(pair) => pair,
        Err(_) => {
            proof {
                assert(false);
            }
            return Err(AssemblerError::AllocError(ConstAllocError::OutOfRegisters));
        },
    };
    alloc.registers.claim_pair(pair, id);
    let (hi, lo) = match pair.try_split() {
        Ok(halves) => halves,
        Err(e) => {
            proof {
                assert(false);
            }
            return Err(AssemblerError::RegSplitError(e));
        },
    };
    let mut body: Vec<Instruction> = Vec::new();
    body.push(Instruction::LdAFromInd(addr));
    body.push(Instruction::LdR8FromR8(lo, GpRegister::A));
    body.push(Instruction::LdAFromInd(addr + 1));
    body.push(Instruction::LdR8FromR8(hi, GpRegister::A));
    proof {
        assert(body@ =~= seq![
            Instruction::LdAFromInd(addr),
            Instruction::LdR8FromR8(lo, GpRegister::A),
            Instruction::LdAFromInd((addr + 1) as u16),
            Instruction::LdR8FromR8(hi, GpRegister::A),
        ]);
    }
    with_a(alloc, &body, out);
    proof {
        assert(out@ =~= old(out)@ + spec_load16(old(alloc)@, addr, id).code);
    }
    Ok(RegVariable::Rc(RcRegVariable { inner: RawRegVariable::MemR16 { addr, reg_pair: pair, id } }))
}

/// Selects the instructions that make `var` available in registers.
pub fn load_raw_code(alloc: &mut ConstAllocator, var: &Variable, out: &mut Vec<Instruction>) -> (r:
    Result<RegVariable, AssemblerError>)
    requires
        old(alloc)@.wf(),
        var.spec_raw().spec_wf(),
    ensures
        r == spec_load_raw(old(alloc)@, var.spec_raw()).result,
        final(alloc)@ == spec_load_raw(old(alloc)@, var.spec_raw()).alloc,
        final(out)@ == old(out)@ + spec_load_raw(old(alloc)@, var.spec_raw()).code,
        final(alloc)@.wf(),
{
    proof {
        assert(out@ =~= old(out)@ + Seq::<Instruction>::empty());
    }
    match var {
        Variable::Memory(var) => {
            let kind: Result<RegKind, ConstAllocError> = RegKind::try_from_len(var.len);
            match kind {
                Ok(RegKind::GpRegister) => load8(alloc, var.addr, var.id, out),
                Ok(RegKind::RegisterPair) => load16(alloc, var.addr, var.id, out),
                Err(e) => Err(AssemblerError::AllocError(e)),
            }
        },
        Variable::Reg(var) => Ok(RegVariable::Raw(var.inner())),
        Variable::Unallocated { len, id } => {
            if *len == 1 {
                Ok(RegVariable::Raw(RawRegVariable::UnallocatedR8(*id)))
            } else if *len == 2 {
                Ok(RegVariable::Raw(RawRegVariable::UnallocatedR16(*id)))
            } else {
                Err(AssemblerError::AllocError(ConstAllocError::oversized_load()))
            }
        },
    }
}

/// Gives up a register variable that an operation loaded for its own use.
pub fn release_loaded(alloc: &mut ConstAllocator, var: RegVariable)
    requires
        old(alloc)@.wf(),
    ensures
        final(alloc)@ == spec_release_loaded(old(alloc)@, var),
        final(alloc)@.wf(),
{
    match var {
        RegVariable::Rc(rc) => rc.drop(&mut alloc.registers),
        RegVariable::Raw(_) => {},
    }
}


/// What an operation on a variable in registers selects: the instructions, and
/// an error if the variable cannot be used so. Nothing is selected with an
/// error.
pub open spec fn spec_code_of(selected: Result<Seq<Instruction>, AssemblerError>) -> Seq<
    Instruction,
> {
    match selected {
        Ok(code) => code,
        Err(_) => Seq::empty(),
    }
}

/// The result of an operation that selected `selected`.
pub open spec fn spec_unit_of(selected: Result<Seq<Instruction>, AssemblerError>) -> Result<
    (),
    AssemblerError,
> {
    match selected {
        Ok(_) => Ok(()),
        Err(e) => Err(e),
    }
}

/// An operation that first makes its variable available in registers, then
/// selects `then` for it, then gives up what it loaded.
pub open spec fn spec_on_loaded(
    loaded: Selected<RegVariable>,
    then: spec_fn(GpRegisters, RawRegVariable) -> Result<Seq<Instruction>, AssemblerError>,
) -> Selected<()> {
    match loaded.result {
        Err(e) => Selected { result: Err(e), code: loaded.code, alloc: loaded.alloc },
        Ok(v) => {
            let selected = then(loaded.alloc.registers, v.spec_inner());
            Selected {
                result: spec_unit_of(selected),
                code: loaded.code + spec_code_of(selected),
                alloc: spec_release_loaded(loaded.alloc, v),
            }
        },
    }
}

/// Storing a variable that is in registers at `dest`. A byte goes through the
/// accumulator, whose value is kept unless the byte is in it. Of two bytes the
/// high one goes to `dest` and the low one above it. A variable without a home
/// gets a placeholder. `SP` cannot be stored.
pub open spec fn spec_reg_to_ind(registers: GpRegisters, raw: RawRegVariable, dest: Addr) -> Result<
    Seq<Instruction>,
    AssemblerError,
> {
    match raw {
        RawRegVariable::R8 { reg: src, .. } | RawRegVariable::MemR8 { reg: src, .. } => Ok(
            if src == GpRegister::A {
                seq![spec_store_a(dest)]
            } else {
                spec_with_a(
                    registers,
                    seq![Instruction::LdR8FromR8(GpRegister::A, src), spec_store_a(dest)],
                )
            },
        ),
        RawRegVariable::R16 { reg_pair, .. }
        | RawRegVariable::MemR16 { reg_pair, .. } => match reg_pair.spec_split() {
            Ok((hi, lo)) => Ok(
                spec_with_a(
                    registers,
                    seq![
                        Instruction::LdR8FromR8(GpRegister::A, hi),
                        spec_store_a(dest),
                        Instruction::LdR8FromR8(GpRegister::A, lo),
                        spec_store_a((dest + 1) as u16),
                    ],
                ),
            ),
            Err(e) => Err(AssemblerError::RegSplitError(e)),
        },
        RawRegVariable::UnallocatedR8(_) | RawRegVariable::UnallocatedR16(_) => Ok(
            seq![
                Instruction::Meta(
                    MetaInstruction::VarToInd {
                        dest: RawVariable::Memory(
                            MemoryVariable { addr: dest, len: raw.spec_len(), id: Id::Unset },
                        ),
                        src: RawVariable::Reg(raw),
                    },
                ),
            ],
        ),
    }
}

/// Loading a variable that is in registers from `src`. A byte comes through
/// the accumulator, whose value is kept unless the variable is in it. Of two
/// bytes the high one comes from `src` and the low one from above it. A
/// variable without a home gets a placeholder. `SP` cannot be loaded so.
pub open spec fn spec_reg_from_ind(registers: GpRegisters, raw: RawRegVariable, src: Addr) -> Result<
    Seq<Instruction>,
    AssemblerError,
> {
    match raw {
        RawRegVariable::R8 { reg: dest, .. } | RawRegVariable::MemR8 { reg: dest, .. } => Ok(
            if dest == GpRegister::A {
                seq![spec_load_a(src)]
            } else {
                spec_with_a(
                    registers,
                    seq![spec_load_a(src), Instruction::LdR8FromR8(dest, GpRegister::A)],
                )
            },
        ),
        RawRegVariable::R16 { reg_pair, .. }
        | RawRegVariable::MemR16 { reg_pair, .. } => match reg_pair.spec_split() {
            Ok((hi, lo)) => Ok(
                spec_with_a(
                    registers,
                    seq![
                        spec_load_a(src),
                        Instruction::LdR8FromR8(hi, GpRegister::A),
                        spec_load_a((src + 1) as u16),
                        Instruction::LdR8FromR8(lo, GpRegister::A),
                    ],
                ),
            ),
            Err(e) => Err(AssemblerError::RegSplitError(e)),
        },
        RawRegVariable::UnallocatedR8(_) | RawRegVariable::UnallocatedR16(_) => Ok(
            seq![
                Instruction::Meta(
                    MetaInstruction::VarFromInd {
                        dest: RawVariable::Reg(raw),
                        src: RawVariable::Memory(
                            MemoryVariable { addr: src, len: raw.spec_len(), id: Id::Unset },
                        ),
                    },
                ),
            ],
        ),
    }
}

/// Incrementing (`up`) or decrementing a variable that is in registers: one
/// instruction on its register or pair, or a placeholder if it has no home.
pub open spec fn spec_reg_crement(raw: RawRegVariable, up: bool) -> Result<
    Seq<Instruction>,
    AssemblerError,
> {
    Ok(
        match raw {
            RawRegVariable::R8 { reg, .. } | RawRegVariable::MemR8 { reg, .. } => if up {
                seq![Instruction::IncR8(reg)]
            } else {
                seq![Instruction::DecR8(reg)]
            },
            RawRegVariable::R16 { reg_pair, .. } | RawRegVariable::MemR16 { reg_pair, .. } => if up {
                seq![Instruction::IncR16(reg_pair)]
            } else {
                seq![Instruction::DecR16(reg_pair)]
            },
            RawRegVariable::UnallocatedR8(_) | RawRegVariable::UnallocatedR16(_) => if up {
                seq![Instruction::Meta(MetaInstruction::VarInc { var: RawVariable::Reg(raw) })]
            } else {
                seq![Instruction::Meta(MetaInstruction::VarDec { var: RawVariable::Reg(raw) })]
            },
        },
    )
}

/// Loading the accumulator from where a variable in registers points: through
/// `c` into the zero page, or through a pair that can be a pointer. Any other
/// register and `SP` are out of place. A variable without a home gets a
/// placeholder.
pub open spec fn spec_reg_a_from_ind(raw: RawRegVariable) -> Result<Seq<Instruction>, AssemblerError> {
    match raw {
        RawRegVariable::R8 { reg, .. } | RawRegVariable::MemR8 { reg, .. } => if reg
            == GpRegister::C {
            Ok(seq![Instruction::LdhToAWithC])
        } else {
            Err(AssemblerError::ArgumentError)
        },
        RawRegVariable::R16 { reg_pair, .. }
        | RawRegVariable::MemR16 { reg_pair, .. } => match IndirectPair::spec_from_pair(reg_pair) {
            Ok(pair) => Ok(seq![Instruction::LdAFromR16(pair)]),
            Err(_) => Err(AssemblerError::ArgumentError),
        },
        RawRegVariable::UnallocatedR8(_) | RawRegVariable::UnallocatedR16(_) => Ok(
            seq![
                Instruction::Meta(
                    MetaInstruction::VarFromInd {
                        dest: RawVariable::Reg(
                            RawRegVariable::R8 { reg: GpRegister::A, id: Id::Unset },
                        ),
                        src: RawVariable::Reg(raw),
                    },
                ),
            ],
        ),
    }
}

/// Storing `var` at `dest`: the variable is made available in registers,
/// stored from there, and what was loaded for it is given up.
pub open spec fn spec_ld_raw_to_ind(a: AllocState, var: RawVariable, dest: Addr) -> Selected<()> {
    spec_on_loaded(
        spec_load_raw(a, var),
        |registers: GpRegisters, raw: RawRegVariable| spec_reg_to_ind(registers, raw, dest),
    )
}

/// Loading `var` from `src`: the variable is made available in registers,
/// loaded there, and what was loaded for it before is given up.
pub open spec fn spec_ld_raw_from_ind(a: AllocState, var: RawVariable, src: Addr) -> Selected<()> {
    spec_on_loaded(
        spec_load_raw(a, var),
        |registers: GpRegisters, raw: RawRegVariable| spec_reg_from_ind(registers, raw, src),
    )
}

/// Incrementing (`up`) or decrementing `var`: the variable is made available
/// in registers, stepped there, and what was loaded for it is given up.
pub open spec fn spec_crement_raw(a: AllocState, var: RawVariable, up: bool) -> Selected<()> {
    spec_on_loaded(
        spec_load_raw(a, var),
        |registers: GpRegisters, raw: RawRegVariable| spec_reg_crement(raw, up),
    )
}

/// Loading the accumulator from where `var` points: the variable is made
/// available in registers and used as the pointer, and what was loaded for it
/// is given up.
pub open spec fn spec_ld_a_from_raw_ind(a: AllocState, var: RawVariable) -> Selected<()> {
    spec_on_loaded(
        spec_load_raw(a, var),
        |registers: GpRegisters, raw: RawRegVariable| spec_reg_a_from_ind(raw),
    )
}

/// Appends what was selected for a variable in registers, and gives up what
/// was loaded for it.
fn finish_loaded(
    alloc: &mut ConstAllocator,
    loaded: RegVariable,
    selected: Result<Vec<Instruction>, AssemblerError>,
    out: &mut Vec<Instruction>,
) -> (r: Result<(), AssemblerError>)
    requires
        old(alloc)@.wf(),
    ensures
        final(alloc)@ == spec_release_loaded(old(alloc)@, loaded),
        final(alloc)@.wf(),
        r == match selected {
            Ok(_) => Ok::<(), AssemblerError>(()),
            Err(e) => Err(e),
        },
        final(out)@ == old(out)@ + match selected {
            Ok(code) => code@,
            Err(_) => Seq::empty(),
        },
{
    release_loaded(alloc, loaded);
    match selected {
        Ok(code) => {
            append_code(out, &code);
            Ok(())
        },
        Err(e) => {
            proof {
                assert(out@ =~= old(out)@ + Seq::<Instruction>::empty());
            }
            Err(e)
        },
    }
}

/// Appends `code` to `out`.
pub fn append_code(out: &mut Vec<Instruction>, code: &Vec<Instruction>)
    ensures
        final(out)@ == old(out)@ + code@,
{
    let mut i: usize = 0;
    while i < code.len()
        invariant
            i <= code@.len(),
            out@ == old(out)@ + code@.take(i as int),
        decreases code@.len() - i,
    {
        out.push(code[i]);
        proof {
            assert(code@.take(i + 1) =~= code@.take(i as int).push(code@[i as int]));
        }
        i = i + 1;
    }
    proof {
        assert(code@.take(i as int) =~= code@);
    }
}

/// Selects the store of a variable in registers at `dest`.
fn reg_to_ind(alloc: &mut ConstAllocator, raw: RawRegVariable, dest: Addr) -> (r: Result<
    Vec<Instruction>,
    AssemblerError,
>)
    requires
        old(alloc)@.wf(),
        raw.spec_len() == 2 ==> dest < u16::MAX,
    ensures
        final(alloc)@ == old(alloc)@,
        r matches Ok(code) ==> spec_reg_to_ind(old(alloc)@.registers, raw, dest) == Ok::<
            Seq<Instruction>,
            AssemblerError,
        >(code@),
        r matches Err(e) ==> spec_reg_to_ind(old(alloc)@.registers, raw, dest) == Err::<
            Seq<Instruction>,
            AssemblerError,
        >(e),
{
    let mut out: Vec<Instruction> = Vec::new();
    match raw {
        RawRegVariable::R8 { reg: src, .. } | RawRegVariable::MemR8 { reg: src, .. } => {
            if src == GpRegister::A {
                store_a(dest, &mut out);
                proof {
                    assert(out@ =~= seq![spec_store_a(dest)]);
                }
            } else {
                let mut body: Vec<Instruction> = Vec::new();
                body.push(Instruction::LdR8FromR8(GpRegister::A, src));
                store_a(dest, &mut body);
                proof {
                    assert(body@ =~= seq![
                        Instruction::LdR8FromR8(GpRegister::A, src),
                        spec_store_a(dest),
                    ]);
                }
                with_a(alloc, &body, &mut out);
                proof {
                    assert(out@ =~= spec_with_a(old(alloc)@.registers, body@));
                }
            }
        },
        RawRegVariable::R16 { reg_pair, .. } | RawRegVariable::MemR16 { reg_pair, .. } => {
            let (hi, lo) = match reg_pair.try_split() {
                Ok(halves) => halves,
                Err(e) => {
                    return Err(AssemblerError::RegSplitError(e));
                },
            };
            let mut body: Vec<Instruction> = Vec::new();
            body.push(Instruction::LdR8FromR8(GpRegister::A, hi));
            store_a(dest, &mut body);
            body.push(Instruction::LdR8FromR8(GpRegister::A, lo));
            store_a(dest + 1, &mut body);
            proof {
                assert(body@ =~= seq![
                    Instruction::LdR8FromR8(GpRegister::A, hi),
                    spec_store_a(dest),
                    Instruction::LdR8FromR8(GpRegister::A, lo),
                    spec_store_a((dest + 1) as u16),
                ]);
            }
            with_a(alloc, &body, &mut out);
            proof {
                assert(out@ =~= spec_with_a(old(alloc)@.registers, body@));
            }
        },
        RawRegVariable::UnallocatedR8(_) | RawRegVariable::UnallocatedR16(_) => {
            let meta: MetaInstruction = MetaInstruction::var_to_ind(
                RawVariable::Memory(MemoryVariable { addr: dest, len: raw.len(), id: Id::Unset }),
                RawVariable::Reg(raw),
            );
            out.push(Instruction::Meta(meta));
            proof {
                assert(out@ =~= seq![Instruction::Meta(meta)]);
            }
        },
    }
    Ok(out)
}

/// Selects the load of a variable in registers from `src`.
fn reg_from_ind(alloc: &mut ConstAllocator, raw: RawRegVariable, src: Addr) -> (r: Result<
    Vec<Instruction>,
    AssemblerError,
>)
    requires
        old(alloc)@.wf(),
        raw.spec_len() == 2 ==> src < u16::MAX,
    ensures
        final(alloc)@ == old(alloc)@,
        r matches Ok(code) ==> spec_reg_from_ind(old(alloc)@.registers, raw, src) == Ok::<
            Seq<Instruction>,
            AssemblerError,
        >(code@),
        r matches Err(e) ==> spec_reg_from_ind(old(alloc)@.registers, raw, src) == Err::<
            Seq<Instruction>,
            AssemblerError,
        >(e),
{
    let mut out: Vec<Instruction> = Vec::new();
    match raw {
        RawRegVariable::R8 { reg: dest, .. } | RawRegVariable::MemR8 { reg: dest, .. } => {
            if dest == GpRegister::A {
                load_a(src, &mut out);
                proof {
                    assert(out@ =~= seq![spec_load_a(src)]);
                }
            } else {
                let mut body: Vec<Instruction> = Vec::new();
                load_a(src, &mut body);
                body.push(Instruction::LdR8FromR8(dest, GpRegister::A));
                proof {
                    assert(body@ =~= seq![
                        spec_load_a(src),
                        Instruction::LdR8FromR8(dest, GpRegister::A),
                    ]);
                }
                with_a(alloc, &body, &mut out);
                proof {
                    assert(out@ =~= spec_with_a(old(alloc)@.registers, body@));
                }
            }
        },
        RawRegVariable::R16 { reg_pair, .. } | RawRegVariable::MemR16 { reg_pair, .. } => {
            let (hi, lo) = match reg_pair.try_split() {
                Ok(halves) => halves,
                Err(e) => {
                    return Err(AssemblerError::RegSplitError(e));
                },
            };
            let mut body: Vec<Instruction> = Vec::new();
            load_a(src, &mut body);
            body.push(Instruction::LdR8FromR8(hi, GpRegister::A));
            load_a(src + 1, &mut body);
            body.push(Instruction::LdR8FromR8(lo, GpRegister::A));
            proof {
                assert(body@ =~= seq![
                    spec_load_a(src),
                    Instruction::LdR8FromR8(hi, GpRegister::A),
                    spec_load_a((src + 1) as u16),
                    Instruction::LdR8FromR8(lo, GpRegister::A),
                ]);
            }
            with_a(alloc, &body, &mut out);
            proof {
                assert(out@ =~= spec_with_a(old(alloc)@.registers, body@));
            }
        },
        RawRegVariable::UnallocatedR8(_) | RawRegVariable::UnallocatedR16(_) => {
            let meta: MetaInstruction = MetaInstruction::var_from_ind(
                RawVariable::Reg(raw),
                RawVariable::Memory(MemoryVariable { addr: src, len: raw.len(), id: Id::Unset }),
            );
            out.push(Instruction::Meta(meta));
            proof {
                assert(out@ =~= seq![Instruction::Meta(meta)]);
            }
        },
    }
    Ok(out)
}

/// Selects the increment or decrement of a variable in registers.
fn reg_crement(raw: RawRegVariable, up: bool) -> (r: Result<Vec<Instruction>, AssemblerError>)
    ensures
        r matches Ok(code) && spec_reg_crement(raw, up) == Ok::<Seq<Instruction>, AssemblerError>(
            code@,
        ),
{
    let mut out: Vec<Instruction> = Vec::new();
    let instruction = match raw {
        RawRegVariable::R8 { reg, .. } | RawRegVariable::MemR8 { reg, .. } => if up {
            Instruction::IncR8(reg)
        } else {
            Instruction::DecR8(reg)
        },
        RawRegVariable::R16 { reg_pair, .. } | RawRegVariable::MemR16 { reg_pair, .. } => if up {
            Instruction::IncR16(reg_pair)
        } else {
            Instruction::DecR16(reg_pair)
        },
        RawRegVariable::UnallocatedR8(_) | RawRegVariable::UnallocatedR16(_) => if up {
            let meta: MetaInstruction = MetaInstruction::inc_var(RawVariable::Reg(raw));
            Instruction::Meta(meta)
        } else {
            let meta: MetaInstruction = MetaInstruction::dec_var(RawVariable::Reg(raw));
            Instruction::Meta(meta)
        },
    };
    out.push(instruction);
    proof {
        assert(out@ =~= seq![instruction]);
    }
    Ok(out)
}

/// Selects the load of the accumulator from where a variable in registers
/// points.
fn reg_a_from_ind(raw: RawRegVariable) -> (r: Result<Vec<Instruction>, AssemblerError>)
    ensures
        r matches Ok(code) ==> spec_reg_a_from_ind(raw) == Ok::<Seq<Instruction>, AssemblerError>(
            code@,
        ),
        r matches Err(e) ==> spec_reg_a_from_ind(raw) == Err::<Seq<Instruction>, AssemblerError>(e),
{
    let mut out: Vec<Instruction> = Vec::new();
    let instruction = match raw {
        RawRegVariable::R8 { reg, .. } | RawRegVariable::MemR8 { reg, .. } => {
            if reg == GpRegister::C {
                Instruction::LdhToAWithC
            } else {
                return Err(AssemblerError::ArgumentError);
            }
        },
        RawRegVariable::R16 { reg_pair, .. } | RawRegVariable::MemR16 { reg_pair, .. } => {
            match IndirectPair::try_from(reg_pair) {
                Ok(pair) => Instruction::LdAFromR16(pair),
                Err(_) => {
                    return Err(AssemblerError::ArgumentError);
                },
            }
        },
        RawRegVariable::UnallocatedR8(_) | RawRegVariable::UnallocatedR16(_) => {
            let meta: MetaInstruction = MetaInstruction::var_from_ind(
                RawVariable::Reg(RawRegVariable::from(GpRegister::A)),
                RawVariable::Reg(raw),
            );
            Instruction::Meta(meta)
        },
    };
    out.push(instruction);
    proof {
        assert(out@ =~= seq![instruction]);
    }
    Ok(out)
}

/// Selects the instructions that store `var` at `dest`.
pub fn ld_raw_to_ind_code(
    alloc: &mut ConstAllocator,
    var: &Variable,
    dest: Addr,
    out: &mut Vec<Instruction>,
) -> (r: Result<(), AssemblerError>)
    requires
        old(alloc)@.wf(),
        var.spec_raw().spec_wf(),
        var.spec_raw().spec_len() == 2 ==> dest < u16::MAX,
    ensures
        r == spec_ld_raw_to_ind(old(alloc)@, var.spec_raw(), dest).result,
        final(alloc)@ == spec_ld_raw_to_ind(old(alloc)@, var.spec_raw(), dest).alloc,
        final(out)@ == old(out)@ + spec_ld_raw_to_ind(old(alloc)@, var.spec_raw(), dest).code,
        final(alloc)@.wf(),
{
    let loaded = match load_raw_code(alloc, var, out) {
        Ok(loaded) => loaded,
        Err(e) => {
            return Err(e);
        },
    };
    let selected = reg_to_ind(alloc, loaded.inner(), dest);
    let ghost mid = out@;
    let r = finish_loaded(alloc, loaded, selected, out);
    proof {
        let sel = spec_ld_raw_to_ind(old(alloc)@, var.spec_raw(), dest);
        assert(out@ =~= old(out)@ + sel.code);
    }
    r
}

/// Selects the instructions that load `var` from `src`.
pub fn ld_raw_from_ind_code(
    alloc: &mut ConstAllocator,
    var: &Variable,
    src: Addr,
    out: &mut Vec<Instruction>,
) -> (r: Result<(), AssemblerError>)
    requires
        old(alloc)@.wf(),
        var.spec_raw().spec_wf(),
        var.spec_raw().spec_len() == 2 ==> src < u16::MAX,
    ensures
        r == spec_ld_raw_from_ind(old(alloc)@, var.spec_raw(), src).result,
        final(alloc)@ == spec_ld_raw_from_ind(old(alloc)@, var.spec_raw(), src).alloc,
        final(out)@ == old(out)@ + spec_ld_raw_from_ind(old(alloc)@, var.spec_raw(), src).code,
        final(alloc)@.wf(),
{
    let loaded = match load_raw_code(alloc, var, out) {
        Ok(loaded) => loaded,
        Err(e) => {
            return Err(e);
        },
    };
    let selected = reg_from_ind(alloc, loaded.inner(), src);
    let r = finish_loaded(alloc, loaded, selected, out);
    proof {
        let sel = spec_ld_raw_from_ind(old(alloc)@, var.spec_raw(), src);
        assert(out@ =~= old(out)@ + sel.code);
    }
    r
}

/// Selects the instructions that increment (`up`) or decrement `var`.
pub fn crement_raw_code(
    alloc: &mut ConstAllocator,
    var: &Variable,
    up: bool,
    out: &mut Vec<Instruction>,
) -> (r: Result<(), AssemblerError>)
    requires
        old(alloc)@.wf(),
        var.spec_raw().spec_wf(),
    ensures
        r == spec_crement_raw(old(alloc)@, var.spec_raw(), up).result,
        final(alloc)@ == spec_crement_raw(old(alloc)@, var.spec_raw(), up).alloc,
        final(out)@ == old(out)@ + spec_crement_raw(old(alloc)@, var.spec_raw(), up).code,
        final(alloc)@.wf(),
{
    let loaded = match load_raw_code(alloc, var, out) {
        Ok(loaded) => loaded,
        Err(e) => {
            return Err(e);
        },
    };
    let selected = reg_crement(loaded.inner(), up);
    let r = finish_loaded(alloc, loaded, selected, out);
    proof {
        let sel = spec_crement_raw(old(alloc)@, var.spec_raw(), up);
        assert(out@ =~= old(out)@ + sel.code);
    }
    r
}

/// Selects the instructions that load the accumulator from where `var`
/// points.
pub fn ld_a_from_raw_ind_code(
    alloc: &mut ConstAllocator,
    var: &Variable,
    out: &mut Vec<Instruction>,
) -> (r: Result<(), AssemblerError>)
    requires
        old(alloc)@.wf(),
        var.spec_raw().spec_wf(),
    ensures
        r == spec_ld_a_from_raw_ind(old(alloc)@, var.spec_raw()).result,
        final(alloc)@ == spec_ld_a_from_raw_ind(old(alloc)@, var.spec_raw()).alloc,
        final(out)@ == old(out)@ + spec_ld_a_from_raw_ind(old(alloc)@, var.spec_raw()).code,
        final(alloc)@.wf(),
{
    let loaded = match load_raw_code(alloc, var, out) {
        Ok(loaded) => loaded,
        Err(e) => {
            return Err(e);
        },
    };
    let selected = reg_a_from_ind(loaded.inner());
    let r = finish_loaded(alloc, loaded, selected, out);
    proof {
        let sel = spec_ld_a_from_raw_ind(old(alloc)@, var.spec_raw());
        assert(out@ =~= old(out)@ + sel.code);
    }
    r
}


/// What a conditional jump on a value selects: the instructions up to the
/// point where an error stopped it, and the error if there was one.
#[verifier::ext_equal]
pub struct Jump {
    pub error: Option<AssemblerError>,
    pub code: Seq<Instruction>,
}

/// The bytes that `code` takes.
pub open spec fn spec_bytes_of(code: Seq<Instruction>) -> nat {
    crate::codegen::block::spec_code_len(code, code.len())
}

/// Jumping by `imm` if the register `reg` is not zero. The first free
/// register is taken to hold zero. If the value is in `a`, `a` is compared
/// with that register; if that register is `a`, it is compared with the value.
/// Else the value is moved into `a` for the comparison, and what `a` held is
/// kept meanwhile. Fails with `OutOfRegisters`, and selects nothing, if no
/// register is free.
pub open spec fn spec_jr_nz_reg(registers: GpRegisters, reg: GpRegister, imm: i8) -> Jump {
    match registers.spec_first_free() {
        None => Jump {
            error: Some(AssemblerError::AllocError(ConstAllocError::OutOfRegisters)),
            code: Seq::empty(),
        },
        Some(tmp) => Jump {
            error: None,
            code: seq![Instruction::LdR8Imm(tmp, 0)] + (if reg == GpRegister::A {
                seq![Instruction::Cp(tmp)]
            } else if tmp == GpRegister::A {
                seq![Instruction::Cp(reg)]
            } else {
                spec_with_a(
                    registers.spec_alloc(),
                    seq![Instruction::LdR8FromR8(GpRegister::A, reg), Instruction::Cp(tmp)],
                )
            }) + seq![Instruction::Jr(Condition::Flag(CpuFlag::NZ), imm)],
        },
    }
}

/// Jumping by `imm` if a variable in registers is not zero. A pair is tested
/// half by half, the high half first; the jump of the second half is shortened
/// by the bytes of the first test, and is out of place if it then no longer
/// fits a signed byte. `SP` has no halves, and a variable without a home
/// cannot be tested.
pub open spec fn spec_jr_nz_held(registers: GpRegisters, raw: RawRegVariable, imm: i8) -> Jump {
    match raw {
        RawRegVariable::R8 { reg, .. } | RawRegVariable::MemR8 { reg, .. } => spec_jr_nz_reg(
            registers,
            reg,
            imm,
        ),
        RawRegVariable::R16 { reg_pair, .. }
        | RawRegVariable::MemR16 { reg_pair, .. } => match reg_pair.spec_split() {
            Err(e) => Jump { error: Some(AssemblerError::RegSplitError(e)), code: Seq::empty() },
            Ok((hi, lo)) => {
                let first = spec_jr_nz_reg(registers, hi, imm);
                if first.error is Some {
                    first
                } else if imm - spec_bytes_of(first.code) < -128 {
                    Jump { error: Some(AssemblerError::ArgumentError), code: first.code }
                } else {
                    let second = spec_jr_nz_reg(
                        registers,
                        lo,
                        (imm - spec_bytes_of(first.code)) as i8,
                    );
                    Jump { error: second.error, code: first.code + second.code }
                }
            },
        },
        RawRegVariable::UnallocatedR8(_) | RawRegVariable::UnallocatedR16(_) => Jump {
            error: Some(
                AssemblerError::EmitterError(
                    crate::codegen::block::EmitterError::UnallocatedVariable(RawVariable::Reg(raw)),
                ),
            ),
            code: Seq::empty(),
        },
    }
}

/// Jumping by `imm` if `var` is not zero: the variable is made available in
/// registers, tested there, and what was loaded for it is given up.
pub open spec fn spec_jr_nz_raw(a: AllocState, var: RawVariable, imm: i8) -> Selected<()> {
    let loaded = spec_load_raw(a, var);
    match loaded.result {
        Err(e) => Selected { result: Err(e), code: loaded.code, alloc: loaded.alloc },
        Ok(v) => {
            let jump = spec_jr_nz_held(loaded.alloc.registers, v.spec_inner(), imm);
            Selected {
                result: match jump.error {
                    Some(e) => Err(e),
                    None => Ok(()),
                },
                code: loaded.code + jump.code,
                alloc: spec_release_loaded(loaded.alloc, v),
            }
        },
    }
}

/// Selects the jump by `imm` if the register `reg` is not zero.
fn jr_nz_reg(alloc: &mut ConstAllocator, reg: GpRegister, imm: i8, out: &mut Vec<Instruction>) -> (r:
    Option<AssemblerError>)
    requires
        old(alloc)@.wf(),
    ensures
        final(alloc)@ == old(alloc)@,
        r == spec_jr_nz_reg(old(alloc)@.registers, reg, imm).error,
        final(out)@ == old(out)@ + spec_jr_nz_reg(old(alloc)@.registers, reg, imm).code,
        r is None ==> spec_bytes_of(spec_jr_nz_reg(old(alloc)@.registers, reg, imm).code) <= 18,
{
    let tmp = match alloc.registers.alloc_reg() {
        Ok(reg) => RcGpRegister { inner: reg },
        Err(e) => {
            proof {
                assert(out@ =~= old(out)@ + Seq::<Instruction>::empty());
            }
            return Some(AssemblerError::AllocError(e));
        },
    };
    let mut code: Vec<Instruction> = Vec::new();
    code.push(Instruction::LdR8Imm(tmp.inner, 0));
    if reg == GpRegister::A {
        code.push(Instruction::Cp(tmp.inner));
    } else if tmp.is_register(GpRegister::A) {
        code.push(Instruction::Cp(reg));
    } else {
        let mut body: Vec<Instruction> = Vec::new();
        body.push(Instruction::LdR8FromR8(GpRegister::A, reg));
        body.push(Instruction::Cp(tmp.inner));
        proof {
            assert(body@ =~= seq![
                Instruction::LdR8FromR8(GpRegister::A, reg),
                Instruction::Cp(tmp.inner),
            ]);
        }
        with_a(alloc, &body, &mut code);
    }
    code.push(Instruction::Jr(Condition::Flag(CpuFlag::NZ), imm));
    proof {
        lemma_scratch_is_returned(old(alloc)@.registers);
        let spec = spec_jr_nz_reg(old(alloc)@.registers, reg, imm).code;
        assert(code@ =~= spec);
        assert(spec.len() <= 6);
        crate::codegen::block::lemma_code_len_bound(spec, spec.len());
    }
    tmp.drop(&mut alloc.registers);
    append_code(out, &code);
    None
}

/// The bytes that the instructions from `from` on take.
fn bytes_from(out: &Vec<Instruction>, from: usize) -> (r: usize)
    requires
        from <= out@.len(),
        spec_bytes_of(out@.skip(from as int)) <= usize::MAX,
    ensures
        r == spec_bytes_of(out@.skip(from as int)),
{
    let ghost code = out@.skip(from as int);
    let mut acc: usize = 0;
    let mut i: usize = from;
    while i < out.len()
        invariant
            from <= i <= out@.len(),
            code == out@.skip(from as int),
            acc == crate::codegen::block::spec_code_len(code, (i - from) as nat),
            spec_bytes_of(code) <= usize::MAX,
        decreases out@.len() - i,
    {
        proof {
            crate::codegen::block::raw_block::lemma_code_len_grows(
                code,
                (i - from + 1) as nat,
                code.len(),
            );
            assert(code[i - from] == out@[i as int]);
        }
        acc = acc + out[i].len();
        i = i + 1;
    }
    acc
}

/// Selects the jump by `imm` if a variable in registers is not zero.
fn jr_nz_held(alloc: &mut ConstAllocator, raw: RawRegVariable, imm: i8, out: &mut Vec<Instruction>) -> (r:
    Option<AssemblerError>)
    requires
        old(alloc)@.wf(),
    ensures
        final(alloc)@ == old(alloc)@,
        r == spec_jr_nz_held(old(alloc)@.registers, raw, imm).error,
        final(out)@ == old(out)@ + spec_jr_nz_held(old(alloc)@.registers, raw, imm).code,
{
    match raw {
        RawRegVariable::R8 { reg, .. } | RawRegVariable::MemR8 { reg, .. } => jr_nz_reg(
            alloc,
            reg,
            imm,
            out,
        ),
        RawRegVariable::R16 { reg_pair, .. } | RawRegVariable::MemR16 { reg_pair, .. } => {
            let (hi, lo) = match reg_pair.try_split() {
                Ok(halves) => halves,
                Err(e) => {
                    proof {
                        assert(out@ =~= old(out)@ + Seq::<Instruction>::empty());
                    }
                    return Some(AssemblerError::RegSplitError(e));
                },
            };
            let start = out.len();
            match jr_nz_reg(alloc, hi, imm, out) {
                Some(e) => {
                    return Some(e);
                },
                None => {},
            }
            proof {
                let first = spec_jr_nz_reg(old(alloc)@.registers, hi, imm);
                assert(out@.skip(start as int) =~= first.code);
            }
            let block_length = bytes_from(out, start);
            if (imm as i16) - (block_length as i16) < -128 {
                return Some(AssemblerError::ArgumentError);
            }
            let second = ((imm as i16) - (block_length as i16)) as i8;
            let r = jr_nz_reg(alloc, lo, second, out);
            proof {
                let first = spec_jr_nz_reg(old(alloc)@.registers, hi, imm);
                let spec = spec_jr_nz_held(old(alloc)@.registers, raw, imm);
                assert(out@ =~= old(out)@ + spec.code);
            }
            r
        },
        RawRegVariable::UnallocatedR8(_) | RawRegVariable::UnallocatedR16(_) => {
            proof {
                assert(out@ =~= old(out)@ + Seq::<Instruction>::empty());
            }
            Some(
                AssemblerError::EmitterError(
                    crate::codegen::block::EmitterError::UnallocatedVariable(RawVariable::Reg(raw)),
                ),
            )
        },
    }
}

/// Selects the instructions that jump by `imm` if `var` is not zero.
pub fn jr_nz_raw_code(
    alloc: &mut ConstAllocator,
    var: &Variable,
    imm: i8,
    out: &mut Vec<Instruction>,
) -> (r: Result<(), AssemblerError>)
    requires
        old(alloc)@.wf(),
        var.spec_raw().spec_wf(),
    ensures
        r == spec_jr_nz_raw(old(alloc)@, var.spec_raw(), imm).result,
        final(alloc)@ == spec_jr_nz_raw(old(alloc)@, var.spec_raw(), imm).alloc,
        final(out)@ == old(out)@ + spec_jr_nz_raw(old(alloc)@, var.spec_raw(), imm).code,
        final(alloc)@.wf(),
{
    let loaded = match load_raw_code(alloc, var, out) {
        Ok(loaded) => loaded,
        Err(e) => {
            return Err(e);
        },
    };
    let error = jr_nz_held(alloc, loaded.inner(), imm, out);
    release_loaded(alloc, loaded);
    proof {
        let sel = spec_jr_nz_raw(old(alloc)@, var.spec_raw(), imm);
        assert(out@ =~= old(out)@ + sel.code);
    }
    match error {
        Some(e) => Err(e),
        None => Ok(()),
    }
}

/// Giving a variable a home in memory. One that has memory behind it keeps
/// it, and nothing is emitted. One that lives in a register or pair alone gets
/// new cells of RAM and is stored there, low byte first, through the
/// accumulator, whose value is kept unless the variable is in it. RAM that is
/// full fails with `OutOfMemory`, `SP` cannot be stored, and a variable
/// without a home has nothing to store.
pub open spec fn spec_store_raw(a: AllocState, var: RawVariable) -> Selected<MemoryVariable> {
    match var {
        RawVariable::Memory(m) => Selected { result: Ok(m), code: Seq::empty(), alloc: a },
        RawVariable::Reg(RawRegVariable::MemR8 { addr, id, .. }) => Selected {
            result: Ok(MemoryVariable { addr, len: 1, id }),
            code: Seq::empty(),
            alloc: a,
        },
        RawVariable::Reg(RawRegVariable::MemR16 { addr, id, .. }) => Selected {
            result: Ok(MemoryVariable { addr, len: 2, id }),
            code: Seq::empty(),
            alloc: a,
        },
        RawVariable::Reg(RawRegVariable::R8 { reg, id }) => match a.variables.spec_result(1) {
            Err(e) => Selected { result: Err(AssemblerError::AllocError(e)), code: Seq::empty(), alloc: a },
            Ok(cell) => Selected {
                result: Ok(MemoryVariable { addr: cell, len: 1, id }),
                code: if reg == GpRegister::A {
                    seq![spec_store_a(cell)]
                } else {
                    spec_with_a(
                        a.registers,
                        seq![Instruction::LdR8FromR8(GpRegister::A, reg), spec_store_a(cell)],
                    )
                },
                alloc: AllocState { variables: a.variables.spec_after(1), ..a },
            },
        },
        RawVariable::Reg(RawRegVariable::R16 { reg_pair, id }) => match reg_pair.spec_split() {
            Err(e) => Selected { result: Err(AssemblerError::RegSplitError(e)), code: Seq::empty(), alloc: a },
            Ok((hi, lo)) => match a.variables.spec_result(2) {
                Err(e) => Selected {
                    result: Err(AssemblerError::AllocError(e)),
                    code: Seq::empty(),
                    alloc: a,
                },
                Ok(cell) => Selected {
                    result: Ok(MemoryVariable { addr: cell, len: 2, id }),
                    code: spec_with_a(
                        a.registers,
                        seq![
                            Instruction::LdR8FromR8(GpRegister::A, lo),
                            spec_store_a(cell),
                            Instruction::LdR8FromR8(GpRegister::A, hi),
                            spec_store_a((cell + 1) as u16),
                        ],
                    ),
                    alloc: AllocState { variables: a.variables.spec_after(2), ..a },
                },
            },
        },
        _ => Selected {
            result: Err(
                AssemblerError::EmitterError(
                    crate::codegen::block::EmitterError::UnallocatedVariable(var),
                ),
            ),
            code: Seq::empty(),
            alloc: a,
        },
    }
}

/// Selects the instructions that give `var` a home in memory.
pub fn store_raw_code(alloc: &mut ConstAllocator, var: &Variable, out: &mut Vec<Instruction>) -> (r:
    Result<MemoryVariable, AssemblerError>)
    requires
        old(alloc)@.wf(),
    ensures
        r == spec_store_raw(old(alloc)@, var.spec_raw()).result,
        final(alloc)@ == spec_store_raw(old(alloc)@, var.spec_raw()).alloc,
        final(out)@ == old(out)@ + spec_store_raw(old(alloc)@, var.spec_raw()).code,
        final(alloc)@.wf(),
{
    proof {
        assert(out@ =~= old(out)@ + Seq::<Instruction>::empty());
    }
    match var.as_raw() {
        RawVariable::Memory(m) => Ok(m),
        RawVariable::Reg(RawRegVariable::MemR8 { addr, id, .. }) => Ok(
            MemoryVariable { addr, len: 1, id },
        ),
        RawVariable::Reg(RawRegVariable::MemR16 { addr, id, .. }) => Ok(
            MemoryVariable { addr, len: 2, id },
        ),
        RawVariable::Reg(RawRegVariable::R8 { reg, id }) => {
            let cell = match alloc.variables.allocate(1) {
                Ok(cell) => cell,
                Err(e) => {
                    return Err(AssemblerError::AllocError(e));
                },
            };
            if reg == GpRegister::A {
                store_a(cell, out);
                proof {
                    assert(out@ =~= old(out)@ + seq![spec_store_a(cell)]);
                }
            } else {
                let mut body: Vec<Instruction> = Vec::new();
                body.push(Instruction::LdR8FromR8(GpRegister::A, reg));
                store_a(cell, &mut body);
                proof {
                    assert(body@ =~= seq![
                        Instruction::LdR8FromR8(GpRegister::A, reg),
                        spec_store_a(cell),
                    ]);
                }
                with_a(alloc, &body, out);
            }
            Ok(MemoryVariable { addr: cell, len: 1, id })
        },
        RawVariable::Reg(RawRegVariable::R16 { reg_pair, id }) => {
            let (hi, lo) = match reg_pair.try_split() {
                Ok(halves) => halves,
                Err(e) => {
                    return Err(AssemblerError::RegSplitError(e));
                },
            };
            let cell = match alloc.variables.allocate(2) {
                Ok(cell) => cell,
                Err(e) => {
                    return Err(AssemblerError::AllocError(e));
                },
            };
            let mut body: Vec<Instruction> = Vec::new();
            body.push(Instruction::LdR8FromR8(GpRegister::A, lo));
            store_a(cell, &mut body);
            body.push(Instruction::LdR8FromR8(GpRegister::A, hi));
            store_a(cell + 1, &mut body);
            proof {
                assert(body@ =~= seq![
                    Instruction::LdR8FromR8(GpRegister::A, lo),
                    spec_store_a(cell),
                    Instruction::LdR8FromR8(GpRegister::A, hi),
                    spec_store_a((cell + 1) as u16),
                ]);
            }
            with_a(alloc, &body, out);
            Ok(MemoryVariable { addr: cell, len: 2, id })
        },
        raw => Err(
            AssemblerError::EmitterError(
                crate::codegen::block::EmitterError::UnallocatedVariable(raw),
            ),
        ),
    }
}


/// What giving a variable a register selects: the variable's register form or
/// the reason why it has none, the allocator's state, and whether a register
/// or pair was taken for it.
#[verifier::ext_equal]
pub struct Promoted {
    pub dest: Result<RawRegVariable, AssemblerError>,
    pub alloc: AllocState,
    pub fresh: bool,
}

/// The length, the identifier and the memory of a variable that has no
/// register yet; `None` for one that has.
pub open spec fn spec_wanted(var: RawVariable) -> Option<(u16, Id, Option<Addr>)> {
    match var {
        RawVariable::Reg(RawRegVariable::UnallocatedR8(id)) => Some((1, id, None)),
        RawVariable::Reg(RawRegVariable::UnallocatedR16(id)) => Some((2, id, None)),
        RawVariable::Reg(_) => None,
        RawVariable::Memory(m) => Some((m.len, m.id, Some(m.addr))),
        RawVariable::Unallocated { len, id } => Some((len, id, None)),
    }
}

/// Giving a variable a register. One that has a register or pair keeps it. Any
/// other gets the first free register, if it is of one byte, or the first free
/// pair, if it is of two, with one reference, and keeps its memory if it has
/// any. Fails with `TooBigForRegister` for any other length and with
/// `OutOfRegisters` if none is free.
pub open spec fn spec_promote(a: AllocState, var: RawVariable) -> Promoted {
    match spec_wanted(var) {
        None => Promoted { dest: Ok(var->Reg_0), alloc: a, fresh: false },
        Some((len, id, addr)) => match RegKind::spec_from_len(len) {
            None => Promoted {
                dest: Err(AssemblerError::AllocError(ConstAllocError::TooBigForRegister)),
                alloc: a,
                fresh: false,
            },
            Some(RegKind::GpRegister) => match a.registers.spec_first_free() {
                None => Promoted {
                    dest: Err(AssemblerError::AllocError(ConstAllocError::OutOfRegisters)),
                    alloc: a,
                    fresh: false,
                },
                Some(reg) => Promoted {
                    dest: Ok(
                        match addr {
                            Some(addr) => RawRegVariable::MemR8 { addr, reg, id },
                            None => RawRegVariable::R8 { reg, id },
                        },
                    ),
                    alloc: a.with_registers(a.registers.spec_with(reg, spec_fresh_slot(id))),
                    fresh: true,
                },
            },
            Some(RegKind::RegisterPair) => match a.registers.spec_first_free_pair() {
                None => Promoted {
                    dest: Err(AssemblerError::AllocError(ConstAllocError::OutOfRegisters)),
                    alloc: a,
                    fresh: false,
                },
                Some(reg_pair) => Promoted {
                    dest: Ok(
                        match addr {
                            Some(addr) => RawRegVariable::MemR16 { addr, reg_pair, id },
                            None => RawRegVariable::R16 { reg_pair, id },
                        },
                    ),
                    alloc: a.with_registers(
                        a.registers.spec_with_pair(
                            reg_pair,
                            spec_fresh_slot(id),
                            spec_fresh_slot(id),
                        ),
                    ),
                    fresh: true,
                },
            },
        },
    }
}

/// The variable after `spec_promote`: it holds the one reference to what was
/// taken for it, or is as it was if nothing was taken.
pub open spec fn spec_promoted_raw(a: AllocState, var: Variable) -> Variable {
    let promoted = spec_promote(a, var.spec_raw());
    if promoted.fresh {
        Variable::Reg(RegVariable::Rc(RcRegVariable { inner: promoted.dest->Ok_0 }))
    } else {
        var
    }
}

/// Setting a variable in registers to another. A byte is moved with one `ld`,
/// two bytes with one for each half, high half first. A source without a home
/// gets a placeholder. A byte and a pair do not go together, and `SP` has no
/// halves.
pub open spec fn spec_assign_var(dest: RawRegVariable, src: RawRegVariable, value: VarOrConst) -> Result<
    Seq<Instruction>,
    AssemblerError,
> {
    if src.spec_is_unallocated() {
        Ok(
            seq![
                Instruction::Meta(
                    MetaInstruction::VarSet { dest: RawVariable::Reg(dest), src: value },
                ),
            ],
        )
    } else if dest.spec_reg8() is Some && src.spec_reg8() is Some {
        Ok(seq![Instruction::LdR8FromR8(dest.spec_reg8()->Some_0, src.spec_reg8()->Some_0)])
    } else if dest.spec_reg16() is Some && src.spec_reg16() is Some {
        match (dest.spec_reg16()->Some_0.spec_split(), src.spec_reg16()->Some_0.spec_split()) {
            (Ok((dest1, dest2)), Ok((src1, src2))) => Ok(
                seq![Instruction::LdR8FromR8(dest1, src1), Instruction::LdR8FromR8(dest2, src2)],
            ),
            (Err(e), _) => Err(AssemblerError::RegSplitError(e)),
            (_, Err(e)) => Err(AssemblerError::RegSplitError(e)),
        }
    } else {
        Err(AssemblerError::ArgumentError)
    }
}

/// Setting a variable in registers to a constant: an immediate of one byte
/// into a register, one of two bytes or the address of a stored constant into a
/// pair, each with one `ld`. Any other combination is out of place.
pub open spec fn spec_assign_const(dest: RawRegVariable, src: Constant) -> Result<
    Seq<Instruction>,
    AssemblerError,
> {
    match src {
        Constant::Inline8(imm) => match dest.spec_reg8() {
            Some(reg) => Ok(seq![Instruction::LdR8Imm(reg, imm)]),
            None => Err(AssemblerError::ArgumentError),
        },
        Constant::Inline16(imm) => match dest.spec_reg16() {
            Some(pair) => Ok(seq![Instruction::LdR16Imm(pair, imm)]),
            None => Err(AssemblerError::ArgumentError),
        },
        Constant::Addr(constant) => match dest.spec_reg16() {
            Some(pair) => Ok(seq![Instruction::LdR16Imm(pair, constant.addr)]),
            None => Err(AssemblerError::ArgumentError),
        },
    }
}

/// Setting a variable: it is given a register if it has none, then set there
/// from a constant, or from a variable that is made available in registers for
/// it.
pub open spec fn spec_set_raw(a: AllocState, var: RawVariable, value: VarOrConst) -> Selected<()> {
    let promoted = spec_promote(a, var);
    match promoted.dest {
        Err(e) => Selected { result: Err(e), code: Seq::empty(), alloc: promoted.alloc },
        Ok(dest) => match value {
            VarOrConst::Const(src) => Selected {
                result: spec_unit_of(spec_assign_const(dest, src)),
                code: spec_code_of(spec_assign_const(dest, src)),
                alloc: promoted.alloc,
            },
            VarOrConst::Var(src) => spec_on_loaded(
                spec_load_raw(promoted.alloc, src),
                |registers: GpRegisters, raw: RawRegVariable| spec_assign_var(dest, raw, value),
            ),
        },
    }
}

/// Gives `var` a register if it has none.
fn promote(alloc: &mut ConstAllocator, var: &mut Variable) -> (r: Result<
    RawRegVariable,
    AssemblerError,
>)
    requires
        old(alloc)@.wf(),
    ensures
        r == spec_promote(old(alloc)@, old(var).spec_raw()).dest,
        final(alloc)@ == spec_promote(old(alloc)@, old(var).spec_raw()).alloc,
        *final(var) == spec_promoted_raw(old(alloc)@, *old(var)),
        final(alloc)@.wf(),
        r is Ok ==> final(var).spec_raw() == RawVariable::Reg(r->Ok_0),
        r is Err ==> *final(var) == *old(var) && final(alloc)@ == old(alloc)@,
{
    let (len, id, addr): (u16, Id, Option<Addr>) = match var.as_raw() {
        RawVariable::Reg(RawRegVariable::UnallocatedR8(id)) => (1, id, None),
        RawVariable::Reg(RawRegVariable::UnallocatedR16(id)) => (2, id, None),
        RawVariable::Reg(raw) => {
            return Ok(raw);
        },
        RawVariable::Memory(m) => (m.len, m.id, Some(m.addr)),
        RawVariable::Unallocated { len, id } => (len, id, None),
    };
    let kind: Result<RegKind, ConstAllocError> = RegKind::try_from_len(len);
    let dest = match kind {
        Err(e) => {
            return Err(AssemblerError::AllocError(e));
        },
        Ok(RegKind::GpRegister) => {
            let reg = match alloc.registers.alloc_reg() {
                Ok(reg) => reg,
                Err(e) => {
                    return Err(AssemblerError::AllocError(e));
                },
            };
            alloc.registers.claim(reg, id);
            match addr {
                Some(addr) => RawRegVariable::MemR8 { addr, reg, id },
                None => RawRegVariable::R8 { reg, id },
            }
        },
        Ok(RegKind::RegisterPair) => {
            let reg_pair = match alloc.registers.alloc_pair() {
                Ok(reg_pair) => reg_pair,
                Err(e) => {
                    return Err(AssemblerError::AllocError(e));
                },
            };
            alloc.registers.claim_pair(reg_pair, id);
            match addr {
                Some(addr) => RawRegVariable::MemR16 { addr, reg_pair, id },
                None => RawRegVariable::R16 { reg_pair, id },
            }
        },
    };
    *var = Variable::Reg(RegVariable::Rc(RcRegVariable { inner: dest }));
    Ok(dest)
}

/// Selects the move of one variable in registers to another.
fn assign_var(dest: RawRegVariable, src: RawRegVariable, value: VarOrConst) -> (r: Result<
    Vec<Instruction>,
    AssemblerError,
>)
    ensures
        r matches Ok(code) ==> spec_assign_var(dest, src, value) == Ok::<
            Seq<Instruction>,
            AssemblerError,
        >(code@),
        r matches Err(e) ==> spec_assign_var(dest, src, value) == Err::<
            Seq<Instruction>,
            AssemblerError,
        >(e),
{
    let mut out: Vec<Instruction> = Vec::new();
    match (dest, src) {
        (_, RawRegVariable::UnallocatedR8(_)) | (_, RawRegVariable::UnallocatedR16(_)) => {
            let meta: MetaInstruction = MetaInstruction::set_var(RawVariable::Reg(dest), value);
            out.push(Instruction::Meta(meta));
            proof {
                assert(out@ =~= seq![Instruction::Meta(meta)]);
            }
        },
        (
            RawRegVariable::R8 { reg: dest, .. } | RawRegVariable::MemR8 { reg: dest, .. },
            RawRegVariable::R8 { reg: src, .. } | RawRegVariable::MemR8 { reg: src, .. },
        ) => {
            out.push(Instruction::LdR8FromR8(dest, src));
            proof {
                assert(out@ =~= seq![Instruction::LdR8FromR8(dest, src)]);
            }
        },
        (
            RawRegVariable::R16 { reg_pair: dest, .. } | RawRegVariable::MemR16 { reg_pair: dest, .. },
            RawRegVariable::R16 { reg_pair: src, .. } | RawRegVariable::MemR16 { reg_pair: src, .. },
        ) => {
            let (dest1, dest2) = match dest.try_split() {
                Ok(halves) => halves,
                Err(e) => {
                    return Err(AssemblerError::RegSplitError(e));
                },
            };
            let (src1, src2) = match src.try_split() {
                Ok(halves) => halves,
                Err(e) => {
                    return Err(AssemblerError::RegSplitError(e));
                },
            };
            out.push(Instruction::LdR8FromR8(dest1, src1));
            out.push(Instruction::LdR8FromR8(dest2, src2));
            proof {
                assert(out@ =~= seq![
                    Instruction::LdR8FromR8(dest1, src1),
                    Instruction::LdR8FromR8(dest2, src2),
                ]);
            }
        },
        _ => {
            return Err(AssemblerError::ArgumentError);
        },
    }
    Ok(out)
}

/// Selects the move of a constant into a variable in registers.
fn assign_const(dest: RawRegVariable, src: Constant) -> (r: Result<Vec<Instruction>, AssemblerError>)
    ensures
        r matches Ok(code) ==> spec_assign_const(dest, src) == Ok::<
            Seq<Instruction>,
            AssemblerError,
        >(code@),
        r matches Err(e) ==> spec_assign_const(dest, src) == Err::<Seq<Instruction>, AssemblerError>(
            e,
        ),
{
    let mut out: Vec<Instruction> = Vec::new();
    let instruction = match (dest, src) {
        (
            RawRegVariable::R8 { reg: dest, .. } | RawRegVariable::MemR8 { reg: dest, .. },
            Constant::Inline8(src),
        ) => Instruction::LdR8Imm(dest, src),
        (
            RawRegVariable::R16 { reg_pair: dest, .. } | RawRegVariable::MemR16 { reg_pair: dest, .. },
            Constant::Inline16(src),
        ) => Instruction::LdR16Imm(dest, src),
        (
            RawRegVariable::R16 { reg_pair: dest, .. } | RawRegVariable::MemR16 { reg_pair: dest, .. },
            Constant::Addr(constant),
        ) => Instruction::LdR16Imm(dest, constant.addr),
        _ => {
            return Err(AssemblerError::ArgumentError);
        },
    };
    out.push(instruction);
    proof {
        assert(out@ =~= seq![instruction]);
    }
    Ok(out)
}

/// Selects the instructions that set `var` to `value`, and gives `var` a
/// register if it has none.
pub fn set_raw_code(
    alloc: &mut ConstAllocator,
    var: &mut Variable,
    value: &VarOrConst,
    out: &mut Vec<Instruction>,
) -> (r: Result<(), AssemblerError>)
    requires
        old(alloc)@.wf(),
        value matches VarOrConst::Var(src) ==> src.spec_wf(),
    ensures
        r == spec_set_raw(old(alloc)@, old(var).spec_raw(), *value).result,
        final(alloc)@ == spec_set_raw(old(alloc)@, old(var).spec_raw(), *value).alloc,
        final(out)@ == old(out)@ + spec_set_raw(old(alloc)@, old(var).spec_raw(), *value).code,
        *final(var) == spec_promoted_raw(old(alloc)@, *old(var)),
        final(alloc)@.wf(),
{
    proof {
        assert(out@ =~= old(out)@ + Seq::<Instruction>::empty());
    }
    let dest = match promote(alloc, var) {
        Ok(dest) => dest,
        Err(e) => {
            return Err(e);
        },
    };
    match value {
        VarOrConst::Const(src) => {
            match assign_const(dest, *src) {
                Ok(code) => {
                    append_code(out, &code);
                    Ok(())
                },
                Err(e) => Err(e),
            }
        },
        VarOrConst::Var(src) => {
            let ghost promoted = alloc@;
            let src_var = Variable::from(*src);
            let loaded = match load_raw_code(alloc, &src_var, out) {
                Ok(loaded) => loaded,
                Err(e) => {
                    return Err(e);
                },
            };
            let selected = assign_var(dest, loaded.inner(), *value);
            let r = finish_loaded(alloc, loaded, selected, out);
            proof {
                let sel = spec_set_raw(old(alloc)@, old(var).spec_raw(), *value);
                assert(out@ =~= old(out)@ + sel.code);
            }
            r
        },
    }
}


/// Stepping a variable takes few instructions.
pub proof fn lemma_crement_is_short(a: AllocState, var: RawVariable, up: bool)
    ensures
        spec_crement_raw(a, var, up).code.len() <= 16,
{
}


/// What a placeholder is rewritten to once its operands are in registers: the
/// instructions that the operation selects for them. A placeholder with an
/// operand that still has no home, with operands that the operation does not
/// take, or for an addition or subtraction, for which the CPU model has no
/// instruction, cannot be rewritten.
pub open spec fn spec_lower_meta(registers: GpRegisters, meta: MetaInstruction) -> Result<
    Seq<Instruction>,
    AssemblerError,
> {
    match meta {
        MetaInstruction::VarSet { dest: RawVariable::Reg(d), src } => if d.spec_is_unallocated() {
            Err(AssemblerError::ArgumentError)
        } else {
            match src {
                VarOrConst::Const(c) => spec_assign_const(d, c),
                VarOrConst::Var(RawVariable::Reg(s)) => if s.spec_is_unallocated() {
                    Err(AssemblerError::ArgumentError)
                } else {
                    spec_assign_var(d, s, src)
                },
                _ => Err(AssemblerError::ArgumentError),
            }
        },
        MetaInstruction::VarInc { var: RawVariable::Reg(v) } => if v.spec_is_unallocated() {
            Err(AssemblerError::ArgumentError)
        } else {
            spec_reg_crement(v, true)
        },
        MetaInstruction::VarDec { var: RawVariable::Reg(v) } => if v.spec_is_unallocated() {
            Err(AssemblerError::ArgumentError)
        } else {
            spec_reg_crement(v, false)
        },
        MetaInstruction::VarFromInd {
            dest: RawVariable::Reg(d),
            src: RawVariable::Memory(m),
        } => if d.spec_is_unallocated() || (d.spec_len() == 2 && m.addr == u16::MAX) {
            Err(AssemblerError::ArgumentError)
        } else {
            spec_reg_from_ind(registers, d, m.addr)
        },
        MetaInstruction::VarFromInd {
            dest: RawVariable::Reg(RawRegVariable::R8 { reg: GpRegister::A, .. }),
            src: RawVariable::Reg(s),
        } => if s.spec_is_unallocated() {
            Err(AssemblerError::ArgumentError)
        } else {
            spec_reg_a_from_ind(s)
        },
        MetaInstruction::VarToInd {
            dest: RawVariable::Memory(m),
            src: RawVariable::Reg(s),
        } => if s.spec_is_unallocated() || (s.spec_len() == 2 && m.addr == u16::MAX) {
            Err(AssemblerError::ArgumentError)
        } else {
            spec_reg_to_ind(registers, s, m.addr)
        },
        _ => Err(AssemblerError::ArgumentError),
    }
}

/// Selects the instructions that a placeholder is rewritten to.
pub fn lower_meta(alloc: &mut ConstAllocator, meta: &MetaInstruction) -> (r: Result<
    Vec<Instruction>,
    AssemblerError,
>)
    requires
        old(alloc)@.wf(),
    ensures
        final(alloc)@ == old(alloc)@,
        r matches Ok(code) ==> spec_lower_meta(old(alloc)@.registers, *meta) == Ok::<
            Seq<Instruction>,
            AssemblerError,
        >(code@),
        r matches Err(e) ==> spec_lower_meta(old(alloc)@.registers, *meta) == Err::<
            Seq<Instruction>,
            AssemblerError,
        >(e),
{
    match *meta {
        MetaInstruction::VarSet { dest: RawVariable::Reg(d), src } => {
            if RawVariable::Reg(d).is_unallocated() {
                return Err(AssemblerError::ArgumentError);
            }
            match src {
                VarOrConst::Const(c) => assign_const(d, c),
                VarOrConst::Var(RawVariable::Reg(s)) => {
                    if RawVariable::Reg(s).is_unallocated() {
                        Err(AssemblerError::ArgumentError)
                    } else {
                        assign_var(d, s, src)
                    }
                },
                _ => Err(AssemblerError::ArgumentError),
            }
        },
        MetaInstruction::VarInc { var: RawVariable::Reg(v) } => {
            if RawVariable::Reg(v).is_unallocated() {
                Err(AssemblerError::ArgumentError)
            } else {
                reg_crement(v, true)
            }
        },
        MetaInstruction::VarDec { var: RawVariable::Reg(v) } => {
            if RawVariable::Reg(v).is_unallocated() {
                Err(AssemblerError::ArgumentError)
            } else {
                reg_crement(v, false)
            }
        },
        MetaInstruction::VarFromInd { dest: RawVariable::Reg(d), src: RawVariable::Memory(m) } => {
            if RawVariable::Reg(d).is_unallocated() || (d.len() == 2 && m.addr == u16::MAX) {
                Err(AssemblerError::ArgumentError)
            } else {
                reg_from_ind(alloc, d, m.addr)
            }
        },
        MetaInstruction::VarFromInd {
            dest: RawVariable::Reg(RawRegVariable::R8 { reg: GpRegister::A, .. }),
            src: RawVariable::Reg(s),
        } => {
            if RawVariable::Reg(s).is_unallocated() {
                Err(AssemblerError::ArgumentError)
            } else {
                reg_a_from_ind(s)
            }
        },
        MetaInstruction::VarToInd { dest: RawVariable::Memory(m), src: RawVariable::Reg(s) } => {
            if RawVariable::Reg(s).is_unallocated() || (s.len() == 2 && m.addr == u16::MAX) {
                Err(AssemblerError::ArgumentError)
            } else {
                reg_to_ind(alloc, s, m.addr)
            }
        },
        _ => Err(AssemblerError::ArgumentError),
    }
}


/// True if a variable in registers is where it says. One that names its
/// register under an identifier is if the register is taken under that
/// identifier. An uncounted one may name a register under no identifier: that
/// is the register itself, whoever holds it.
pub open spec fn spec_is_found(registers: GpRegisters, var: RegVariable) -> bool {
    match var {
        RegVariable::Rc(rc) => registers.spec_holds(rc.inner),
        RegVariable::Raw(raw) => raw.spec_id() is Unset || registers.spec_holds(raw),
    }
}

/// The memory that a variable in registers mirrors, if it mirrors any and that
/// lies within the address space.
pub open spec fn spec_mirrored(raw: RawRegVariable) -> Option<MemoryVariable> {
    match raw {
        RawRegVariable::MemR8 { addr, id, .. } => Some(MemoryVariable { addr, len: 1, id }),
        RawRegVariable::MemR16 { addr, id, .. } => if addr + 2 <= 0x10000 {
            Some(MemoryVariable { addr, len: 2, id })
        } else {
            None
        },
        _ => None,
    }
}

/// The last record of the variable `raw` among the variables that were moved
/// to make room, if that has the variable's length and lies within the address
/// space.
pub open spec fn spec_recorded(a: AllocState, raw: RawRegVariable) -> Option<MemoryVariable> {
    match spec_home(a.spilled, raw.spec_id()) {
        Some(home) => if home.len == raw.spec_len() && home.addr + home.len <= 0x10000 {
            Some(home)
        } else {
            None
        },
        None => None,
    }
}

/// Where a variable lives that lost its register: `None` if it is where it
/// says, as every variable outside registers is; else the memory that it was
/// moved to when room was made, or, if it was not moved, the memory that it
/// mirrors. `ArgumentError` if it has neither.
pub open spec fn spec_moved(a: AllocState, var: Variable) -> Result<
    Option<MemoryVariable>,
    AssemblerError,
> {
    match var {
        Variable::Reg(v) => if spec_is_found(a.registers, v) {
            Ok(None)
        } else if spec_recorded(a, v.spec_inner()) is Some {
            Ok(spec_recorded(a, v.spec_inner()))
        } else if spec_mirrored(v.spec_inner()) is Some {
            Ok(spec_mirrored(v.spec_inner()))
        } else {
            Err(AssemblerError::ArgumentError)
        },
        _ => Ok(None),
    }
}

/// Where an operation finds the variable `var`: where it says, or in the
/// memory that it was moved to.
pub open spec fn spec_resident(a: AllocState, var: Variable) -> Result<Variable, AssemblerError> {
    match spec_moved(a, var) {
        Ok(None) => Ok(var),
        Ok(Some(home)) => Ok(Variable::Memory(home)),
        Err(e) => Err(e),
    }
}

/// What an operation selects that cannot find its variable: nothing.
pub open spec fn spec_nothing<T>(a: AllocState, e: AssemblerError) -> Selected<T> {
    Selected { result: Err(e), code: Seq::empty(), alloc: a }
}

/// Making a variable available in registers. A variable that lost its
/// register is loaded from the memory that it was moved to.
pub open spec fn spec_load_var(a: AllocState, var: Variable) -> Selected<RegVariable> {
    match spec_resident(a, var) {
        Ok(at) => spec_load_raw(a, at.spec_raw()),
        Err(e) => spec_nothing(a, e),
    }
}

/// Giving a variable a home in memory. A variable that lost its register
/// has the memory that it was moved to.
pub open spec fn spec_store_var(a: AllocState, var: Variable) -> Selected<MemoryVariable> {
    match spec_resident(a, var) {
        Ok(at) => spec_store_raw(a, at.spec_raw()),
        Err(e) => spec_nothing(a, e),
    }
}

/// Storing the value of a variable at `dest`, from where the variable is found.
pub open spec fn spec_ld_var_to_ind(a: AllocState, var: Variable, dest: Addr) -> Selected<()> {
    match spec_resident(a, var) {
        Ok(at) => spec_ld_raw_to_ind(a, at.spec_raw(), dest),
        Err(e) => spec_nothing(a, e),
    }
}

/// Loading the value of a variable from `src`, to where the variable is found.
pub open spec fn spec_ld_var_from_ind(a: AllocState, var: Variable, src: Addr) -> Selected<()> {
    match spec_resident(a, var) {
        Ok(at) => spec_ld_raw_from_ind(a, at.spec_raw(), src),
        Err(e) => spec_nothing(a, e),
    }
}

/// Stepping a variable up or down, where the variable is found.
pub open spec fn spec_crement_var(a: AllocState, var: Variable, up: bool) -> Selected<()> {
    match spec_resident(a, var) {
        Ok(at) => spec_crement_raw(a, at.spec_raw(), up),
        Err(e) => spec_nothing(a, e),
    }
}

/// Loading the byte that a variable points to, from where the variable is
/// found.
pub open spec fn spec_ld_a_from_var_ind(a: AllocState, var: Variable) -> Selected<()> {
    match spec_resident(a, var) {
        Ok(at) => spec_ld_a_from_raw_ind(a, at.spec_raw()),
        Err(e) => spec_nothing(a, e),
    }
}

/// Jumping if a variable is not zero, tested where the variable is found.
pub open spec fn spec_jr_nz_var(a: AllocState, var: Variable, imm: i8) -> Selected<()> {
    match spec_resident(a, var) {
        Ok(at) => spec_jr_nz_raw(a, at.spec_raw(), imm),
        Err(e) => spec_nothing(a, e),
    }
}

/// The source of an assignment as the operation finds it: a variable that
/// lost its register is read in the memory that it was moved to.
pub open spec fn spec_found_value(a: AllocState, value: VarOrConst) -> Result<
    VarOrConst,
    AssemblerError,
> {
    match value {
        VarOrConst::Var(RawVariable::Reg(raw)) => match spec_moved(
            a,
            Variable::Reg(RegVariable::Raw(raw)),
        ) {
            Ok(None) => Ok(value),
            Ok(Some(home)) => Ok(VarOrConst::Var(RawVariable::Memory(home))),
            Err(e) => Err(e),
        },
        _ => Ok(value),
    }
}

/// Setting a variable. A variable that lost its register is given a new one,
/// beside the memory that it was moved to.
pub open spec fn spec_set_var(a: AllocState, var: Variable, value: VarOrConst) -> Selected<()> {
    match (spec_resident(a, var), spec_found_value(a, value)) {
        (Ok(at), Ok(source)) => spec_set_raw(a, at.spec_raw(), source),
        (Err(e), _) => spec_nothing(a, e),
        (_, Err(e)) => spec_nothing(a, e),
    }
}

/// The variable after it was set to `value`: as it was, if it or the value
/// could not be found.
pub open spec fn spec_promoted_var(a: AllocState, var: Variable, value: VarOrConst) -> Variable {
    match (spec_resident(a, var), spec_found_value(a, value)) {
        (Ok(at), Ok(_)) => spec_promoted_raw(a, at),
        _ => var,
    }
}

/// True if a variable in registers is where it says.
pub fn is_found(registers: &GpRegisters, var: &RegVariable) -> (r: bool)
    ensures
        r == spec_is_found(*registers, *var),
{
    match var {
        RegVariable::Rc(rc) => registers.holds(&rc.inner),
        RegVariable::Raw(raw) => match raw.id() {
            Id::Unset => true,
            Id::Assigned(_) => registers.holds(raw),
        },
    }
}

/// The memory that a variable in registers mirrors.
pub fn mirrored(raw: &RawRegVariable) -> (r: Option<MemoryVariable>)
    ensures
        r == spec_mirrored(*raw),
{
    match raw {
        RawRegVariable::MemR8 { addr, id, .. } => Some(
            MemoryVariable { addr: *addr, len: 1, id: *id },
        ),
        RawRegVariable::MemR16 { addr, id, .. } => {
            if *addr < u16::MAX {
                Some(MemoryVariable { addr: *addr, len: 2, id: *id })
            } else {
                None
            }
        },
        _ => None,
    }
}

/// The record of a variable that was moved to make room.
pub fn recorded(alloc: &ConstAllocator, raw: &RawRegVariable) -> (r: Option<MemoryVariable>)
    ensures
        r == spec_recorded(alloc@, *raw),
{
    match alloc.spilled_home(raw.id()) {
        Some(home) => {
            if home.len == raw.len() && home.len as u32 <= 0x10000 - home.addr as u32 {
                Some(home)
            } else {
                None
            }
        },
        None => None,
    }
}

/// Finds where the variable `var` lives if it lost its register.
pub fn moved(alloc: &ConstAllocator, var: &Variable) -> (r: Result<
    Option<MemoryVariable>,
    AssemblerError,
>)
    ensures
        r == spec_moved(alloc@, *var),
{
    match var {
        Variable::Reg(v) => {
            if is_found(&alloc.registers, v) {
                return Ok(None);
            }
            let raw = v.inner();
            match recorded(alloc, &raw) {
                Some(home) => Ok(Some(home)),
                None => match mirrored(&raw) {
                    Some(home) => Ok(Some(home)),
                    None => Err(AssemblerError::ArgumentError),
                },
            }
        },
        _ => Ok(None),
    }
}

/// Finds the source of an assignment.
pub fn found_value(alloc: &ConstAllocator, value: &VarOrConst) -> (r: Result<
    VarOrConst,
    AssemblerError,
>)
    ensures
        r == spec_found_value(alloc@, *value),
{
    match value {
        VarOrConst::Var(RawVariable::Reg(raw)) => {
            match moved(alloc, &Variable::Reg(RegVariable::Raw(*raw))) {
                Ok(None) => Ok(*value),
                Ok(Some(home)) => Ok(VarOrConst::Var(RawVariable::Memory(home))),
                Err(e) => Err(e),
            }
        },
        _ => Ok(*value),
    }
}

/// Selects the instructions that make `var` available in registers.
pub fn load_var_code(alloc: &mut ConstAllocator, var: &Variable, out: &mut Vec<Instruction>) -> (r:
    Result<RegVariable, AssemblerError>)
    requires
        old(alloc)@.wf(),
        var.spec_raw().spec_wf(),
    ensures
        r == spec_load_var(old(alloc)@, *var).result,
        final(alloc)@ == spec_load_var(old(alloc)@, *var).alloc,
        final(out)@ == old(out)@ + spec_load_var(old(alloc)@, *var).code,
        final(alloc)@.wf(),
{
    proof {
        assert(out@ =~= old(out)@ + Seq::<Instruction>::empty());
    }
    match moved(alloc, var) {
        Ok(None) => load_raw_code(alloc, var, out),
        Ok(Some(home)) => load_raw_code(alloc, &Variable::Memory(home), out),
        Err(e) => Err(e),
    }
}

/// Selects the instructions that give `var` a home in memory.
pub fn store_var_code(alloc: &mut ConstAllocator, var: &Variable, out: &mut Vec<Instruction>) -> (r:
    Result<MemoryVariable, AssemblerError>)
    requires
        old(alloc)@.wf(),
    ensures
        r == spec_store_var(old(alloc)@, *var).result,
        final(alloc)@ == spec_store_var(old(alloc)@, *var).alloc,
        final(out)@ == old(out)@ + spec_store_var(old(alloc)@, *var).code,
        final(alloc)@.wf(),
{
    proof {
        assert(out@ =~= old(out)@ + Seq::<Instruction>::empty());
    }
    match moved(alloc, var) {
        Ok(None) => store_raw_code(alloc, var, out),
        Ok(Some(home)) => store_raw_code(alloc, &Variable::Memory(home), out),
        Err(e) => Err(e),
    }
}

/// Selects the instructions that store the value of `var` at `dest`.
pub fn ld_var_to_ind_code(
    alloc: &mut ConstAllocator,
    var: &Variable,
    dest: Addr,
    out: &mut Vec<Instruction>,
) -> (r: Result<(), AssemblerError>)
    requires
        old(alloc)@.wf(),
        var.spec_raw().spec_wf(),
        var.spec_raw().spec_len() == 2 ==> dest < u16::MAX,
    ensures
        r == spec_ld_var_to_ind(old(alloc)@, *var, dest).result,
        final(alloc)@ == spec_ld_var_to_ind(old(alloc)@, *var, dest).alloc,
        final(out)@ == old(out)@ + spec_ld_var_to_ind(old(alloc)@, *var, dest).code,
        final(alloc)@.wf(),
{
    proof {
        assert(out@ =~= old(out)@ + Seq::<Instruction>::empty());
    }
    match moved(alloc, var) {
        Ok(None) => ld_raw_to_ind_code(alloc, var, dest, out),
        Ok(Some(home)) => ld_raw_to_ind_code(alloc, &Variable::Memory(home), dest, out),
        Err(e) => Err(e),
    }
}

/// Selects the instructions that load the value of `var` from `src`.
pub fn ld_var_from_ind_code(
    alloc: &mut ConstAllocator,
    var: &Variable,
    src: Addr,
    out: &mut Vec<Instruction>,
) -> (r: Result<(), AssemblerError>)
    requires
        old(alloc)@.wf(),
        var.spec_raw().spec_wf(),
        var.spec_raw().spec_len() == 2 ==> src < u16::MAX,
    ensures
        r == spec_ld_var_from_ind(old(alloc)@, *var, src).result,
        final(alloc)@ == spec_ld_var_from_ind(old(alloc)@, *var, src).alloc,
        final(out)@ == old(out)@ + spec_ld_var_from_ind(old(alloc)@, *var, src).code,
        final(alloc)@.wf(),
{
    proof {
        assert(out@ =~= old(out)@ + Seq::<Instruction>::empty());
    }
    match moved(alloc, var) {
        Ok(None) => ld_raw_from_ind_code(alloc, var, src, out),
        Ok(Some(home)) => ld_raw_from_ind_code(alloc, &Variable::Memory(home), src, out),
        Err(e) => Err(e),
    }
}

/// Selects the instructions that step `var` up or down.
pub fn crement_var_code(
    alloc: &mut ConstAllocator,
    var: &Variable,
    up: bool,
    out: &mut Vec<Instruction>,
) -> (r: Result<(), AssemblerError>)
    requires
        old(alloc)@.wf(),
        var.spec_raw().spec_wf(),
    ensures
        r == spec_crement_var(old(alloc)@, *var, up).result,
        final(alloc)@ == spec_crement_var(old(alloc)@, *var, up).alloc,
        final(out)@ == old(out)@ + spec_crement_var(old(alloc)@, *var, up).code,
        final(alloc)@.wf(),
{
    proof {
        assert(out@ =~= old(out)@ + Seq::<Instruction>::empty());
    }
    match moved(alloc, var) {
        Ok(None) => crement_raw_code(alloc, var, up, out),
        Ok(Some(home)) => crement_raw_code(alloc, &Variable::Memory(home), up, out),
        Err(e) => Err(e),
    }
}

/// Selects the instructions that load the byte that `var` points to.
pub fn ld_a_from_var_ind_code(
    alloc: &mut ConstAllocator,
    var: &Variable,
    out: &mut Vec<Instruction>,
) -> (r: Result<(), AssemblerError>)
    requires
        old(alloc)@.wf(),
        var.spec_raw().spec_wf(),
    ensures
        r == spec_ld_a_from_var_ind(old(alloc)@, *var).result,
        final(alloc)@ == spec_ld_a_from_var_ind(old(alloc)@, *var).alloc,
        final(out)@ == old(out)@ + spec_ld_a_from_var_ind(old(alloc)@, *var).code,
        final(alloc)@.wf(),
{
    proof {
        assert(out@ =~= old(out)@ + Seq::<Instruction>::empty());
    }
    match moved(alloc, var) {
        Ok(None) => ld_a_from_raw_ind_code(alloc, var, out),
        Ok(Some(home)) => ld_a_from_raw_ind_code(alloc, &Variable::Memory(home), out),
        Err(e) => Err(e),
    }
}

/// Selects the instructions that jump by `imm` if `var` is not zero.
pub fn jr_nz_var_code(
    alloc: &mut ConstAllocator,
    var: &Variable,
    imm: i8,
    out: &mut Vec<Instruction>,
) -> (r: Result<(), AssemblerError>)
    requires
        old(alloc)@.wf(),
        var.spec_raw().spec_wf(),
    ensures
        r == spec_jr_nz_var(old(alloc)@, *var, imm).result,
        final(alloc)@ == spec_jr_nz_var(old(alloc)@, *var, imm).alloc,
        final(out)@ == old(out)@ + spec_jr_nz_var(old(alloc)@, *var, imm).code,
        final(alloc)@.wf(),
{
    proof {
        assert(out@ =~= old(out)@ + Seq::<Instruction>::empty());
    }
    match moved(alloc, var) {
        Ok(None) => jr_nz_raw_code(alloc, var, imm, out),
        Ok(Some(home)) => jr_nz_raw_code(alloc, &Variable::Memory(home), imm, out),
        Err(e) => Err(e),
    }
}

/// Selects the instructions that set `var` to `value`, and gives `var` a
/// register if it has none.
pub fn set_var_code(
    alloc: &mut ConstAllocator,
    var: &mut Variable,
    value: &VarOrConst,
    out: &mut Vec<Instruction>,
) -> (r: Result<(), AssemblerError>)
    requires
        old(alloc)@.wf(),
        value matches VarOrConst::Var(src) ==> src.spec_wf(),
    ensures
        r == spec_set_var(old(alloc)@, *old(var), *value).result,
        final(alloc)@ == spec_set_var(old(alloc)@, *old(var), *value).alloc,
        final(out)@ == old(out)@ + spec_set_var(old(alloc)@, *old(var), *value).code,
        *final(var) == spec_promoted_var(old(alloc)@, *old(var), *value),
        final(alloc)@.wf(),
{
    proof {
        assert(out@ =~= old(out)@ + Seq::<Instruction>::empty());
    }
    let at = match moved(alloc, var) {
        Ok(at) => at,
        Err(e) => {
            return Err(e);
        },
    };
    let source = match found_value(alloc, value) {
        Ok(source) => source,
        Err(e) => {
            return Err(e);
        },
    };
    match at {
        Some(home) => {
            *var = Variable::Memory(home);
        },
        None => {},
    }
    set_raw_code(alloc, var, &source, out)
}

/// A variable that loses the accumulator. When no register is free and a byte
/// is loaded for another variable, the variable in the accumulator is moved to
/// a new cell of RAM. Its handle is then no longer where it says: operations on
/// it go by that cell, and giving the handle up leaves the accumulator to the
/// variable that has it now.
pub proof fn lemma_moved_variable_is_found(a: AllocState, id: Id, addr: Addr, other: Id)
    requires
        a.wf(),
        a.registers.spec_first_free() is None,
        a.registers.spec_holds(RawRegVariable::R8 { reg: GpRegister::A, id }),
        id is Assigned,
        other != id,
        spec_load8(a, addr, other).result is Ok,
    ensures
        ({
            let victim = RawRegVariable::R8 { reg: GpRegister::A, id };
            let after = spec_load8(a, addr, other).alloc;
            let home = MemoryVariable { addr: a.variables.spec_result(1)->Ok_0, len: 1, id };
            &&& !after.registers.spec_holds(victim)
            &&& after.registers.spec_holds(
                RawRegVariable::MemR8 { addr, reg: GpRegister::A, id: other },
            )
            &&& spec_moved(after, Variable::Reg(RegVariable::Rc(RcRegVariable { inner: victim })))
                == Ok::<Option<MemoryVariable>, AssemblerError>(Some(home))
            &&& after.registers.spec_drop_var(victim) == after.registers
        }),
{
    let after = spec_load8(a, addr, other).alloc;
    let home = MemoryVariable { addr: a.variables.spec_result(1)->Ok_0, len: 1, id };
    assert(spec_slot_id(a.registers.a) == id);
    assert(after.spilled == a.spilled.push(home));
    assert(after.spilled.last() == home);
    assert(spec_home(after.spilled, id) == Some(home));
}

/// A variable that loses the pair `BC`. When no pair is free and two bytes are
/// loaded for another variable, the variable in `BC` is moved to two new cells
/// of RAM. Its handle is then no longer where it says: operations on it go by
/// those cells, and giving the handle up leaves `BC` to the variable that has
/// it now.
pub proof fn lemma_moved_pair_is_found(a: AllocState, id: Id, addr: Addr, other: Id)
    requires
        a.wf(),
        a.registers.spec_first_free_pair() is None,
        a.registers.spec_holds(RawRegVariable::R16 { reg_pair: RegisterPair::BC, id }),
        id is Assigned,
        other != id,
        spec_load16(a, addr, other).result is Ok,
    ensures
        ({
            let victim = RawRegVariable::R16 { reg_pair: RegisterPair::BC, id };
            let after = spec_load16(a, addr, other).alloc;
            let home = MemoryVariable { addr: a.variables.spec_result(2)->Ok_0, len: 2, id };
            &&& !after.registers.spec_holds(victim)
            &&& after.registers.spec_holds(
                RawRegVariable::MemR16 { addr, reg_pair: RegisterPair::BC, id: other },
            )
            &&& spec_moved(after, Variable::Reg(RegVariable::Rc(RcRegVariable { inner: victim })))
                == Ok::<Option<MemoryVariable>, AssemblerError>(Some(home))
            &&& after.registers.spec_drop_var(victim) == after.registers
        }),
{
    let after = spec_load16(a, addr, other).alloc;
    let home = MemoryVariable { addr: a.variables.spec_result(2)->Ok_0, len: 2, id };
    assert(spec_slot_id(a.registers.b) == id);
    assert(spec_slot_id(a.registers.c) == id);
    assert(spec_pair_records(a.registers.b, a.registers.c, home.addr) =~= seq![home]);
    assert(after.spilled =~= a.spilled.push(home));
    assert(after.spilled.last() == home);
    assert(spec_home(after.spilled, id) == Some(home));
}

} // verus!
