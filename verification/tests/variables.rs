use gleeby::codegen::allocator::{
    Allocator, ConstAllocError, ConstAllocator, GpRegisters, RcRegVariable,
};
use gleeby::codegen::block::EmitterError;
use gleeby::codegen::meta_instr::{MetaInstruction, VarOrConst};
use gleeby::codegen::variables::{
    Constant, Id, MemoryVariable, RawRegVariable, RawVariable, RegVariable, StoredConstant,
    Variable, Variabler,
};
use gleeby::codegen::{Assembler, AssemblerError, BasicBlock, Block, MacroAssembler};
use gleeby::cpu::instructions::{Condition, Instruction};
use gleeby::cpu::{CpuFlag, GpRegister, IndirectPair, RegisterPair, SplitError, StackPair};

use GpRegister::{A, B, C, D, E, H, L};

fn fresh() -> (BasicBlock, ConstAllocator) {
    let mut alloc = ConstAllocator::default();
    alloc.constants.offset = 0x0800;
    alloc.variables.offset = 0xc000;
    (BasicBlock::new(), alloc)
}

fn code(block: &BasicBlock) -> Vec<Instruction> {
    let mut out = Vec::new();
    for inner in block.contents.iter() {
        match inner {
            Block::Raw(raw) => out.extend(raw.0.iter().copied()),
            other => panic!("a block inside: {:?}", other),
        }
    }
    out
}

fn take_all(alloc: &mut ConstAllocator) {
    for (n, reg) in [A, B, C, D, E, H, L].into_iter().enumerate() {
        alloc.registers.claim(reg, Id::Assigned(n));
    }
}

fn raw8(reg: GpRegister) -> Variable {
    Variable::Reg(RegVariable::Raw(RawRegVariable::R8 { reg, id: Id::Unset }))
}

fn raw16(reg_pair: RegisterPair) -> Variable {
    Variable::Reg(RegVariable::Raw(RawRegVariable::R16 { reg_pair, id: Id::Unset }))
}

fn memory(addr: u16, len: u16, id: usize) -> Variable {
    Variable::Memory(MemoryVariable { addr, len, id: Id::Assigned(id) })
}

fn ld(dest: GpRegister, src: GpRegister) -> Instruction {
    Instruction::LdR8FromR8(dest, src)
}

#[test]
fn a_byte_in_memory_is_loaded_through_the_accumulator() {
    let (mut block, mut alloc) = fresh();
    let loaded = block.load_var(&mut alloc, &memory(0xc010, 1, 1));
    let inner = RawRegVariable::MemR8 { addr: 0xc010, reg: A, id: Id::Assigned(1) };
    assert_eq!(loaded, Ok(RegVariable::Rc(RcRegVariable { inner })));
    assert_eq!(code(&block), vec![Instruction::LdAFromInd(0xc010)]);
    assert_eq!(alloc.registers.a, Some((Id::Assigned(1), Some(1))));

    let loaded = block.load_var(&mut alloc, &memory(0xc011, 1, 2));
    let inner = RawRegVariable::MemR8 { addr: 0xc011, reg: B, id: Id::Assigned(2) };
    assert_eq!(loaded, Ok(RegVariable::Rc(RcRegVariable { inner })));
    assert_eq!(
        code(&block),
        vec![Instruction::LdAFromInd(0xc010), ld(B, A), Instruction::LdAFromInd(0xc011)]
    );
    assert_eq!(alloc.registers.b, Some((Id::Assigned(2), Some(1))));
}

#[test]
fn two_bytes_in_memory_are_loaded_low_byte_first() {
    let (mut block, mut alloc) = fresh();
    let loaded = block.load_var(&mut alloc, &memory(0xc020, 2, 3));
    let inner =
        RawRegVariable::MemR16 { addr: 0xc020, reg_pair: RegisterPair::BC, id: Id::Assigned(3) };
    assert_eq!(loaded, Ok(RegVariable::Rc(RcRegVariable { inner })));
    assert_eq!(
        code(&block),
        vec![
            Instruction::LdAFromInd(0xc020),
            ld(C, A),
            Instruction::LdAFromInd(0xc021),
            ld(B, A),
        ]
    );
    assert_eq!(alloc.registers.a, None);
    assert_eq!(alloc.registers.b, Some((Id::Assigned(3), Some(1))));
    assert_eq!(alloc.registers.c, Some((Id::Assigned(3), Some(1))));

    alloc.registers.claim(A, Id::Unset);
    let (mut block, _) = fresh();
    let loaded = block.load_var(&mut alloc, &memory(0xc030, 2, 4));
    assert!(loaded.is_ok());
    assert_eq!(
        code(&block),
        vec![
            ld(H, A),
            Instruction::LdAFromInd(0xc030),
            ld(E, A),
            Instruction::LdAFromInd(0xc031),
            ld(D, A),
            ld(A, H),
        ]
    );
    assert_eq!(alloc.registers.h, None);
}

#[test]
fn a_variable_in_registers_is_returned_as_it_is() {
    let (mut block, mut alloc) = fresh();
    let inner = RawRegVariable::R8 { reg: D, id: Id::Assigned(1) };
    let counted = Variable::Reg(RegVariable::Rc(RcRegVariable { inner }));
    alloc.registers.claim(D, Id::Assigned(1));
    assert_eq!(block.load_var(&mut alloc, &counted), Ok(RegVariable::Raw(inner)));
    alloc.registers.free(gleeby::codegen::variables::RegSelector::R8(D));
    assert_eq!(block.load_var(&mut alloc, &raw16(RegisterPair::HL)).unwrap().inner(),
        RawRegVariable::R16 { reg_pair: RegisterPair::HL, id: Id::Unset });
    let one = Variable::Unallocated { len: 1, id: Id::Assigned(2) };
    let two = Variable::Unallocated { len: 2, id: Id::Assigned(3) };
    let three = Variable::Unallocated { len: 3, id: Id::Assigned(4) };
    assert_eq!(
        block.load_var(&mut alloc, &one),
        Ok(RegVariable::Raw(RawRegVariable::UnallocatedR8(Id::Assigned(2))))
    );
    assert_eq!(
        block.load_var(&mut alloc, &two),
        Ok(RegVariable::Raw(RawRegVariable::UnallocatedR16(Id::Assigned(3))))
    );
    assert_eq!(
        block.load_var(&mut alloc, &three),
        Err(AssemblerError::AllocError(ConstAllocError::TooBigForRegister))
    );
    assert_eq!(
        block.load_var(&mut alloc, &memory(0xc000, 3, 5)),
        Err(AssemblerError::AllocError(ConstAllocError::TooBigForRegister))
    );
    assert!(block.contents.is_empty());
    assert_eq!(alloc.registers, GpRegisters::default());
}

#[test]
fn the_eighth_byte_spills_the_accumulator() {
    let (mut block, mut alloc) = fresh();
    let mut vars = Vec::new();
    for value in 1..=7u8 {
        vars.push(block.init_var8(&mut alloc, value).unwrap());
    }
    assert!(!alloc.has_free_register());
    let addr = alloc.variables.allocate(1).unwrap();
    assert_eq!(addr, 0xc000);
    let eighth = memory(addr, 1, 7);
    let before = code(&block).len();
    let loaded = block.load_var(&mut alloc, &eighth);
    let inner = RawRegVariable::MemR8 { addr: 0xc000, reg: A, id: Id::Assigned(7) };
    assert_eq!(loaded, Ok(RegVariable::Rc(RcRegVariable { inner })));
    assert_eq!(
        code(&block)[before..],
        [Instruction::LdAToInd(0xc001), Instruction::LdAFromInd(0xc000)]
    );
    assert_eq!(
        alloc.spilled,
        vec![MemoryVariable { addr: 0xc001, len: 1, id: Id::Assigned(0) }]
    );
    assert_eq!(alloc.registers.a, Some((Id::Assigned(7), Some(1))));
    assert_eq!(alloc.variables.next, 2);
    let bytes = block.encode(&mut alloc).unwrap();
    assert_eq!(bytes[bytes.len() - 6..], [0xea, 0x01, 0xc0, 0xfa, 0x00, 0xc0]);
    assert_eq!(
        bytes[..14],
        [0x3e, 1, 0x06, 2, 0x0e, 3, 0x16, 4, 0x1e, 5, 0x26, 6, 0x2e, 7]
    );
}

#[test]
fn two_bytes_spill_the_first_pair() {
    let (mut block, mut alloc) = fresh();
    take_all(&mut alloc);
    let loaded = block.load_var(&mut alloc, &memory(0xc800, 2, 9));
    let inner =
        RawRegVariable::MemR16 { addr: 0xc800, reg_pair: RegisterPair::BC, id: Id::Assigned(9) };
    assert_eq!(loaded, Ok(RegVariable::Rc(RcRegVariable { inner })));
    assert_eq!(
        code(&block),
        vec![
            Instruction::Push(StackPair::AF),
            ld(A, C),
            Instruction::LdAToInd(0xc000),
            ld(A, B),
            Instruction::LdAToInd(0xc001),
            Instruction::Pop(StackPair::AF),
            Instruction::Push(StackPair::AF),
            Instruction::LdAFromInd(0xc800),
            ld(C, A),
            Instruction::LdAFromInd(0xc801),
            ld(B, A),
            Instruction::Pop(StackPair::AF),
        ]
    );
    assert_eq!(
        alloc.spilled,
        vec![
            MemoryVariable { addr: 0xc000, len: 1, id: Id::Assigned(2) },
            MemoryVariable { addr: 0xc001, len: 1, id: Id::Assigned(1) },
        ]
    );
    assert_eq!(alloc.registers.b, Some((Id::Assigned(9), Some(1))));
    assert_eq!(alloc.registers.c, Some((Id::Assigned(9), Some(1))));
}

#[test]
fn a_spill_fails_when_memory_is_full() {
    let (mut block, mut alloc) = fresh();
    take_all(&mut alloc);
    alloc.variables.next = alloc.variables.len;
    let before = alloc.clone();
    assert_eq!(
        block.load_var(&mut alloc, &memory(0xc800, 1, 9)),
        Err(AssemblerError::AllocError(ConstAllocError::OutOfMemory))
    );
    assert_eq!(
        block.load_var(&mut alloc, &memory(0xc800, 2, 9)),
        Err(AssemblerError::AllocError(ConstAllocError::OutOfMemory))
    );
    assert_eq!(alloc, before);
    assert!(block.contents.is_empty());
}

#[test]
fn a_byte_is_stored_through_the_accumulator() {
    let (mut block, mut alloc) = fresh();
    assert_eq!(block.ld_var_to_ind(&mut alloc, &raw8(B), 0xff40), Ok(()));
    assert_eq!(code(&block), vec![ld(A, B), Instruction::LdhFromA(0x40)]);

    let (mut block, _) = fresh();
    assert_eq!(block.ld_var_to_ind(&mut alloc, &raw8(A), 0x9800), Ok(()));
    assert_eq!(code(&block), vec![Instruction::LdAToInd(0x9800)]);

    let (mut block, _) = fresh();
    alloc.registers.claim(A, Id::Unset);
    alloc.registers.claim(B, Id::Unset);
    assert_eq!(block.ld_var_to_ind(&mut alloc, &raw8(B), 0xfeff), Ok(()));
    assert_eq!(code(&block), vec![ld(C, A), ld(A, B), Instruction::LdAToInd(0xfeff), ld(A, C)]);
    assert_eq!(alloc.registers.c, None);

    let (mut block, _) = fresh();
    take_all(&mut alloc);
    let before = alloc.clone();
    assert_eq!(block.ld_var_to_ind(&mut alloc, &raw8(B), 0xff00), Ok(()));
    assert_eq!(
        code(&block),
        vec![
            Instruction::Push(StackPair::AF),
            ld(A, B),
            Instruction::LdhFromA(0x00),
            Instruction::Pop(StackPair::AF),
        ]
    );
    assert_eq!(alloc, before);
}

#[test]
fn a_pair_is_stored_high_byte_first() {
    let (mut block, mut alloc) = fresh();
    assert_eq!(block.ld_var_to_ind(&mut alloc, &raw16(RegisterPair::DE), 0xc100), Ok(()));
    assert_eq!(
        code(&block),
        vec![ld(A, D), Instruction::LdAToInd(0xc100), ld(A, E), Instruction::LdAToInd(0xc101)]
    );
    let (mut block, _) = fresh();
    assert_eq!(block.ld_var_to_ind(&mut alloc, &raw16(RegisterPair::HL), 0xfeff), Ok(()));
    assert_eq!(
        code(&block),
        vec![ld(A, H), Instruction::LdAToInd(0xfeff), ld(A, L), Instruction::LdhFromA(0x00)]
    );
    let (mut block, _) = fresh();
    assert_eq!(
        block.ld_var_to_ind(&mut alloc, &raw16(RegisterPair::SP), 0xc100),
        Err(AssemblerError::RegSplitError(SplitError::StackPointer))
    );
    assert!(block.contents.is_empty());
    assert_eq!(alloc.registers, GpRegisters::default());
}

#[test]
fn a_variable_in_memory_is_loaded_to_be_stored() {
    let (mut block, mut alloc) = fresh();
    assert_eq!(block.ld_var_to_ind(&mut alloc, &memory(0xc000, 1, 0), 0xff47), Ok(()));
    assert_eq!(code(&block), vec![Instruction::LdAFromInd(0xc000), Instruction::LdhFromA(0x47)]);
    assert_eq!(alloc.registers, GpRegisters::default());
}

#[test]
fn a_variable_without_a_home_gets_a_placeholder() {
    let (mut block, mut alloc) = fresh();
    let var = Variable::Unallocated { len: 1, id: Id::Assigned(5) };
    let raw = RawVariable::Reg(RawRegVariable::UnallocatedR8(Id::Assigned(5)));
    assert_eq!(block.ld_var_to_ind(&mut alloc, &var, 0x9800), Ok(()));
    assert_eq!(block.ld_var_from_ind(&mut alloc, &var, 0x9801), Ok(()));
    assert_eq!(block.inc_var(&mut alloc, &var), Ok(()));
    assert_eq!(block.dec_var(&mut alloc, &var), Ok(()));
    assert_eq!(block.ld_a_from_var_ind(&mut alloc, &var), Ok(()));
    let at = |addr| RawVariable::Memory(MemoryVariable { addr, len: 1, id: Id::Unset });
    assert_eq!(
        code(&block),
        vec![
            Instruction::Meta(MetaInstruction::VarToInd { dest: at(0x9800), src: raw }),
            Instruction::Meta(MetaInstruction::VarFromInd { dest: raw, src: at(0x9801) }),
            Instruction::Meta(MetaInstruction::VarInc { var: raw }),
            Instruction::Meta(MetaInstruction::VarDec { var: raw }),
            Instruction::Meta(MetaInstruction::VarFromInd {
                dest: RawVariable::Reg(RawRegVariable::R8 { reg: A, id: Id::Unset }),
                src: raw,
            }),
        ]
    );
    assert_eq!(block.len(), 0);
    assert_eq!(
        block.jr_nz_var(&mut alloc, &var, 4),
        Err(AssemblerError::EmitterError(EmitterError::UnallocatedVariable(raw)))
    );
    let errors = block.encode(&mut alloc).unwrap_err();
    assert_eq!(errors.len(), 5);
    assert_eq!(errors[2], AssemblerError::EmitterError(EmitterError::UnallocatedVariable(raw)));
    assert_eq!(block.evaluate_meta(&mut alloc), Err(AssemblerError::ArgumentError));
    assert_eq!(code(&block).len(), 5);
}

#[test]
fn a_variable_is_loaded_from_an_address() {
    let (mut block, mut alloc) = fresh();
    alloc.registers.claim(B, Id::Unset);
    assert_eq!(block.ld_var_from_ind(&mut alloc, &raw8(B), 0xff44), Ok(()));
    assert_eq!(code(&block), vec![Instruction::LdhToA(0x44), ld(B, A)]);
    let (mut block, _) = fresh();
    assert_eq!(block.ld_var_from_ind(&mut alloc, &raw8(A), 0xc000), Ok(()));
    assert_eq!(code(&block), vec![Instruction::LdAFromInd(0xc000)]);
    let (mut block, _) = fresh();
    alloc.registers.claim(A, Id::Unset);
    assert_eq!(block.ld_var_from_ind(&mut alloc, &raw16(RegisterPair::DE), 0xc000), Ok(()));
    assert_eq!(
        code(&block),
        vec![
            ld(C, A),
            Instruction::LdAFromInd(0xc000),
            ld(D, A),
            Instruction::LdAFromInd(0xc001),
            ld(E, A),
            ld(A, C),
        ]
    );
    assert_eq!(
        block.ld_var_from_ind(&mut alloc, &raw16(RegisterPair::SP), 0xc000),
        Err(AssemblerError::RegSplitError(SplitError::StackPointer))
    );
}

#[test]
fn a_variable_is_set_to_a_constant() {
    let (mut block, mut alloc) = fresh();
    let mut var = Variable::Unallocated { len: 1, id: Id::Assigned(0) };
    assert_eq!(block.set_var(&mut alloc, &mut var, &VarOrConst::Const(Constant::Inline8(3))), Ok(()));
    let inner = RawRegVariable::R8 { reg: A, id: Id::Assigned(0) };
    assert_eq!(var, Variable::Reg(RegVariable::Rc(RcRegVariable { inner })));
    assert_eq!(alloc.registers.a, Some((Id::Assigned(0), Some(1))));

    let mut wide = Variable::Unallocated { len: 2, id: Id::Assigned(1) };
    let value = VarOrConst::Const(Constant::Inline16(0x1234));
    assert_eq!(block.set_var(&mut alloc, &mut wide, &value), Ok(()));
    let inner = RawRegVariable::R16 { reg_pair: RegisterPair::BC, id: Id::Assigned(1) };
    assert_eq!(wide, Variable::Reg(RegVariable::Rc(RcRegVariable { inner })));
    let stored = StoredConstant { id: Id::Assigned(2), addr: 0x0800, len: 8 };
    assert_eq!(block.set_var(&mut alloc, &mut wide, &VarOrConst::Const(Constant::Addr(stored))), Ok(()));

    let mut in_memory = memory(0xc000, 1, 3);
    assert_eq!(
        block.set_var(&mut alloc, &mut in_memory, &VarOrConst::Const(Constant::Inline8(9))),
        Ok(())
    );
    let inner = RawRegVariable::MemR8 { addr: 0xc000, reg: D, id: Id::Assigned(3) };
    assert_eq!(in_memory, Variable::Reg(RegVariable::Rc(RcRegVariable { inner })));
    assert_eq!(
        code(&block),
        vec![
            Instruction::LdR8Imm(A, 3),
            Instruction::LdR16Imm(RegisterPair::BC, 0x1234),
            Instruction::LdR16Imm(RegisterPair::BC, 0x0800),
            Instruction::LdR8Imm(D, 9),
        ]
    );
}

#[test]
fn a_variable_is_set_to_a_variable() {
    let (mut block, mut alloc) = fresh();
    let mut dest = raw8(B);
    let src = RawVariable::Reg(RawRegVariable::R8 { reg: E, id: Id::Unset });
    assert_eq!(block.set_var(&mut alloc, &mut dest, &VarOrConst::Var(src)), Ok(()));
    let mut wide = raw16(RegisterPair::HL);
    let src = RawVariable::Reg(RawRegVariable::R16 { reg_pair: RegisterPair::DE, id: Id::Unset });
    assert_eq!(block.set_var(&mut alloc, &mut wide, &VarOrConst::Var(src)), Ok(()));
    let homeless = RawVariable::Unallocated { len: 1, id: Id::Assigned(4) };
    assert_eq!(block.set_var(&mut alloc, &mut dest, &VarOrConst::Var(homeless)), Ok(()));
    assert_eq!(
        code(&block),
        vec![
            ld(B, E),
            ld(H, D),
            ld(L, E),
            Instruction::Meta(MetaInstruction::VarSet {
                dest: RawVariable::Reg(RawRegVariable::R8 { reg: B, id: Id::Unset }),
                src: VarOrConst::Var(homeless),
            }),
        ]
    );
    assert_eq!(dest, raw8(B));
    assert_eq!(alloc.registers, GpRegisters::default());

    let in_memory = RawVariable::Memory(MemoryVariable { addr: 0xc005, len: 1, id: Id::Unset });
    let (mut block, _) = fresh();
    assert_eq!(block.set_var(&mut alloc, &mut dest, &VarOrConst::Var(in_memory)), Ok(()));
    assert_eq!(code(&block), vec![Instruction::LdAFromInd(0xc005), ld(B, A)]);
    assert_eq!(alloc.registers, GpRegisters::default());
}

#[test]
fn what_does_not_fit_is_not_set() {
    let (mut block, mut alloc) = fresh();
    let mut dest = raw8(B);
    let mut wide = raw16(RegisterPair::HL);
    let byte = RawVariable::Reg(RawRegVariable::R8 { reg: E, id: Id::Unset });
    let pair = RawVariable::Reg(RawRegVariable::R16 { reg_pair: RegisterPair::DE, id: Id::Unset });
    let sp = RawVariable::Reg(RawRegVariable::R16 { reg_pair: RegisterPair::SP, id: Id::Unset });
    let err = Err(AssemblerError::ArgumentError);
    assert_eq!(block.set_var(&mut alloc, &mut dest, &VarOrConst::Var(pair)), err);
    assert_eq!(block.set_var(&mut alloc, &mut wide, &VarOrConst::Var(byte)), err);
    assert_eq!(block.set_var(&mut alloc, &mut dest, &VarOrConst::Const(Constant::Inline16(1))), err);
    assert_eq!(block.set_var(&mut alloc, &mut wide, &VarOrConst::Const(Constant::Inline8(1))), err);
    assert_eq!(
        block.set_var(&mut alloc, &mut wide, &VarOrConst::Var(sp)),
        Err(AssemblerError::RegSplitError(SplitError::StackPointer))
    );
    let mut big = Variable::Unallocated { len: 3, id: Id::Assigned(0) };
    assert_eq!(
        block.set_var(&mut alloc, &mut big, &VarOrConst::Const(Constant::Inline8(1))),
        Err(AssemblerError::AllocError(ConstAllocError::TooBigForRegister))
    );
    take_all(&mut alloc);
    let mut small = Variable::Unallocated { len: 1, id: Id::Assigned(0) };
    assert_eq!(
        block.set_var(&mut alloc, &mut small, &VarOrConst::Const(Constant::Inline8(1))),
        Err(AssemblerError::AllocError(ConstAllocError::OutOfRegisters))
    );
    assert_eq!(small, Variable::Unallocated { len: 1, id: Id::Assigned(0) });
    let mut two = Variable::Unallocated { len: 2, id: Id::Assigned(0) };
    assert_eq!(
        block.set_var(&mut alloc, &mut two, &VarOrConst::Const(Constant::Inline16(1))),
        Err(AssemblerError::AllocError(ConstAllocError::OutOfRegisters))
    );
    assert!(block.contents.is_empty());
}

#[test]
fn variables_are_stepped() {
    let (mut block, mut alloc) = fresh();
    assert_eq!(block.inc_var(&mut alloc, &raw8(B)), Ok(()));
    assert_eq!(block.dec_var(&mut alloc, &raw8(B)), Ok(()));
    assert_eq!(block.inc_var(&mut alloc, &raw16(RegisterPair::DE)), Ok(()));
    assert_eq!(block.dec_var(&mut alloc, &raw16(RegisterPair::SP)), Ok(()));
    assert_eq!(block.dec_var(&mut alloc, &memory(0xc000, 1, 0)), Ok(()));
    assert_eq!(
        code(&block),
        vec![
            Instruction::IncR8(B),
            Instruction::DecR8(B),
            Instruction::IncR16(RegisterPair::DE),
            Instruction::DecR16(RegisterPair::SP),
            Instruction::LdAFromInd(0xc000),
            Instruction::DecR8(A),
        ]
    );
    assert_eq!(alloc.registers, GpRegisters::default());
}

#[test]
fn the_accumulator_is_loaded_through_a_pointer() {
    let (mut block, mut alloc) = fresh();
    assert_eq!(block.ld_a_from_var_ind(&mut alloc, &raw8(C)), Ok(()));
    assert_eq!(block.ld_a_from_var_ind(&mut alloc, &raw16(RegisterPair::HL)), Ok(()));
    assert_eq!(block.ld_a_from_var_ind(&mut alloc, &raw16(RegisterPair::DE)), Ok(()));
    assert_eq!(
        code(&block),
        vec![
            Instruction::LdhToAWithC,
            Instruction::LdAFromR16(IndirectPair::HLInc),
            Instruction::LdAFromR16(IndirectPair::DE),
        ]
    );
    let err = Err(AssemblerError::ArgumentError);
    assert_eq!(block.ld_a_from_var_ind(&mut alloc, &raw8(B)), err);
    assert_eq!(block.ld_a_from_var_ind(&mut alloc, &raw8(A)), err);
    assert_eq!(block.ld_a_from_var_ind(&mut alloc, &raw16(RegisterPair::SP)), err);
    assert_eq!(code(&block).len(), 3);
}

#[test]
fn a_jump_tests_a_byte_against_zero() {
    let nz = |imm| Instruction::Jr(Condition::Flag(CpuFlag::NZ), imm);
    let (mut block, mut alloc) = fresh();
    alloc.registers.claim(B, Id::Unset);
    assert_eq!(block.jr_nz_var(&mut alloc, &raw8(B), -7), Ok(()));
    assert_eq!(code(&block), vec![Instruction::LdR8Imm(A, 0), Instruction::Cp(B), nz(-7)]);
    assert_eq!(block.encode(&mut alloc), Ok(vec![0x3e, 0x00, 0xb8, 0x20, 0xf9]));

    let (mut block, _) = fresh();
    alloc.registers.claim(A, Id::Unset);
    assert_eq!(block.jr_nz_var(&mut alloc, &raw8(A), 3), Ok(()));
    assert_eq!(code(&block), vec![Instruction::LdR8Imm(C, 0), Instruction::Cp(C), nz(3)]);

    let (mut block, _) = fresh();
    assert_eq!(block.jr_nz_var(&mut alloc, &raw8(B), 3), Ok(()));
    assert_eq!(
        code(&block),
        vec![Instruction::LdR8Imm(C, 0), ld(D, A), ld(A, B), Instruction::Cp(C), ld(A, D), nz(3)]
    );
    assert_eq!(alloc.registers.c, None);
    assert_eq!(alloc.registers.d, None);

    let (mut block, _) = fresh();
    take_all(&mut alloc);
    alloc.registers.l = None;
    assert_eq!(block.jr_nz_var(&mut alloc, &raw8(B), 3), Ok(()));
    assert_eq!(
        code(&block),
        vec![
            Instruction::LdR8Imm(L, 0),
            Instruction::Push(StackPair::AF),
            ld(A, B),
            Instruction::Cp(L),
            Instruction::Pop(StackPair::AF),
            nz(3),
        ]
    );
    take_all(&mut alloc);
    assert_eq!(
        block.jr_nz_var(&mut alloc, &raw8(B), 3),
        Err(AssemblerError::AllocError(ConstAllocError::OutOfRegisters))
    );
}

#[test]
fn a_jump_tests_a_pair_half_by_half() {
    let nz = |imm| Instruction::Jr(Condition::Flag(CpuFlag::NZ), imm);
    let (mut block, mut alloc) = fresh();
    assert_eq!(block.jr_nz_var(&mut alloc, &raw16(RegisterPair::DE), -20), Ok(()));
    assert_eq!(
        code(&block),
        vec![
            Instruction::LdR8Imm(A, 0),
            Instruction::Cp(D),
            nz(-20),
            Instruction::LdR8Imm(A, 0),
            Instruction::Cp(E),
            nz(-25),
        ]
    );
    let (mut block, _) = fresh();
    assert_eq!(
        block.jr_nz_var(&mut alloc, &raw16(RegisterPair::DE), -124),
        Err(AssemblerError::ArgumentError)
    );
    assert_eq!(code(&block), vec![Instruction::LdR8Imm(A, 0), Instruction::Cp(D), nz(-124)]);
    assert_eq!(
        block.jr_nz_var(&mut alloc, &raw16(RegisterPair::SP), 1),
        Err(AssemblerError::RegSplitError(SplitError::StackPointer))
    );
    assert_eq!(alloc.registers, GpRegisters::default());
}

#[test]
fn a_variable_gets_a_home_in_memory() {
    let (mut block, mut alloc) = fresh();
    let stored = block.store_var(&mut alloc, &raw8(B));
    assert_eq!(stored, Ok(MemoryVariable { addr: 0xc000, len: 1, id: Id::Unset }));
    let pair = Variable::Reg(RegVariable::Raw(RawRegVariable::R16 {
        reg_pair: RegisterPair::DE,
        id: Id::Assigned(3),
    }));
    alloc.registers.claim_pair(RegisterPair::DE, Id::Assigned(3));
    let stored = block.store_var(&mut alloc, &pair);
    assert_eq!(stored, Ok(MemoryVariable { addr: 0xc001, len: 2, id: Id::Assigned(3) }));
    assert_eq!(block.store_var(&mut alloc, &raw8(A)).unwrap().addr, 0xc003);
    assert_eq!(
        code(&block),
        vec![
            ld(A, B),
            Instruction::LdAToInd(0xc000),
            ld(A, E),
            Instruction::LdAToInd(0xc001),
            ld(A, D),
            Instruction::LdAToInd(0xc002),
            Instruction::LdAToInd(0xc003),
        ]
    );
    let kept = Variable::Reg(RegVariable::Raw(RawRegVariable::MemR16 {
        addr: 0xc800,
        reg_pair: RegisterPair::HL,
        id: Id::Assigned(4),
    }));
    assert_eq!(
        block.store_var(&mut alloc, &kept),
        Ok(MemoryVariable { addr: 0xc800, len: 2, id: Id::Assigned(4) })
    );
    assert_eq!(
        block.store_var(&mut alloc, &memory(0xc900, 5, 6)),
        Ok(MemoryVariable { addr: 0xc900, len: 5, id: Id::Assigned(6) })
    );
    let homeless = Variable::Unallocated { len: 1, id: Id::Assigned(7) };
    assert_eq!(
        block.store_var(&mut alloc, &homeless),
        Err(AssemblerError::EmitterError(EmitterError::UnallocatedVariable(homeless.as_raw())))
    );
    assert_eq!(
        block.store_var(&mut alloc, &raw16(RegisterPair::SP)),
        Err(AssemblerError::RegSplitError(SplitError::StackPointer))
    );
    alloc.variables.next = alloc.variables.len;
    assert_eq!(
        block.store_var(&mut alloc, &raw8(B)),
        Err(AssemblerError::AllocError(ConstAllocError::OutOfMemory))
    );
    assert_eq!(code(&block).len(), 7);
}

#[test]
fn placeholders_are_rewritten() {
    let (mut block, mut alloc) = fresh();
    let b = RawVariable::Reg(RawRegVariable::R8 { reg: B, id: Id::Unset });
    let c = RawVariable::Reg(RawRegVariable::R8 { reg: C, id: Id::Unset });
    let a = RawVariable::Reg(RawRegVariable::R8 { reg: A, id: Id::Unset });
    let hl = RawVariable::Reg(RawRegVariable::R16 { reg_pair: RegisterPair::HL, id: Id::Unset });
    let at = RawVariable::Memory(MemoryVariable { addr: 0xff41, len: 1, id: Id::Unset });
    block.inc_r8(D);
    block.meta(MetaInstruction::VarInc { var: b });
    block.meta(MetaInstruction::VarDec { var: hl });
    block.meta(MetaInstruction::VarSet { dest: b, src: VarOrConst::Var(c) });
    block.meta(MetaInstruction::VarSet { dest: hl, src: VarOrConst::Const(Constant::Inline16(7)) });
    block.meta(MetaInstruction::VarFromInd { dest: a, src: hl });
    block.meta(MetaInstruction::VarFromInd { dest: b, src: at });
    block.meta(MetaInstruction::VarToInd { dest: at, src: b });
    assert_eq!(block.evaluate_meta(&mut alloc), Ok(()));
    assert_eq!(
        code(&block),
        vec![
            Instruction::IncR8(D),
            Instruction::IncR8(B),
            Instruction::DecR16(RegisterPair::HL),
            ld(B, C),
            Instruction::LdR16Imm(RegisterPair::HL, 7),
            Instruction::LdAFromR16(IndirectPair::HLInc),
            Instruction::LdhToA(0x41),
            ld(B, A),
            ld(A, B),
            Instruction::LdhFromA(0x41),
        ]
    );
    block.meta(MetaInstruction::VarAdd { lhs: b, rhs: c });
    assert_eq!(block.evaluate_meta(&mut alloc), Err(AssemblerError::ArgumentError));
    assert_eq!(code(&block).len(), 11);
}

fn counted(inner: RawRegVariable) -> Variable {
    Variable::Reg(RegVariable::Rc(RcRegVariable { inner }))
}

#[test]
fn a_variable_that_lost_its_register_is_found_in_memory() {
    let (mut block, mut alloc) = fresh();
    let mut vars = Vec::new();
    for value in 1..=7u8 {
        vars.push(block.init_var8(&mut alloc, value).unwrap());
    }
    let addr = alloc.variables.allocate(1).unwrap();
    let eighth = block.load_var(&mut alloc, &memory(addr, 1, 7)).unwrap();
    let first = vars.remove(0);
    let stale = RawRegVariable::R8 { reg: A, id: Id::Assigned(0) };
    assert_eq!(first.as_raw(), RawVariable::Reg(stale));
    assert!(!alloc.registers.holds(&stale));
    assert!(alloc.registers.holds(&eighth.inner()));
    assert!(alloc.registers.holds(&RawRegVariable::R8 { reg: B, id: Id::Assigned(1) }));
    assert!(alloc.registers.holds(&RawRegVariable::UnallocatedR8(Id::Assigned(0))));

    // Giving the stale handle up, in any way, leaves the accumulator to the eighth.
    let held = alloc.clone();
    RcRegVariable { inner: stale }.drop(&mut alloc.registers);
    assert_eq!(alloc, held);
    let twin = RcRegVariable { inner: stale }.clone(&mut alloc.registers);
    assert_eq!(twin.inner, stale);
    assert_eq!(alloc, held);
    assert_eq!(twin.into_raw(&mut alloc.registers), stale);
    assert_eq!(alloc, held);
    assert_eq!(counted(stale).into_raw(&mut alloc.registers), RawVariable::Reg(stale));
    assert_eq!(alloc, held);
    assert_eq!(alloc.dealloc_var(counted(stale)), Ok(()));
    assert_eq!(alloc, held);
    assert_eq!(alloc.registers.a, Some((Id::Assigned(7), Some(1))));

    // Stepping it goes by its cell: room is made once more, now by the eighth.
    let before = code(&block).len();
    assert_eq!(block.dec_var(&mut alloc, &first), Ok(()));
    assert_eq!(
        code(&block)[before..],
        [Instruction::LdAToInd(0xc002), Instruction::LdAFromInd(0xc001), Instruction::DecR8(A)]
    );
    assert_eq!(
        alloc.spilled,
        vec![
            MemoryVariable { addr: 0xc001, len: 1, id: Id::Assigned(0) },
            MemoryVariable { addr: 0xc002, len: 1, id: Id::Assigned(7) },
        ]
    );
    assert_eq!(alloc.registers.a, None);
    assert!(!alloc.registers.holds(&eighth.inner()));

    let before = code(&block).len();
    assert_eq!(
        block.load_var(&mut alloc, &first),
        Ok(RegVariable::Rc(RcRegVariable {
            inner: RawRegVariable::MemR8 { addr: 0xc001, reg: A, id: Id::Assigned(0) }
        }))
    );
    assert_eq!(code(&block)[before..], [Instruction::LdAFromInd(0xc001)]);
    assert_eq!(
        block.store_var(&mut alloc, &counted(eighth.inner())),
        Ok(MemoryVariable { addr: 0xc002, len: 1, id: Id::Assigned(7) })
    );
}

#[test]
fn a_variable_that_is_lost_is_an_error() {
    let (mut block, mut alloc) = fresh();
    alloc.registers.claim(A, Id::Assigned(5));
    alloc.registers.claim_pair(RegisterPair::BC, Id::Assigned(6));
    alloc.spilled.push(MemoryVariable { addr: 0xc010, len: 2, id: Id::Assigned(3) });
    alloc.spilled.push(MemoryVariable { addr: 0xffff, len: 2, id: Id::Assigned(4) });
    let before = alloc.clone();
    let lost = AssemblerError::ArgumentError;
    let nowhere = counted(RawRegVariable::R8 { reg: A, id: Id::Assigned(9) });
    let short = counted(RawRegVariable::R8 { reg: A, id: Id::Assigned(3) });
    let outside = counted(RawRegVariable::R16 { reg_pair: RegisterPair::BC, id: Id::Assigned(4) });
    let half = counted(RawRegVariable::R16 { reg_pair: RegisterPair::HL, id: Id::Assigned(6) });
    for var in [&nowhere, &short, &outside, &half] {
        assert_eq!(block.load_var(&mut alloc, var), Err(lost.clone()));
        assert_eq!(block.store_var(&mut alloc, var), Err(lost.clone()));
        assert_eq!(block.ld_var_to_ind(&mut alloc, var, 0xc100), Err(lost.clone()));
        assert_eq!(block.ld_var_from_ind(&mut alloc, var, 0xc100), Err(lost.clone()));
        assert_eq!(block.dec_var(&mut alloc, var), Err(lost.clone()));
        assert_eq!(block.inc_var(&mut alloc, var), Err(lost.clone()));
        assert_eq!(block.ld_a_from_var_ind(&mut alloc, var), Err(lost.clone()));
        assert_eq!(block.jr_nz_var(&mut alloc, var, -2), Err(lost.clone()));
    }
    let mut dest = nowhere;
    let value = VarOrConst::Const(Constant::Inline8(1));
    assert_eq!(block.set_var(&mut alloc, &mut dest, &value), Err(lost.clone()));
    assert_eq!(dest, counted(RawRegVariable::R8 { reg: A, id: Id::Assigned(9) }));
    assert!(block.contents.is_empty());
    assert_eq!(alloc, before);

    // One that is where it says is used there.
    let here = counted(RawRegVariable::R16 { reg_pair: RegisterPair::BC, id: Id::Assigned(6) });
    assert_eq!(block.inc_var(&mut alloc, &here), Ok(()));
    assert_eq!(code(&block), vec![Instruction::IncR16(RegisterPair::BC)]);
    assert_eq!(alloc, before);
}

#[test]
fn a_variable_that_lost_its_register_is_set_in_a_new_one() {
    let (mut block, mut alloc) = fresh();
    alloc.registers.claim(A, Id::Assigned(5));
    alloc.spilled.push(MemoryVariable { addr: 0xc010, len: 1, id: Id::Assigned(3) });
    let mut var = counted(RawRegVariable::R8 { reg: A, id: Id::Assigned(3) });
    let value = VarOrConst::Const(Constant::Inline8(9));
    assert_eq!(block.set_var(&mut alloc, &mut var, &value), Ok(()));
    let inner = RawRegVariable::MemR8 { addr: 0xc010, reg: B, id: Id::Assigned(3) };
    assert_eq!(var, counted(inner));
    assert_eq!(code(&block), vec![Instruction::LdR8Imm(B, 9)]);
    assert_eq!(alloc.registers.a, Some((Id::Assigned(5), Some(1))));
    assert_eq!(alloc.registers.b, Some((Id::Assigned(3), Some(1))));
    assert!(alloc.registers.holds(&inner));
    assert_eq!(alloc.dealloc_var(var), Ok(()));
    assert_eq!(alloc.registers.b, None);
    assert_eq!(alloc.registers.a, Some((Id::Assigned(5), Some(1))));
}

#[test]
fn a_register_that_was_handed_out_by_itself_is_not_moved() {
    let (mut block, mut alloc) = fresh();
    let mut handles = Vec::new();
    for _ in 0..7 {
        handles.push(alloc.alloc_reg().unwrap());
    }
    assert!(handles[0].is_register(A));
    let before = alloc.clone();
    assert_eq!(
        block.load_var(&mut alloc, &memory(0xc800, 1, 1)),
        Err(AssemblerError::AllocError(ConstAllocError::OutOfRegisters))
    );
    assert_eq!(
        block.load_var(&mut alloc, &memory(0xc800, 2, 1)),
        Err(AssemblerError::AllocError(ConstAllocError::OutOfRegisters))
    );
    assert!(block.contents.is_empty());
    assert_eq!(alloc, before);

    // A pair of which one half is a variable's and the other is not stays too.
    alloc.registers.claim(B, Id::Assigned(4));
    let mixed = alloc.clone();
    assert_eq!(
        block.load_var(&mut alloc, &memory(0xc800, 2, 1)),
        Err(AssemblerError::AllocError(ConstAllocError::OutOfRegisters))
    );
    assert_eq!(alloc, mixed);
    // With both halves a variable's, or free, the pair is moved.
    alloc.registers.claim(C, Id::Assigned(5));
    assert!(block.load_var(&mut alloc, &memory(0xc800, 2, 1)).is_ok());
    assert_eq!(
        alloc.spilled,
        vec![
            MemoryVariable { addr: 0xc000, len: 1, id: Id::Assigned(5) },
            MemoryVariable { addr: 0xc001, len: 1, id: Id::Assigned(4) },
        ]
    );
}

#[test]
fn an_uncounted_variable_is_found_by_its_identifier() {
    let (mut block, mut alloc) = fresh();
    alloc.registers.claim(A, Id::Assigned(5));
    alloc.registers.claim(B, Id::Assigned(6));
    alloc.spilled.push(MemoryVariable { addr: 0xc010, len: 1, id: Id::Assigned(3) });
    let before = alloc.clone();
    let uncounted = |inner| Variable::Reg(RegVariable::Raw(inner));

    // Under no identifier a register is named itself, whoever holds it.
    assert_eq!(block.inc_var(&mut alloc, &raw8(A)), Ok(()));
    // Under the identifier of its holder too.
    let here = RawRegVariable::R8 { reg: B, id: Id::Assigned(6) };
    assert_eq!(block.inc_var(&mut alloc, &uncounted(here)), Ok(()));
    assert_eq!(code(&block), vec![Instruction::IncR8(A), Instruction::IncR8(B)]);
    assert_eq!(alloc, before);

    // Under another it is read in the memory that the variable was moved to.
    let moved = RawRegVariable::R8 { reg: A, id: Id::Assigned(3) };
    let start = code(&block).len();
    assert_eq!(block.ld_var_to_ind(&mut alloc, &uncounted(moved), 0xff47), Ok(()));
    assert_eq!(
        code(&block)[start..],
        [
            ld(C, A),
            Instruction::LdAFromInd(0xc010),
            ld(D, A),
            ld(A, C),
            Instruction::LdhFromA(0x47),
            ld(A, D),
        ]
    );
    assert_eq!(alloc, before);

    // One that mirrors memory and was not moved is read in that memory.
    let mirror = RawRegVariable::MemR8 { addr: 0xc020, reg: A, id: Id::Assigned(4) };
    let start = code(&block).len();
    assert_eq!(block.ld_var_to_ind(&mut alloc, &uncounted(mirror), 0xff47), Ok(()));
    assert_eq!(
        code(&block)[start..],
        [
            ld(C, A),
            Instruction::LdAFromInd(0xc020),
            ld(D, A),
            ld(A, C),
            Instruction::LdhFromA(0x47),
            ld(A, D),
        ]
    );
    let wide = RawRegVariable::MemR16 { addr: 0xffff, reg_pair: RegisterPair::BC, id: Id::Assigned(4) };
    assert_eq!(block.store_var(&mut alloc, &counted(wide)), Err(AssemblerError::ArgumentError));

    // Giving up what has gone to another changes nothing.
    assert_eq!(alloc.dealloc_var(uncounted(moved)), Ok(()));
    assert_eq!(alloc, before);
    assert_eq!(alloc.dealloc_var(uncounted(here)), Ok(()));
    assert_eq!(alloc.registers.b, None);
    assert_eq!(alloc.dealloc_var(raw8(A)), Ok(()));
    assert_eq!(alloc.registers, GpRegisters::default());
}

#[test]
fn the_source_of_an_assignment_is_found_too() {
    let (mut block, mut alloc) = fresh();
    alloc.registers.claim(A, Id::Assigned(5));
    alloc.spilled.push(MemoryVariable { addr: 0xc010, len: 1, id: Id::Assigned(3) });
    let before = alloc.clone();
    let mut dest = Variable::Unallocated { len: 1, id: Id::Assigned(8) };
    let lost = VarOrConst::Var(RawVariable::Reg(RawRegVariable::R8 { reg: A, id: Id::Assigned(9) }));
    assert_eq!(block.set_var(&mut alloc, &mut dest, &lost), Err(AssemblerError::ArgumentError));
    assert_eq!(dest, Variable::Unallocated { len: 1, id: Id::Assigned(8) });
    assert!(block.contents.is_empty());
    assert_eq!(alloc, before);

    let moved = VarOrConst::Var(RawVariable::Reg(RawRegVariable::R8 { reg: A, id: Id::Assigned(3) }));
    assert_eq!(block.set_var(&mut alloc, &mut dest, &moved), Ok(()));
    assert_eq!(dest, counted(RawRegVariable::R8 { reg: B, id: Id::Assigned(8) }));
    assert_eq!(code(&block), vec![ld(C, A), Instruction::LdAFromInd(0xc010), ld(B, C)]);
    assert_eq!(alloc.registers.b, Some((Id::Assigned(8), Some(1))));
    assert_eq!(alloc.registers.c, None);

    let held = VarOrConst::Var(RawVariable::Reg(RawRegVariable::R8 { reg: A, id: Id::Assigned(5) }));
    let start = code(&block).len();
    assert_eq!(block.set_var(&mut alloc, &mut dest, &held), Ok(()));
    assert_eq!(code(&block)[start..], [ld(B, A)]);
}
