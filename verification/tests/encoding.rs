use gleeby::codegen::block::raw_block::RawBlock;
use gleeby::codegen::block::EmitterError;
use gleeby::codegen::meta_instr::{MetaInstruction, MetaInstructionTrait, VarOrConst};
use gleeby::codegen::variables::{Constant, Id, RawRegVariable, RawVariable};
use gleeby::codegen::allocator::RcRegVariable;
use gleeby::codegen::variables::{MemoryVariable, RegSelector, RegVariable, Variable};
use gleeby::codegen::{Assembler, AssemblerError, IndirectArg, R16Arg, R8Arg, StackArg};
use gleeby::cpu::instructions::{
    byte_offset, offset_byte, word, Bit, Condition, Instruction, PrefixInstruction,
};
use gleeby::cpu::{
    CpuFlag, GpRegister, IndirectPair, RegConversionError, RegisterPair, SplitError, StackPair,
};
use gleeby::memory::{high_byte, low_byte, IoReg};

fn every_family() -> Vec<(Instruction, Vec<u8>)> {
    vec![
        (Instruction::LdR16Imm(RegisterPair::HL, 0x1234), vec![0x21, 0x34, 0x12]),
        (Instruction::LdR16Imm(RegisterPair::SP, 0xfffe), vec![0x31, 0xfe, 0xff]),
        (Instruction::LdAFromR16(IndirectPair::HLInc), vec![0x22]),
        (Instruction::LdAFromR16(IndirectPair::BC), vec![0x02]),
        (Instruction::IncR16(RegisterPair::DE), vec![0x13]),
        (Instruction::IncR8(GpRegister::C), vec![0x0c]),
        (Instruction::IncR8(GpRegister::B), vec![0x04]),
        (Instruction::DecR8(GpRegister::C), vec![0x0d]),
        (Instruction::DecR8(GpRegister::A), vec![0x3d]),
        (Instruction::LdR8Imm(GpRegister::A, 0x80), vec![0x3e, 0x80]),
        (Instruction::LdR8Imm(GpRegister::IndHL, 0x01), vec![0x36, 0x01]),
        (Instruction::DecR16(RegisterPair::DE), vec![0x1b]),
        (Instruction::DecR16(RegisterPair::BC), vec![0x0b]),
        (Instruction::LdAToR16(IndirectPair::BC), vec![0x0a]),
        (Instruction::LdAToR16(IndirectPair::HLDec), vec![0x3a]),
        (Instruction::Jr(Condition::Always, -2), vec![0x18, 0xfe]),
        (Instruction::Jr(Condition::Flag(CpuFlag::NZ), -4), vec![0x20, 0xfc]),
        (Instruction::Jr(Condition::Flag(CpuFlag::Z), 5), vec![0x28, 0x05]),
        (Instruction::Jr(Condition::Flag(CpuFlag::C), -128), vec![0x38, 0x80]),
        (Instruction::LdR8FromR8(GpRegister::B, GpRegister::C), vec![0x41]),
        (Instruction::LdR8FromR8(GpRegister::A, GpRegister::IndHL), vec![0x7e]),
        (Instruction::LdR8FromR8(GpRegister::IndHL, GpRegister::A), vec![0x77]),
        (Instruction::Cp(GpRegister::B), vec![0xb8]),
        (Instruction::Cp(GpRegister::A), vec![0xbf]),
        (Instruction::Pop(StackPair::BC), vec![0xc1]),
        (Instruction::Pop(StackPair::AF), vec![0xf1]),
        (Instruction::Jp(Condition::Always, 0x0150), vec![0xc3, 0x50, 0x01]),
        (Instruction::Jp(Condition::Flag(CpuFlag::NC), 0x1234), vec![0xd2, 0x34, 0x12]),
        (Instruction::Jp(Condition::Flag(CpuFlag::NZ), 0x4000), vec![0xc2, 0x00, 0x40]),
        (Instruction::Push(StackPair::AF), vec![0xf5]),
        (Instruction::Push(StackPair::HL), vec![0xe5]),
        (Instruction::Prefixed(PrefixInstruction::Bit(Bit::_3, GpRegister::D)), vec![0xcb, 0x5a]),
        (Instruction::Prefixed(PrefixInstruction::Res(Bit::_7, GpRegister::A)), vec![0xcb, 0xbf]),
        (Instruction::Prefixed(PrefixInstruction::SetBit(Bit::_0, GpRegister::B)), vec![0xcb, 0xc0]),
        (Instruction::LdhFromA(0x40), vec![0xe0, 0x40]),
        (Instruction::LdhFromAWithC, vec![0xe2]),
        (Instruction::LdAToInd(0xc000), vec![0xea, 0x00, 0xc0]),
        (Instruction::LdhToA(0x40), vec![0xf0, 0x40]),
        (Instruction::LdhToAWithC, vec![0xf2]),
        (Instruction::LdAFromInd(0xc001), vec![0xfa, 0x01, 0xc0]),
    ]
}

#[test]
fn every_family_is_encoded_bit_exactly() {
    for (instruction, bytes) in every_family() {
        assert_eq!(instruction.encode(), Ok(bytes), "{:?}", instruction);
    }
}

#[test]
fn encoded_length_is_the_length_of_the_family() {
    let mut total = 0;
    let mut stream = Vec::new();
    for (instruction, bytes) in every_family() {
        assert_eq!(instruction.len(), bytes.len(), "{:?}", instruction);
        total += instruction.len();
        stream.push(instruction);
    }
    let block = RawBlock(stream);
    assert_eq!(block.len(), total);
    assert_eq!(block.encode().unwrap().len(), total);
    assert_eq!(Instruction::Label(Id::Unset).len(), 0);
}

#[test]
fn every_instruction_is_read_back_from_its_bytes() {
    for (instruction, bytes) in every_family() {
        assert_eq!(Instruction::decode(&bytes), Some(instruction));
        let encoded = instruction.encode().unwrap();
        assert_eq!(Instruction::decode(&encoded), Some(instruction));
    }
}

#[test]
fn every_byte_of_one_is_read_back_or_is_no_instruction() {
    for op in 0..=255u8 {
        match Instruction::decode(&[op]) {
            Some(instruction) => assert_eq!(instruction.encode(), Ok(vec![op])),
            None => {}
        }
        for operand in [0u8, 0x3f, 0x40, 0x80, 0xff] {
            match Instruction::decode(&[op, operand]) {
                Some(instruction) => assert_eq!(instruction.encode(), Ok(vec![op, operand])),
                None => {}
            }
            match Instruction::decode(&[op, operand, 0x12]) {
                Some(instruction) => {
                    assert_eq!(instruction.encode(), Ok(vec![op, operand, 0x12]))
                }
                None => {}
            }
        }
    }
}

#[test]
fn what_is_no_encoding_is_not_decoded() {
    assert_eq!(Instruction::decode(&[]), None);
    assert_eq!(Instruction::decode(&[0x76]), None);
    assert_eq!(Instruction::decode(&[0xd3]), None);
    assert_eq!(Instruction::decode(&[0xe3]), None);
    assert_eq!(Instruction::decode(&[0x00]), None);
    assert_eq!(Instruction::decode(&[0x21]), None);
    assert_eq!(Instruction::decode(&[0x21, 0x34]), None);
    assert_eq!(Instruction::decode(&[0xcb, 0x3f]), None);
    assert_eq!(Instruction::decode(&[0x04, 0x00]), None);
    assert_eq!(Instruction::decode(&[0xc3, 0x50, 0x01, 0x00]), None);
}

#[test]
fn what_cannot_be_written_out_fails() {
    let var = RawVariable::Unallocated { len: 1, id: Id::Assigned(4) };
    let meta = MetaInstruction::VarInc { var };
    assert_eq!(
        Instruction::Meta(meta).encode(),
        Err(AssemblerError::EmitterError(EmitterError::UnallocatedVariable(var)))
    );
    assert_eq!(
        Instruction::Label(Id::Assigned(3)).encode(),
        Err(AssemblerError::EmitterError(EmitterError::UnresolvedLabel(Id::Assigned(3))))
    );
    assert_eq!(
        Instruction::LdR8FromR8(GpRegister::IndHL, GpRegister::IndHL).encode(),
        Err(AssemblerError::ArgumentError)
    );
}

#[test]
fn a_placeholder_is_reported_under_its_operand_without_a_home() {
    let homeless = RawVariable::Reg(RawRegVariable::UnallocatedR8(Id::Assigned(1)));
    let housed = RawVariable::Reg(RawRegVariable::R8 { reg: GpRegister::B, id: Id::Assigned(2) });
    let set = MetaInstruction::set_var(housed, VarOrConst::Var(homeless));
    assert_eq!(set, MetaInstruction::VarSet { dest: housed, src: VarOrConst::Var(homeless) });
    assert_eq!(set.subject(), homeless);
    assert_eq!(MetaInstruction::set_var(housed, VarOrConst::Var(housed)).subject(), housed);
    assert_eq!(
        MetaInstruction::set_var(housed, VarOrConst::Const(Constant::Inline8(1))).subject(),
        housed
    );
    assert_eq!(MetaInstruction::var_from_ind(housed, homeless).subject(), homeless);
    assert_eq!(MetaInstruction::var_to_ind(homeless, housed).subject(), homeless);
    assert_eq!(MetaInstruction::add_var(housed, homeless).subject(), homeless);
    assert_eq!(MetaInstruction::sub_var(housed, housed).subject(), housed);
    assert_eq!(MetaInstruction::inc_var(homeless), MetaInstruction::VarInc { var: homeless });
    assert_eq!(MetaInstruction::dec_var(housed).subject(), housed);
}

#[test]
fn a_raw_block_collects_every_error() {
    let var = RawVariable::Unallocated { len: 2, id: Id::Assigned(0) };
    let block = RawBlock(vec![
        Instruction::IncR8(GpRegister::B),
        Instruction::Meta(MetaInstruction::VarDec { var }),
        Instruction::Label(Id::Assigned(9)),
        Instruction::DecR8(GpRegister::B),
    ]);
    assert_eq!(
        block.encode(),
        Err(vec![
            AssemblerError::EmitterError(EmitterError::UnallocatedVariable(var)),
            AssemblerError::EmitterError(EmitterError::UnresolvedLabel(Id::Assigned(9))),
        ])
    );
    let (bytes, errors) = RawBlock::encode_code(&block.0);
    assert_eq!(bytes, vec![0x04, 0x05]);
    assert_eq!(errors.len(), 2);
}

#[test]
fn a_raw_block_takes_instructions() {
    let mut block = RawBlock::default();
    block.push_instruction(Instruction::IncR8(GpRegister::B));
    block.push_buf(&[Instruction::LdhToA(0x40), Instruction::LdhFromA(0x41)]);
    block.ld_r8_imm(GpRegister::C, 7).jr(Condition::Always, -2);
    assert_eq!(block.len(), 9);
    assert_eq!(block.encode(), Ok(vec![0x04, 0xf0, 0x40, 0xe0, 0x41, 0x0e, 0x07, 0x18, 0xfe]));
}

#[test]
fn bytes_of_offsets_and_addresses() {
    assert_eq!(offset_byte(-4), 0xfc);
    assert_eq!(offset_byte(-128), 0x80);
    assert_eq!(offset_byte(127), 0x7f);
    assert_eq!(offset_byte(0), 0);
    assert_eq!(byte_offset(0x80), -128);
    assert_eq!(byte_offset(0xff), -1);
    assert_eq!(byte_offset(0x7f), 127);
    assert_eq!(low_byte(0x1234), 0x34);
    assert_eq!(high_byte(0x1234), 0x12);
    assert_eq!(word(0x34, 0x12), 0x1234);
    assert_eq!(IoReg::Lcdc.addr(), 0xff40);
    assert_eq!(IoReg::Bcps.addr(), 0xff68);
    assert_eq!(IoReg::Bcpd.addr(), 0xff69);
    assert_eq!(IoReg::Lcdc.offset(), 0x40);
    assert_eq!(IoReg::Bcpd.offset(), 0x69);
}

#[test]
fn registers_and_pairs() {
    assert_eq!(RegisterPair::BC.try_split(), Ok((GpRegister::B, GpRegister::C)));
    assert_eq!(RegisterPair::DE.try_split(), Ok((GpRegister::D, GpRegister::E)));
    assert_eq!(RegisterPair::HL.try_split(), Ok((GpRegister::H, GpRegister::L)));
    assert_eq!(RegisterPair::SP.try_split(), Err(SplitError::StackPointer));
    assert_eq!(IndirectPair::try_from(RegisterPair::HL), Ok(IndirectPair::HLInc));
    assert_eq!(IndirectPair::try_from(RegisterPair::BC), Ok(IndirectPair::BC));
    assert_eq!(
        IndirectPair::try_from(RegisterPair::SP),
        Err(RegConversionError::NotIndirect)
    );
    assert_eq!(GpRegister::A.code(), 7);
    assert_eq!(GpRegister::IndHL.code(), 6);
    assert_eq!(GpRegister::from_code(5), Some(GpRegister::L));
    assert_eq!(GpRegister::from_code(8), None);
    assert_eq!(RegisterPair::SP.code(), 3);
    assert_eq!(StackPair::AF.code(), 3);
    assert_eq!(StackPair::from_code(4), None);
    assert_eq!(CpuFlag::C.code(), 3);
    assert_eq!(CpuFlag::from_code(1), Some(CpuFlag::Z));
    assert_eq!(IndirectPair::HLDec.code(), 3);
    assert_eq!(Bit::_6.code(), 6);
    assert_eq!(Bit::from_code(8), None);
    assert_eq!(PrefixInstruction::from_byte(0x3f), None);
    assert_eq!(
        PrefixInstruction::from_byte(0xbf),
        Some(PrefixInstruction::Res(Bit::_7, GpRegister::A))
    );
    assert_eq!(PrefixInstruction::Bit(Bit::_3, GpRegister::D).base(), 0x40);
    assert_eq!(Instruction::Jr(Condition::Always, 0).base(), 0x18);
    assert_eq!(Instruction::Jr(Condition::Flag(CpuFlag::Z), 0).base(), 0x20);
    assert_eq!(Instruction::Label(Id::Unset).base(), 0xd3);
}

#[test]
fn values_are_wrapped_as_they_are() {
    assert_eq!(
        AssemblerError::from(RegConversionError::NotIndirect),
        AssemblerError::ConversionError(RegConversionError::NotIndirect)
    );
    let label = EmitterError::UnresolvedLabel(Id::Unset);
    assert_eq!(AssemblerError::from(label), AssemblerError::EmitterError(label));
    assert_eq!(Condition::from(CpuFlag::NZ), Condition::Flag(CpuFlag::NZ));
    let res = PrefixInstruction::Res(Bit::_1, GpRegister::C);
    assert_eq!(Instruction::from(res), Instruction::Prefixed(res));
    assert_eq!(Instruction::from(res).encode(), Ok(vec![0xcb, 0x89]));
    assert_eq!(R8Arg::from(GpRegister::B), R8Arg::GpRegister(GpRegister::B));
    assert_eq!(R16Arg::from(RegisterPair::DE), R16Arg::RegisterPair(RegisterPair::DE));
    assert_eq!(
        IndirectArg::from(IndirectPair::HLInc),
        IndirectArg::IndirectPair(IndirectPair::HLInc)
    );
    assert_eq!(StackArg::from(StackPair::AF), StackArg::StackPair(StackPair::AF));
    assert_eq!(RegSelector::from(GpRegister::B), RegSelector::R8(GpRegister::B));
    assert_eq!(RegSelector::from(RegisterPair::HL), RegSelector::R16(RegisterPair::HL));
    let b = RawRegVariable::from(GpRegister::B);
    assert_eq!(b, RawRegVariable::R8 { reg: GpRegister::B, id: Id::Unset });
    let hl = RawRegVariable::from(RegisterPair::HL);
    assert_eq!(hl, RawRegVariable::R16 { reg_pair: RegisterPair::HL, id: Id::Unset });
    assert_eq!(b.selector(), Some(RegSelector::R8(GpRegister::B)));
    assert_eq!(RawRegVariable::UnallocatedR16(Id::Unset).selector(), None);
    assert_eq!(hl.len(), 2);
    assert_eq!(RegVariable::from(b), RegVariable::Raw(b));
    assert_eq!(RegVariable::from(RcRegVariable { inner: hl }).inner(), hl);
    assert_eq!(Variable::from(RegVariable::from(hl)).as_raw(), RawVariable::from(hl));
    let cell = MemoryVariable { addr: 0xc000, len: 2, id: Id::Assigned(1) };
    assert_eq!(Variable::from(cell).as_raw(), RawVariable::from(cell));
    assert_eq!(Variable::from(RawVariable::Reg(b)), Variable::Reg(RegVariable::Raw(b)));
    assert!(RawVariable::from(cell).is_wf());
    let beyond = MemoryVariable { addr: 0xffff, len: 2, id: Id::Unset };
    assert!(!RawVariable::from(beyond).is_wf());
    assert_eq!(RawVariable::from(beyond).len(), 2);
    assert!(RawVariable::Unallocated { len: 1, id: Id::Unset }.is_unallocated());
    assert!(!RawVariable::Reg(b).is_unallocated());
}

#[test]
fn numbers_of_registers_of_the_picture_unit_and_of_the_second_page() {
    assert_eq!(u8::from(IoReg::Bcps), 0x68);
    assert_eq!(u8::from(PrefixInstruction::SetBit(Bit::_7, GpRegister::A)), 0xff);
    let condition: Condition = CpuFlag::Z.into();
    assert_eq!(condition, Condition::Flag(CpuFlag::Z));
    let pointer: Result<IndirectPair, RegConversionError> = RegisterPair::DE.try_into();
    assert_eq!(pointer, Ok(IndirectPair::DE));
    let error: AssemblerError = SplitError::StackPointer.into();
    assert_eq!(error, AssemblerError::RegSplitError(SplitError::StackPointer));
}
