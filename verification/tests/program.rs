use gleeby::codegen::allocator::{ConstAllocError, ConstAllocator, GpRegisters};
use gleeby::codegen::block::{BlockTrait, EmitterError};
use gleeby::codegen::variables::{
    Constant, Id, RawRegVariable, RawVariable, StoredConstant, Variable, Variabler,
};
use gleeby::codegen::{
    Assembler, AssemblerError, BasicBlock, Block, BlockAssembler, LoopBlock, LoopCondition,
    MacroAssembler,
};
use gleeby::codegen::assembler::{AsBuf, Context, ErrorTrait};
use gleeby::cpu::instructions::{Bit, Condition, Instruction};
use gleeby::cpu::{CpuFlag, GpRegister, RegisterPair};
use gleeby::memory::IoReg;
use gleeby::ppu::palettes::{CgbPalette, Color};
use gleeby::ppu::tiles::{Tile, Tilemap};
use gleeby::ppu::{TiledataSelector, TilemapSelector};
use gleeby::Cgb;

const FLAG: (u64, [u8; 1]) = (0x143, [0x80]);
const ENTRY: (u64, [u8; 3]) = (0x100, [0xc3, 0x50, 0x01]);

fn check_header(image: &[(u64, Vec<u8>)]) {
    assert_eq!(image[0], (FLAG.0, FLAG.1.to_vec()));
    assert_eq!(image[1], (ENTRY.0, ENTRY.1.to_vec()));
    assert_eq!(image[image.len() - 1].0, 0x150);
}

fn counter(reg: GpRegister, id: Id) -> RawVariable {
    RawVariable::Reg(RawRegVariable::R8 { reg, id })
}

#[test]
fn an_empty_program_is_the_header_alone() {
    let image = Cgb::new().image().unwrap();
    assert_eq!(
        image,
        vec![(0x143, vec![0x80]), (0x100, vec![0xc3, 0x50, 0x01]), (0x150, vec![])]
    );
}

#[test]
fn a_new_generator_has_its_arenas_in_place() {
    let sys = Cgb::new();
    assert_eq!(sys.allocator().constants.offset, 0x0800);
    assert_eq!(sys.allocator().constants.len, 0x0800);
    assert_eq!(sys.allocator().variables.offset, 0xc000);
    assert_eq!(sys.allocator().variables.len, 0x1000);
    assert_eq!(sys.allocator().registers, GpRegisters::default());
    assert!(sys.root().contents.is_empty());
    assert_eq!(sys.len(), 0);
    assert_eq!(sys.next_id(), 0);
}

#[test]
fn the_display_is_switched_off() {
    let mut sys = Cgb::new();
    sys.disable_lcd_now();
    assert_eq!(sys.allocator().registers, GpRegisters::default());
    assert_eq!(sys.len(), 6);
    let image = sys.image().unwrap();
    check_header(&image);
    assert_eq!(image.len(), 3);
    assert_eq!(image[2], (0x150, vec![0xf0, 0x40, 0xcb, 0xbf, 0xe0, 0x40]));
}

#[test]
fn the_display_is_switched_on() {
    let mut sys = Cgb::new();
    sys.enable_lcd_now();
    sys.jr(Condition::Always, -2);
    assert_eq!(sys.encode(), Ok(vec![0xf0, 0x40, 0xcb, 0xff, 0xe0, 0x40, 0x18, 0xfe]));
    assert_eq!(sys.root().contents.len(), 2);
}

#[test]
fn a_palette_is_written() {
    let mut sys = Cgb::new();
    let colors = [Color::black(), Color::red() | Color::green(), Color::green(), Color::blue()];
    assert_eq!(sys.set_palette(CgbPalette::_0, colors), Ok(()));
    assert_eq!(sys.allocator().registers, GpRegisters::default());
    assert_eq!(sys.allocator().constants.next, 8);
    let stored = StoredConstant { id: Id::Assigned(0), addr: 0x0800, len: 8 };
    assert_eq!(
        sys.root().consts,
        vec![(stored, vec![0x00, 0x00, 0xff, 0x03, 0xe0, 0x03, 0x00, 0x7c])]
    );
    match &sys.root().contents[0] {
        Block::Basic(block) => {
            assert_eq!(block.contents.len(), 2);
            match &block.contents[1] {
                Block::Loop(inner) => assert_eq!(
                    inner.condition,
                    LoopCondition::Countdown {
                        counter: counter(GpRegister::B, Id::Assigned(0)),
                        end: 0,
                    }
                ),
                other => panic!("no loop: {:?}", other),
            }
        }
        other => panic!("no block: {:?}", other),
    }
    let image = sys.image().unwrap();
    check_header(&image);
    assert_eq!(image.len(), 4);
    assert_eq!(image[2], (0x0800, vec![0x00, 0x00, 0xff, 0x03, 0xe0, 0x03, 0x00, 0x7c]));
    assert_eq!(
        image[3].1,
        vec![
            0x21, 0x00, 0x08, // ld hl, $0800
            0x3e, 0x80, // ld a, $80
            0xe0, 0x68, // ldh [$ff68], a
            0x06, 0x08, // ld b, 8
            0x22, // the byte under hl, hl moves on
            0xe0, 0x69, // ldh [$ff69], a
            0x05, // dec b
            0x20, 0xfa, // jr nz, -6
        ]
    );
}

#[test]
fn a_palette_needs_memory_and_a_counter() {
    let mut block = BasicBlock::new();
    let mut alloc = ConstAllocator::default();
    alloc.constants.next = alloc.constants.len - 7;
    let colors = [Color::white(); 4];
    let before = alloc.clone();
    assert_eq!(
        block.set_palette(&mut alloc, CgbPalette::_1, colors),
        Err(AssemblerError::AllocError(ConstAllocError::OutOfMemory))
    );
    alloc.constants.next = 0;
    for reg in [GpRegister::B, GpRegister::C, GpRegister::D, GpRegister::E] {
        alloc.registers.claim(reg, Id::Unset);
    }
    let taken = alloc.clone();
    assert_eq!(
        block.set_palette(&mut alloc, CgbPalette::_1, colors),
        Err(AssemblerError::AllocError(ConstAllocError::OutOfRegisters))
    );
    assert_eq!(alloc, taken);
    assert_ne!(alloc, before);
    assert!(block.contents.is_empty());
    assert!(block.consts.is_empty());
    assert_eq!(block.next_id(), 0);
}

#[test]
fn a_loop_counts_down_to_zero() {
    let mut sys = Cgb::new();
    let var = sys.init_var8(3).unwrap();
    let condition = LoopCondition::Countdown { counter: var.as_raw(), end: 0 };
    sys.loop_block(condition).inc_r8(GpRegister::B);
    assert_eq!(sys.len(), 3);
    assert_eq!(sys.encode(), Ok(vec![0x3e, 0x03, 0x04, 0x3d, 0x20, 0xfc]));
}

#[test]
fn a_loop_jumps_back_over_body_and_tail() {
    let mut alloc = ConstAllocator::default();
    let mut block = LoopBlock::new_native(Condition::Flag(CpuFlag::C), BasicBlock::new());
    block.inc_r8(GpRegister::B).ldh_to_a(0x44);
    assert_eq!(block.encode(&mut alloc), Ok(vec![0x04, 0xf0, 0x44, 0x38, 0xfb]));

    let up = LoopCondition::Countup { counter: counter(GpRegister::D, Id::Unset), end: 0 };
    let mut block = LoopBlock::new(up, BasicBlock::new());
    block.ld_r16_imm(RegisterPair::HL, 0x9800);
    assert_eq!(block.encode(&mut alloc), Ok(vec![0x21, 0x00, 0x98, 0x14, 0x20, 0xfa]));

    let mut outer = LoopBlock::new_native(Condition::Always, BasicBlock::new());
    outer.inc_r8(GpRegister::B);
    outer.loop_block(LoopCondition::Native(Condition::Flag(CpuFlag::NZ))).dec_r8(GpRegister::C);
    outer.dec_r8(GpRegister::B);
    assert_eq!(outer.len(), 3);
    assert_eq!(outer.encode(&mut alloc), Ok(vec![0x04, 0x0d, 0x20, 0xfd, 0x05, 0x18, 0xf9]));
}

#[test]
fn a_loop_that_is_too_long_is_rejected() {
    let mut alloc = ConstAllocator::default();
    let mut fits = LoopBlock::new_native(Condition::Always, BasicBlock::new());
    for _ in 0..126 {
        fits.inc_r8(GpRegister::B);
    }
    let bytes = fits.encode(&mut alloc).unwrap();
    assert_eq!(bytes.len(), 128);
    assert_eq!(bytes[126..], [0x18, 0x80]);
    fits.inc_r8(GpRegister::B);
    assert_eq!(fits.encode(&mut alloc), Err(vec![AssemblerError::LoopTooBig]));

    let down = LoopCondition::Countdown { counter: counter(GpRegister::C, Id::Unset), end: 0 };
    let mut counted = LoopBlock::new(down, BasicBlock::new());
    for _ in 0..125 {
        counted.inc_r8(GpRegister::B);
    }
    let bytes = counted.encode(&mut alloc).unwrap();
    assert_eq!(bytes.len(), 128);
    assert_eq!(bytes[125..], [0x0d, 0x20, 0x80]);
    counted.inc_r8(GpRegister::B);
    assert_eq!(counted.encode(&mut alloc), Err(vec![AssemblerError::LoopTooBig]));
}

#[test]
fn a_loop_rejects_what_it_cannot_count() {
    let mut alloc = ConstAllocator::default();
    let to_five = LoopCondition::Countdown { counter: counter(GpRegister::C, Id::Unset), end: 5 };
    let block = LoopBlock::new(to_five, BasicBlock::new());
    assert_eq!(block.encode(&mut alloc), Err(vec![AssemblerError::ArgumentError]));
    let wide = RawVariable::Reg(RawRegVariable::R16 { reg_pair: RegisterPair::DE, id: Id::Unset });
    let block = LoopBlock::new(LoopCondition::Countdown { counter: wide, end: 0 }, BasicBlock::new());
    assert_eq!(block.encode(&mut alloc), Err(vec![AssemblerError::ArgumentError]));
    let to_nine = LoopCondition::Countup { counter: counter(GpRegister::D, Id::Unset), end: 9 };
    let mut block = LoopBlock::new(to_nine, BasicBlock::new());
    block.ld_r16_imm(RegisterPair::HL, 0x9800);
    assert_eq!(block.encode(&mut alloc), Err(vec![AssemblerError::ArgumentError]));
    let wide = RawVariable::Reg(RawRegVariable::R16 { reg_pair: RegisterPair::HL, id: Id::Unset });
    let mut block = LoopBlock::new(LoopCondition::Countup { counter: wide, end: 0 }, BasicBlock::new());
    block.inc_r8(GpRegister::B);
    assert_eq!(block.encode(&mut alloc), Err(vec![AssemblerError::ArgumentError]));
    assert_eq!(alloc, ConstAllocator::default());
    let homeless = RawVariable::Unallocated { len: 1, id: Id::Assigned(1) };
    let block =
        LoopBlock::new(LoopCondition::Countdown { counter: homeless, end: 0 }, BasicBlock::new());
    let raw = RawVariable::Reg(RawRegVariable::UnallocatedR8(Id::Assigned(1)));
    assert_eq!(
        block.encode(&mut alloc),
        Err(vec![AssemblerError::EmitterError(EmitterError::UnallocatedVariable(raw))])
    );
    let mut broken = LoopBlock::new_native(Condition::Always, BasicBlock::new());
    broken.push_instruction(Instruction::Label(Id::Assigned(2)));
    assert_eq!(
        broken.encode(&mut alloc),
        Err(vec![AssemblerError::EmitterError(EmitterError::UnresolvedLabel(Id::Assigned(2)))])
    );
}

#[test]
fn errors_of_all_blocks_are_collected() {
    let mut alloc = ConstAllocator::default();
    let mut block = BasicBlock::new();
    block.push_instruction(Instruction::Label(Id::Assigned(1)));
    block.basic_block().push_instruction(Instruction::Label(Id::Assigned(2)));
    block.loop_block(LoopCondition::Countdown { counter: counter(GpRegister::B, Id::Unset), end: 1 });
    block.push_instruction(Instruction::LdR8FromR8(GpRegister::IndHL, GpRegister::IndHL));
    assert_eq!(
        block.encode(&mut alloc),
        Err(vec![
            AssemblerError::EmitterError(EmitterError::UnresolvedLabel(Id::Assigned(1))),
            AssemblerError::EmitterError(EmitterError::UnresolvedLabel(Id::Assigned(2))),
            AssemblerError::ArgumentError,
            AssemblerError::ArgumentError,
        ])
    );
    let image = {
        let mut sys = Cgb::new();
        sys.push_instruction(Instruction::Label(Id::Unset));
        sys.image()
    };
    assert_eq!(
        image,
        Err(vec![AssemblerError::EmitterError(EmitterError::UnresolvedLabel(Id::Unset))])
    );
}

#[test]
fn instructions_go_to_the_last_raw_block() {
    let mut block = BasicBlock::new();
    block.push_buf(&[]);
    assert_eq!(block.contents.len(), 1);
    block.inc_r8(GpRegister::B).dec_r8(GpRegister::B);
    assert_eq!(block.contents.len(), 1);
    block.basic_block().inc_r16(RegisterPair::DE);
    block.push_buf(&[Instruction::IncR8(GpRegister::C), Instruction::DecR8(GpRegister::C)]);
    block.bit(GpRegister::D, Bit::_3).set(GpRegister::D, Bit::_0).res(GpRegister::D, Bit::_1);
    assert_eq!(block.contents.len(), 3);
    assert_eq!(block.len(), 11);
    assert_eq!(block.contents().len(), 3);
    assert_eq!(block.ok(), Ok(()));
    block.contents_mut().pop();
    assert_eq!(block.len(), 3);
    match &mut block.contents[1] {
        inner @ Block::Basic(_) => {
            inner.push_instruction(Instruction::DecR16(RegisterPair::DE));
            inner.push_buf(&[Instruction::Cp(GpRegister::B)]);
            assert_eq!(inner.len(), 3);
        }
        other => panic!("no block: {:?}", other),
    }
    let mut alloc = ConstAllocator::default();
    assert_eq!(block.encode(&mut alloc), Ok(vec![0x04, 0x05, 0x13, 0x1b, 0xb8]));
    assert_eq!(block.contents[0].encode(&mut alloc), Ok(vec![0x04, 0x05]));
}

#[test]
fn every_wrapper_emits_its_instruction() {
    let mut block = BasicBlock::new();
    block
        .ld_r16_imm(RegisterPair::BC, 1)
        .ld_a_from_r16(gleeby::cpu::IndirectPair::DE)
        .inc_r16(RegisterPair::BC)
        .inc_r8(GpRegister::A)
        .dec_r8(GpRegister::A)
        .ld_r8_imm(GpRegister::L, 2)
        .dec_r16(RegisterPair::HL)
        .ld_a_to_r16(gleeby::cpu::IndirectPair::HLDec)
        .jr(Condition::Flag(CpuFlag::NC), 3)
        .ld_r8_from_r8(GpRegister::H, GpRegister::L)
        .cp(GpRegister::E)
        .pop(gleeby::cpu::StackPair::DE)
        .jp(Condition::Always, 0x0150)
        .push(gleeby::cpu::StackPair::DE)
        .ldh_from_a(4)
        .ldh_from_a_with_c()
        .ld_a_to_ind(0xc000)
        .ldh_to_a(5)
        .ldh_to_a_with_c()
        .ld_a_from_ind(0xc001);
    let mut alloc = ConstAllocator::default();
    assert_eq!(
        block.encode(&mut alloc),
        Ok(vec![
            0x01, 0x01, 0x00, 0x12, 0x03, 0x3c, 0x3d, 0x2e, 0x02, 0x2b, 0x3a, 0x30, 0x03, 0x65,
            0xbb, 0xd1, 0xc3, 0x50, 0x01, 0xd5, 0xe0, 0x04, 0xe2, 0xea, 0x00, 0xc0, 0xf0, 0x05,
            0xf2, 0xfa, 0x01, 0xc0,
        ])
    );
    assert_eq!(block.len(), 32);
}

#[test]
fn identifiers_are_given_out_once() {
    let mut block = BasicBlock::new();
    assert_eq!(block.new_id(), Id::Assigned(0));
    assert_eq!(block.new_id_inner(), 1);
    assert_eq!(block.new_var(2), Variable::Unallocated { len: 2, id: Id::Assigned(2) });
    *block.next_id_mut() = 10;
    assert_eq!(block.new_var(1), Variable::Unallocated { len: 1, id: Id::Assigned(10) });
    assert_eq!(block.next_id(), 11);
    assert_eq!(block.basic_block().new_id(), Id::Assigned(0));
    let mut sys = Cgb::new();
    assert_eq!(sys.new_var(1), Variable::Unallocated { len: 1, id: Id::Assigned(0) });
    assert_eq!(sys.new_id(), Id::Assigned(1));
    assert_eq!(Id::default(), Id::Unset);
}

#[test]
fn constants_are_stored_and_gathered() {
    let mut sys = Cgb::new();
    assert_eq!(sys.new_inline_const_r8(7), Constant::Inline8(7));
    assert_eq!(sys.new_inline_const_r16(0x1234), Constant::Inline16(0x1234));
    let first = sys.new_stored_const(&[1, 2, 3]).unwrap();
    assert_eq!(first, StoredConstant { id: Id::Assigned(0), addr: 0x0800, len: 3 });
    let mut alloc = ConstAllocator::default();
    alloc.constants.offset = 0x0803;
    alloc.constants.len = 4;
    let inner = sys.basic_block();
    let second = inner.new_stored_const(&mut alloc, &[4, 5]).unwrap();
    assert_eq!(second, StoredConstant { id: Id::Assigned(0), addr: 0x0803, len: 2 });
    let third = inner.loop_block(LoopCondition::Native(Condition::Always));
    let third = third.new_stored_const(&mut alloc, &[6]).unwrap();
    assert_eq!(
        inner.new_stored_const(&mut alloc, &[7, 8]),
        Err(AssemblerError::AllocError(ConstAllocError::OutOfMemory))
    );
    let fourth = sys.new_stored_const(&[]).unwrap();
    assert_eq!(fourth, StoredConstant { id: Id::Assigned(1), addr: 0x0803, len: 0 });
    let gathered = sys.gather_consts();
    assert_eq!(
        gathered,
        vec![
            (Constant::Addr(first), vec![1, 2, 3]),
            (Constant::Addr(fourth), vec![]),
            (Constant::Addr(second), vec![4, 5]),
            (Constant::Addr(third), vec![6]),
        ]
    );
    assert!(sys.gather_consts().is_empty());
    assert!(sys.root().consts.is_empty());
    assert_eq!(sys.next_id(), 2);
    let too_long = vec![0u8; 0x10000];
    assert_eq!(
        sys.new_stored_const(&too_long),
        Err(AssemblerError::AllocError(ConstAllocError::OutOfMemory))
    );
}

#[test]
fn a_tile_is_written_with_a_copy() {
    let mut sys = Cgb::new();
    let tile = Tile::flat(gleeby::ppu::palettes::PaletteColor::_3);
    assert_eq!(sys.write_tile_data(TiledataSelector::Tiledata8000, 1, &tile), Ok(()));
    assert_eq!(sys.allocator().registers, GpRegisters::default());
    let image = sys.image().unwrap();
    check_header(&image);
    assert_eq!(image[2], (0x0800, vec![0xff; 16]));
    assert_eq!(
        image[3].1,
        vec![
            0x21, 0x10, 0x80, // ld hl, $8010
            0x01, 0x00, 0x08, // ld bc, $0800
            0x16, 0x10, // ld d, 16
            0x02, // the byte under bc
            0x2a, // the byte under hl, hl moves on
            0x03, // inc bc
            0x15, // dec d
            0x20, 0xfa, // jr nz, -6
        ]
    );
}

#[test]
fn a_copy_keeps_what_it_uses_on_the_stack() {
    let mut alloc = ConstAllocator::default();
    alloc.registers.claim(GpRegister::A, Id::Assigned(1));
    alloc.registers.claim(GpRegister::L, Id::Assigned(2));
    let before = alloc.clone();
    let mut block = BasicBlock::new();
    assert_eq!(block.copy(&mut alloc, 0x0900, 0x9800, 0x0400), Ok(()));
    assert_eq!(alloc, before);
    assert_eq!(block.next_id(), 1);
    assert_eq!(block.contents.len(), 3);
    match &block.contents[1] {
        Block::Loop(runs) => {
            assert_eq!(
                runs.condition,
                LoopCondition::Countdown { counter: counter(GpRegister::E, Id::Unset), end: 0 }
            );
            assert_eq!(runs.inner.contents.len(), 1);
            match &runs.inner.contents[0] {
                Block::Loop(inner) => assert_eq!(
                    inner.condition,
                    LoopCondition::Countdown { counter: counter(GpRegister::D, Id::Unset), end: 0 }
                ),
                other => panic!("no loop: {:?}", other),
            }
        },
        other => panic!("no loop: {:?}", other),
    }
    assert_eq!(
        block.encode(&mut alloc),
        Ok(vec![
            0xe5, // push hl
            0xf5, // push af
            0x21, 0x00, 0x98, // ld hl, $9800
            0x01, 0x00, 0x09, // ld bc, $0900
            0x16, 0x00, // ld d, 0: 256 bytes a run
            0x1e, 0x04, // ld e, 4: four runs
            0x02, 0x2a, 0x03, // the body
            0x15, // dec d
            0x20, 0xfa, // jr nz, -6
            0x1d, // dec e
            0x20, 0xf7, // jr nz, -9
            0xf1, // pop af
            0xe1, // pop hl
        ])
    );
}

#[test]
fn a_copy_counts_its_bytes() {
    let mut alloc = ConstAllocator::default();
    let mut block = BasicBlock::new();
    assert_eq!(block.copy(&mut alloc, 0x0900, 0x9800, 0), Ok(()));
    assert!(block.contents.is_empty());
    assert_eq!(block.next_id(), 0);
    assert_eq!(block.encode(&mut alloc), Ok(vec![]));

    let mut block = BasicBlock::new();
    assert_eq!(block.copy(&mut alloc, 0x0900, 0x9800, 1), Ok(()));
    assert_eq!(
        block.encode(&mut alloc),
        Ok(vec![0x21, 0x00, 0x98, 0x01, 0x00, 0x09, 0x16, 0x01, 0x02, 0x2a, 0x03, 0x15, 0x20, 0xfa])
    );

    let mut block = BasicBlock::new();
    assert_eq!(block.copy(&mut alloc, 0x0900, 0x9800, 256), Ok(()));
    assert_eq!(block.contents.len(), 2);
    assert_eq!(
        block.encode(&mut alloc),
        Ok(vec![0x21, 0x00, 0x98, 0x01, 0x00, 0x09, 0x16, 0x00, 0x02, 0x2a, 0x03, 0x15, 0x20, 0xfa])
    );

    let mut block = BasicBlock::new();
    assert_eq!(block.copy(&mut alloc, 0x0900, 0x9800, 0x0123), Ok(()));
    assert_eq!(block.contents.len(), 4);
    assert_eq!(
        block.encode(&mut alloc),
        Ok(vec![
            0x21, 0x00, 0x98, // ld hl, $9800
            0x01, 0x00, 0x09, // ld bc, $0900
            0x16, 0x23, // ld d, $23: the bytes beyond the runs
            0x02, 0x2a, 0x03, 0x15, 0x20, 0xfa, // they are copied first
            0x1e, 0x01, // ld e, 1: one run of 256 bytes
            0x02, 0x2a, 0x03, 0x15, 0x20, 0xfa, // a run
            0x1d, // dec e
            0x20, 0xf7, // jr nz, -9
        ])
    );

    let mut block = BasicBlock::new();
    assert_eq!(block.copy(&mut alloc, 0x0900, 0x9800, 0xffff), Ok(()));
    let bytes = block.encode(&mut alloc).unwrap();
    assert_eq!(bytes[6..8], [0x16, 0xff]);
    assert_eq!(bytes[14..16], [0x1e, 0xff]);
    assert_eq!(alloc, ConstAllocator::default());
}

#[test]
fn a_copy_needs_a_pointer_and_its_counters() {
    let mut alloc = ConstAllocator::default();
    alloc.registers.claim(GpRegister::B, Id::Assigned(1));
    let one_short = alloc.clone();
    let mut block = BasicBlock::new();
    assert_eq!(
        block.copy(&mut alloc, 0x0900, 0x9800, 0x0400),
        Err(AssemblerError::AllocError(ConstAllocError::OutOfRegisters))
    );
    assert_eq!(alloc, one_short);
    assert!(block.contents.is_empty());
    assert_eq!(block.next_id(), 0);
    assert_eq!(block.copy(&mut alloc, 0x0900, 0x9800, 0x0100), Ok(()));
    assert_eq!(alloc, one_short);
    assert_eq!(
        block.encode(&mut alloc),
        Ok(vec![0x21, 0x00, 0x98, 0x11, 0x00, 0x09, 0x0e, 0x00, 0x12, 0x2a, 0x13, 0x0d, 0x20, 0xfa])
    );

    alloc.registers.claim(GpRegister::C, Id::Assigned(2));
    let no_counter = alloc.clone();
    let mut block = BasicBlock::new();
    assert_eq!(
        block.copy(&mut alloc, 0x0900, 0x9800, 4),
        Err(AssemblerError::AllocError(ConstAllocError::OutOfRegisters))
    );
    assert_eq!(alloc, no_counter);
    assert!(block.contents.is_empty());

    let mut alloc = ConstAllocator::default();
    alloc.registers.claim(GpRegister::B, Id::Assigned(1));
    alloc.registers.claim(GpRegister::E, Id::Assigned(2));
    let no_pointer = alloc.clone();
    let mut block = BasicBlock::new();
    assert_eq!(
        block.copy(&mut alloc, 0x0900, 0x9800, 4),
        Err(AssemblerError::AllocError(ConstAllocError::OutOfRegisters))
    );
    assert_eq!(alloc, no_pointer);
    assert_eq!(block.copy(&mut alloc, 0x0900, 0x9800, 0), Ok(()));
    assert!(block.contents.is_empty());
}

#[test]
fn a_tile_map_is_written_with_a_copy() {
    let mut sys = Cgb::new();
    let mut map = [0u8; 1024];
    map[3] = 9;
    let tilemap = Tilemap::from(map);
    assert_eq!(sys.set_tilemap(TilemapSelector::Tilemap9800, &tilemap), Ok(()));
    assert!(sys.root().consts.is_empty());
    let image = sys.image().unwrap();
    assert_eq!(image.len(), 4);
    assert_eq!(image[2].0, 0x0800);
    assert_eq!(image[2].1, map.to_vec());
    assert_eq!(
        image[3].1,
        vec![
            0x21, 0x00, 0x98, // ld hl, $9800
            0x01, 0x00, 0x08, // ld bc, $0800
            0x16, 0x00, // ld d, 0
            0x1e, 0x04, // ld e, 4
            0x02, 0x2a, 0x03, // the body
            0x15, 0x20, 0xfa, // 256 times
            0x1d, 0x20, 0xf7, // four times
        ]
    );
    let mut sys = Cgb::new();
    assert_eq!(sys.set_tilemap(TilemapSelector::Tilemap9C00, &tilemap), Ok(()));
    assert_eq!(sys.set_tilemap(TilemapSelector::Tilemap9C00, &tilemap), Ok(()));
    assert_eq!(
        sys.set_tilemap(TilemapSelector::Tilemap9C00, &tilemap),
        Err(AssemblerError::AllocError(ConstAllocError::OutOfMemory))
    );
    let tile = Tile::flat(gleeby::ppu::palettes::PaletteColor::_0);
    assert_eq!(
        sys.write_tile_data(TiledataSelector::Tiledata9000, 0, &tile),
        Err(AssemblerError::AllocError(ConstAllocError::OutOfMemory))
    );
    assert_eq!(sys.root().contents.len(), 2);
}

#[test]
fn a_tile_of_a_map_is_set() {
    let mut sys = Cgb::new();
    assert_eq!(sys.set_tile(TilemapSelector::Tilemap9800, 8, 1), Ok(()));
    assert_eq!(sys.allocator().registers, GpRegisters::default());
    assert_eq!(sys.next_id(), 1);
    assert_eq!(sys.encode(), Ok(vec![0x3e, 0x01, 0xea, 0x08, 0x98]));
    let mut sys = Cgb::new();
    sys.claim_reg(GpRegister::A, Id::Unset);
    assert_eq!(sys.set_tile(TilemapSelector::Tilemap9C00, 0, 2), Ok(()));
    assert_eq!(
        sys.encode(),
        Ok(vec![0x06, 0x02, 0x4f, 0x78, 0xea, 0x00, 0x9c, 0x79])
    );
    for reg in [GpRegister::B, GpRegister::C, GpRegister::D, GpRegister::E] {
        sys.claim_reg(reg, Id::Unset);
    }
    sys.claim_reg_pair(RegisterPair::HL, Id::Unset);
    assert_eq!(
        sys.set_tile(TilemapSelector::Tilemap9C00, 0, 2),
        Err(AssemblerError::AllocError(ConstAllocError::OutOfRegisters))
    );
    assert_eq!(sys.next_id(), 1);
}

#[test]
fn a_byte_is_stored_in_a_register_of_the_picture_unit() {
    let mut sys = Cgb::new();
    sys.set_ioreg(IoReg::Lcdc, 0x91);
    sys.store_byte(0xc123, 7);
    assert_eq!(sys.encode(), Ok(vec![0x3e, 0x91, 0xe0, 0x40, 0x3e, 0x07, 0xea, 0x23, 0xc1]));
    let mut sys = Cgb::new();
    sys.claim_reg(GpRegister::A, Id::Unset);
    sys.store_byte(0xff00, 1);
    assert_eq!(sys.allocator().registers.b, None);
    assert_eq!(sys.encode(), Ok(vec![0x47, 0x3e, 0x01, 0xe0, 0x00, 0x78]));
}

#[test]
fn the_generator_hands_out_registers() {
    let mut sys = Cgb::new();
    let a = sys.alloc_reg().unwrap();
    assert_eq!(a.inner, GpRegister::A);
    let bc = sys.alloc_reg_pair().unwrap();
    assert_eq!(bc.inner, RegisterPair::BC);
    assert!(sys.reg_is_used(gleeby::codegen::variables::RegSelector::R16(RegisterPair::BC)));
    sys.release_reg(gleeby::codegen::variables::RegSelector::R16(RegisterPair::BC));
    assert!(!sys.reg_is_used(gleeby::codegen::variables::RegSelector::R8(GpRegister::B)));
    assert_eq!(sys.alloc_const(4), Ok(0x0800));
    assert_eq!(sys.alloc_var(2), Ok(0xc000));
    assert_eq!(sys.alloc_var(0x1000), Err(ConstAllocError::OutOfMemory));
    let var = sys.init_var16(0xbeef).unwrap();
    assert_eq!(sys.dealloc_var(var), Ok(()));
    assert_eq!(sys.allocator().registers.b, None);
    assert_eq!(sys.encode(), Ok(vec![0x01, 0xef, 0xbe]));
}

#[test]
fn small_traits() {
    assert_eq!(7u8.as_buf(), vec![7]);
    assert_eq!(0x1234u16.as_buf(), vec![0x34, 0x12]);
    assert_eq!(AssemblerError::invalid_arg(), AssemblerError::ArgumentError);
    assert_eq!(
        AssemblerError::from(ConstAllocError::OutOfMemory),
        AssemblerError::AllocError(ConstAllocError::OutOfMemory)
    );
    assert_eq!(
        AssemblerError::from(gleeby::cpu::SplitError::StackPointer),
        AssemblerError::RegSplitError(gleeby::cpu::SplitError::StackPointer)
    );
    assert_ne!(AssemblerError::SizeError(16, 8), AssemblerError::SizeError(8, 16));
}

#[test]
fn blocks_are_made_of_instructions_and_of_blocks() {
    assert_eq!(Block::default(), Block::from(vec![]));
    let one = Block::from_instruction(Instruction::IncR8(GpRegister::B));
    assert_eq!(one.len(), 1);
    let mut alloc = ConstAllocator::default();
    assert_eq!(one.encode(&mut alloc), Ok(vec![0x04]));
    let mut inner = BasicBlock::new();
    inner.dec_r8(GpRegister::B);
    let basic = Block::from(inner);
    assert_eq!(basic.encode(&mut alloc), Ok(vec![0x05]));
    let looped = Block::from(LoopBlock::new_native(Condition::Always, BasicBlock::new()));
    assert_eq!(looped.encode(&mut alloc), Ok(vec![0x18, 0xfe]));
    let mut outer = BasicBlock::new();
    outer.contents_mut().push(one);
    outer.contents_mut().push(basic);
    outer.contents_mut().push(looped);
    assert!(outer.meta_ready(&mut alloc));
    assert_eq!(outer.encode(&mut alloc), Ok(vec![0x04, 0x05, 0x18, 0xfe]));
    assert_eq!(outer.len(), 2);
}

#[test]
fn constants_of_a_block_have_identifiers_of_their_own() {
    let mut sys = Cgb::new();
    assert!(sys.is_wf());
    let mut seen = Vec::new();
    for n in 0..5u8 {
        let constant = sys.new_stored_const(&[n; 3]).unwrap();
        assert!(!seen.contains(&constant.id));
        assert!(0x0800 <= constant.addr && constant.addr + constant.len <= 0x1000);
        assert_eq!(constant.addr, 0x0800 + 3 * n as u16);
        seen.push(constant.id);
        let var = sys.new_var(1);
        assert_eq!(var, Variable::Unallocated { len: 1, id: Id::Assigned(2 * n as usize + 1) });
    }
    assert!(sys.is_wf());
}
