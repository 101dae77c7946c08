//! The byte cursor, the state and the arithmetic underneath.
use x86_decoder::arith::{
    bits210, bits543, bits76, displacement16, displacement32, displacement8, join64, le16, le32, sext8to16,
    sext8to32, wrapping_address, wrapping_address64,
};
use x86_decoder::decode::{inverted_address_size, inverted_size, is_prefix, prefix_segment, DecoderError};
use x86_decoder::decoder::{Decoder, State, StateFlags};
use x86_decoder::enums::{CodeSize, EncodingKind, MandatoryPrefixByte, OpKind, OpSize, VectorLength};
use x86_decoder::instruction::Instruction;
use x86_decoder::memory::{mem16_base, mem16_index};
use x86_decoder::operand::{
    branch_size, es_rdi_kind, near_branch_kind, offset_code, seg_rdi_kind, seg_rsi_kind, select3, stack_size,
    xchg_reg_rax_code,
};
use x86_decoder::options::{has_flag, DecoderOptions, HandlerFlags};
use x86_decoder::register;
use x86_decoder::selectors::{extension, inverted4, vector_length};
use x86_decoder::strings::add_prefix;

#[test]
fn little_endian_values() {
    assert_eq!(le16(0x34, 0x12), 0x1234);
    assert_eq!(le16(0xFF, 0xFF), 0xFFFF);
    assert_eq!(le32(0x78, 0x56, 0x34, 0x12), 0x1234_5678);
    assert_eq!(le32(0xFF, 0xFF, 0xFF, 0xFF), 0xFFFF_FFFF);
    assert_eq!(join64(0x89AB_CDEF, 0x0123_4567), 0x0123_4567_89AB_CDEF);
    assert_eq!(join64(0xFFFF_FFFF, 0xFFFF_FFFF), u64::MAX);
}

#[test]
fn byte_fields() {
    assert_eq!((bits76(0xE5), bits543(0xE5), bits210(0xE5)), (3, 4, 5));
    assert_eq!((bits76(0x00), bits543(0x00), bits210(0x00)), (0, 0, 0));
    assert_eq!((bits76(0x7F), bits543(0x7F), bits210(0x7F)), (1, 7, 7));
}

#[test]
fn sign_extension() {
    assert_eq!(sext8to16(0x7F), 0x007F);
    assert_eq!(sext8to16(0x80), 0xFF80);
    assert_eq!(sext8to32(0x7F), 0x0000_007F);
    assert_eq!(sext8to32(0xFF), 0xFFFF_FFFF);
    assert_eq!(displacement8(0x7F), 127);
    assert_eq!(displacement8(0x80), -128);
    assert_eq!(displacement16(0x7FFF), 32767);
    assert_eq!(displacement16(0xFFFF), -1);
    assert_eq!(displacement32(0x7FFF_FFFF), 0x7FFF_FFFF);
    assert_eq!(displacement32(0x8000_0000), -0x8000_0000);
}

#[test]
fn addresses_wrap_at_their_width() {
    assert_eq!(wrapping_address(0xFFFC, 2, 4, OpSize::Size16), 0x0002);
    assert_eq!(wrapping_address(0x0000, 2, -4, OpSize::Size16), 0xFFFE);
    assert_eq!(wrapping_address(0x1234_0000, 0, 0x1_0005, OpSize::Size16), 0x0005);
    assert_eq!(wrapping_address(0xFFFF_FFFF, 1, 0, OpSize::Size32), 0);
    assert_eq!(wrapping_address(0, 0, -1, OpSize::Size32), 0xFFFF_FFFF);
    assert_eq!(wrapping_address(0xFFFF_FFFF_0000_0000, 5, 0xFFFF_FFFF, OpSize::Size32), 4);
    assert_eq!(wrapping_address(u64::MAX, 15, 0, OpSize::Size64), 14);
    assert_eq!(wrapping_address(0, 0, -1, OpSize::Size64), u64::MAX);
    assert_eq!(wrapping_address(u64::MAX, 15, 0xFFFF_FFFF, OpSize::Size64), 0x1_0000_000D);
    assert_eq!(wrapping_address64(10, 2, -20), u64::MAX - 7);
    assert_eq!(wrapping_address64(10, 2, i64::MIN), 0x8000_0000_0000_000C);
}

#[test]
fn reads_advance_the_cursor() {
    let mut d = Decoder::new(32, vec![0x01, 0x02, 0x03, 0x04, 0x05, 0x06, 0x07], 0);
    d.start();
    assert_eq!(d.read_u8(), 0x01);
    assert_eq!(d.position, 1);
    assert_eq!(d.read_u16(), 0x0302);
    assert_eq!(d.position, 3);
    assert_eq!(d.read_u32(), 0x0706_0504);
    assert_eq!(d.position, 7);
    assert!(!d.state.flags.is_invalid);
}

#[test]
fn read_of_eight_bytes() {
    let mut d = Decoder::new(64, vec![0x01, 0x02, 0x03, 0x04, 0x05, 0x06, 0x07, 0x08, 0x09], 0);
    d.start();
    assert_eq!(d.read_u64(), 0x0807_0605_0403_0201);
    assert_eq!(d.position, 8);
    assert_eq!(d.read_u64(), 0);
    assert_eq!(d.position, 8);
    assert!(d.state.flags.no_more_bytes);
}

#[test]
fn reads_past_the_end_return_zero_and_stay() {
    let mut d = Decoder::new(32, vec![0x01, 0x02, 0x03], 0);
    d.start();
    assert_eq!(d.read_u32(), 0);
    assert_eq!(d.position, 0);
    assert!(d.state.flags.is_invalid);
    assert!(d.state.flags.no_more_bytes);
    let mut d = Decoder::new(32, vec![0x01], 0);
    d.start();
    assert_eq!(d.read_u16(), 0);
    assert_eq!(d.position, 0);
    assert!(d.state.flags.no_more_bytes);
    assert_eq!(d.read_u8(), 1);
    assert_eq!(d.read_u8(), 0);
    assert_eq!(d.position, 1);
}

#[test]
fn an_instruction_reads_at_most_fifteen_bytes() {
    let mut d = Decoder::new(32, vec![0xAA; 40], 0);
    assert!(d.set_position(10));
    d.start();
    assert_eq!(d.instr_start, 10);
    assert_eq!(d.max_position, 25);
    for _ in 0..15 {
        assert_eq!(d.read_u8(), 0xAA);
    }
    assert!(!d.state.flags.no_more_bytes);
    assert_eq!(d.read_u8(), 0);
    assert!(d.state.flags.no_more_bytes);
    assert_eq!(d.position, 25);
    let mut d = Decoder::new(32, vec![0xAA; 12], 0);
    d.start();
    assert_eq!(d.max_position, 12);
}

#[test]
fn modrm_fields() {
    let mut d = Decoder::new(32, vec![0xE5], 0);
    d.start();
    d.read_modrm();
    assert_eq!((d.state.modrm, d.state.mod_, d.state.reg, d.state.rm), (0xE5, 3, 4, 5));
    assert_eq!(d.position, 1);
    d.read_modrm();
    assert_eq!((d.state.modrm, d.state.mod_, d.state.reg, d.state.rm), (0, 0, 0, 0));
    assert!(d.state.flags.no_more_bytes);
}

#[test]
fn decoder_modes() {
    let d = Decoder::new(64, vec![], 0);
    assert!(d.is64_mode);
    assert_eq!((d.default_code_size, d.default_operand_size, d.default_address_size), (CodeSize::Code64, OpSize::Size32, OpSize::Size64));
    assert!(d.invalid_check);
    let d = Decoder::new(32, vec![], DecoderOptions::NO_INVALID_CHECK);
    assert!(!d.is64_mode);
    assert_eq!((d.default_code_size, d.default_operand_size, d.default_address_size), (CodeSize::Code32, OpSize::Size32, OpSize::Size32));
    assert!(!d.invalid_check);
    let d = Decoder::new(16, vec![], 0);
    assert_eq!((d.default_code_size, d.default_operand_size, d.default_address_size), (CodeSize::Code16, OpSize::Size16, OpSize::Size16));
    for (bitness, code_size, operand_size, address_size) in [
        (16u32, CodeSize::Code16, OpSize::Size16, OpSize::Size16),
        (32, CodeSize::Code32, OpSize::Size32, OpSize::Size32),
        (64, CodeSize::Code64, OpSize::Size32, OpSize::Size64),
    ] {
        let d = Decoder::try_new(bitness, vec![1, 2], DecoderOptions::AMD_BRANCHES).unwrap();
        assert_eq!(d.default_code_size, code_size);
        assert_eq!(d.default_operand_size, operand_size);
        assert_eq!(d.default_address_size, address_size);
        assert_eq!(d.is64_mode, bitness == 64);
        assert_eq!((d.position, d.ip, d.options), (0, 0, DecoderOptions::AMD_BRANCHES));
        assert_eq!(d.data, vec![1, 2]);
        assert!(d.invalid_check);
        assert_eq!(d.state, State::new(operand_size, address_size));
    }
    assert!(Decoder::try_new(64, vec![1], 0).is_some());
    assert!(Decoder::try_new(8, vec![1], 0).is_none());
    assert!(Decoder::try_new(0, vec![1], 0).is_none());
    assert!(Decoder::try_new(128, vec![1], 0).is_none());
    let mut d = Decoder::new(16, vec![1, 2, 3], 0);
    assert!(d.can_decode());
    assert!(!d.set_position(4));
    assert_eq!(d.position, 0);
    assert!(d.set_position(3));
    assert!(!d.can_decode());
    assert_eq!(d.last_error(), DecoderError::NoError);
}

#[test]
fn start_drops_the_state_of_the_instruction_before() {
    let mut d = Decoder::new(64, vec![0x48, 0x01], 0);
    d.start();
    d.state.flags.is_invalid = true;
    d.state.flags.w = true;
    d.state.operand_size = OpSize::Size64;
    d.state.extra_register_base = 8;
    d.state.vvvv = 3;
    d.state.mandatory_prefix = MandatoryPrefixByte::PF2;
    d.state.encoding = EncodingKind::VEX;
    d.state.vector_length = VectorLength::L256;
    d.start();
    assert_eq!(d.state, State::new(OpSize::Size32, OpSize::Size64));
    assert_eq!(d.state.flags, StateFlags::new());
    assert_eq!(d.state.encoding, EncodingKind::Legacy);
}

#[test]
fn prefixes_change_the_state() {
    let mut d = Decoder::new(64, vec![], 0);
    d.start();
    d.set_prefix(0x66);
    assert_eq!(d.state.operand_size, OpSize::Size16);
    assert_eq!(d.state.mandatory_prefix, MandatoryPrefixByte::P66);
    assert!(d.state.flags.has66);
    d.set_prefix(0xF3);
    assert_eq!(d.state.mandatory_prefix, MandatoryPrefixByte::PF3);
    d.set_prefix(0x66);
    assert_eq!(d.state.mandatory_prefix, MandatoryPrefixByte::PF3);
    d.set_prefix(0xF2);
    assert_eq!(d.state.mandatory_prefix, MandatoryPrefixByte::PF2);
    d.set_prefix(0x67);
    assert_eq!(d.state.address_size, OpSize::Size32);
    d.set_prefix(0xF0);
    assert!(d.state.flags.lock);
    d.set_prefix(0x2E);
    assert_eq!(d.state.operand_size, OpSize::Size16);
    d.set_rex(0x4F);
    assert!(d.state.flags.has_rex && d.state.flags.w);
    assert_eq!(d.state.operand_size, OpSize::Size64);
    assert_eq!((d.state.extra_register_base, d.state.extra_index_register_base, d.state.extra_base_register_base), (8, 8, 8));
    let mut d = Decoder::new(64, vec![], 0);
    d.start();
    d.set_rex(0x42);
    assert!(d.state.flags.has_rex && !d.state.flags.w);
    assert_eq!(d.state.operand_size, OpSize::Size32);
    assert_eq!((d.state.extra_register_base, d.state.extra_index_register_base, d.state.extra_base_register_base), (0, 8, 0));
    d.set_rex(0);
    assert_eq!(d.state.extra_index_register_base, 8);
    let mut d = Decoder::new(16, vec![], 0);
    d.start();
    d.set_prefix(0x66);
    d.set_prefix(0x67);
    assert_eq!((d.state.operand_size, d.state.address_size), (OpSize::Size32, OpSize::Size32));
}

#[test]
fn prefix_bytes() {
    for b in [0x26u32, 0x2E, 0x36, 0x3E, 0x64, 0x65, 0x66, 0x67, 0xF0, 0xF2, 0xF3] {
        assert!(is_prefix(b, false));
        assert!(is_prefix(b, true));
    }
    for b in 0x40u32..=0x4F {
        assert!(is_prefix(b, true));
        assert!(!is_prefix(b, false));
    }
    for b in [0x00u32, 0x0F, 0x3F, 0x50, 0x90, 0xF1, 0xF4, 0xFF] {
        assert!(!is_prefix(b, true));
    }
    assert_eq!(prefix_segment(0x26), register::ES);
    assert_eq!(prefix_segment(0x2E), register::CS);
    assert_eq!(prefix_segment(0x36), register::SS);
    assert_eq!(prefix_segment(0x3E), register::DS);
    assert_eq!(prefix_segment(0x64), register::FS);
    assert_eq!(prefix_segment(0x65), register::GS);
    assert_eq!(inverted_size(OpSize::Size16), OpSize::Size32);
    assert_eq!(inverted_size(OpSize::Size32), OpSize::Size16);
    assert_eq!(inverted_address_size(OpSize::Size64), OpSize::Size32);
    assert_eq!(inverted_address_size(OpSize::Size32), OpSize::Size16);
    assert_eq!(inverted_address_size(OpSize::Size16), OpSize::Size32);
}

#[test]
fn read_prefixes_returns_rex_and_opcode() {
    let mut d = Decoder::new(64, vec![0x66, 0x48, 0x01], 0);
    d.start();
    let mut i = Instruction::new();
    assert_eq!(d.read_prefixes(&mut i), (0x48, 0x01));
    assert_eq!(d.position, 3);
    let mut d = Decoder::new(64, vec![0x48, 0xF0, 0x01], 0);
    d.start();
    let mut i = Instruction::new();
    assert_eq!(d.read_prefixes(&mut i), (0, 0x01));
    assert!(i.has_lock_prefix);
    let mut d = Decoder::new(64, vec![0xF3], 0);
    d.start();
    let mut i = Instruction::new();
    assert_eq!(d.read_prefixes(&mut i), (0, 0));
    assert!(d.state.flags.no_more_bytes);
    assert!(i.has_repe_prefix);
}

#[test]
fn registers_from_fields() {
    let mut s = State::new(OpSize::Size32, OpSize::Size32);
    s.reg = 3;
    s.rm = 5;
    s.vvvv = 9;
    assert_eq!(s.reg_register(register::EAX), register::EBX);
    assert_eq!(s.rm_register(register::RAX), register::RBP);
    assert_eq!(s.vvvv_register(register::XMM0), register::XMM0 + 9);
    assert_eq!(s.reg_byte_register(), register::BL);
    assert_eq!(s.rm_byte_register(), register::CH);
    s.extra_register_base = 8;
    s.extra_base_register_base = 8;
    s.flags.has_rex = true;
    assert_eq!(s.reg_register(register::EAX), register::R8D + 3);
    assert_eq!(s.rm_register(register::AX), register::R8W + 5);
    assert_eq!(s.reg_byte_register(), register::R8L + 3);
    assert_eq!(s.opcode_register(2, register::RAX), register::R8 + 2);
    assert_eq!(s.opcode_index(2), 10);
    assert_eq!(s.opcode_byte_register(7), register::R15L);
    assert_eq!(register::gpr_base(OpSize::Size16), register::AX);
    assert_eq!(register::gpr_base(OpSize::Size32), register::EAX);
    assert_eq!(register::gpr_base(OpSize::Size64), register::RAX);
    assert_eq!(register::gpr32_or_64(true), register::RAX);
    assert_eq!(register::gpr32_or_64(false), register::EAX);
    assert_eq!(register::offset(register::MM0, 7), register::MM7);
    assert_eq!(register::AX + 16, register::EAX);
    assert_eq!(register::AX + 32, register::RAX);
    for n in 0..4 {
        assert_eq!(register::byte_register(n, false), register::AL + n);
        assert_eq!(register::byte_register(n, true), register::AL + n);
    }
    assert_eq!(register::byte_register(4, false), register::AH);
    assert_eq!(register::byte_register(7, false), register::BH);
    assert_eq!(register::byte_register(4, true), register::SPL);
    assert_eq!(register::byte_register(7, true), register::DIL);
    assert_eq!(register::byte_register(8, true), register::R8L);
    assert_eq!(register::byte_register(15, true), register::R15L);
}

#[test]
fn special_registers_that_do_not_exist() {
    for n in [1u32, 5, 6, 7, 9, 10, 15] {
        assert!(register::reserved_special_register(register::CR0, n));
    }
    for n in [0u32, 2, 3, 4, 8] {
        assert!(!register::reserved_special_register(register::CR0, n));
    }
    for n in 0u32..=7 {
        assert!(!register::reserved_special_register(register::DR0, n));
    }
    for n in 8u32..=15 {
        assert!(register::reserved_special_register(register::DR0, n));
    }
    assert!(!register::reserved_special_register(register::TR0, 15));
}

#[test]
fn sixteen_bit_address_registers() {
    let bases = [register::BX, register::BX, register::BP, register::BP, register::SI, register::DI, register::BP, register::BX];
    let indexes = [register::SI, register::DI, register::SI, register::DI, 0, 0, 0, 0];
    for rm in 0u32..8 {
        assert_eq!(mem16_base(rm), bases[rm as usize]);
        assert_eq!(mem16_index(rm), indexes[rm as usize]);
    }
}

#[test]
fn sizes_and_kinds() {
    assert_eq!(OpSize::Size16.index(), 0);
    assert_eq!(OpSize::Size32.index(), 1);
    assert_eq!(OpSize::Size64.index(), 2);
    assert_eq!(OpSize::Size64.bits(), 64);
    assert_eq!(MandatoryPrefixByte::PNone.index(), 0);
    assert_eq!(MandatoryPrefixByte::P66.index(), 1);
    assert_eq!(MandatoryPrefixByte::PF3.index(), 2);
    assert_eq!(MandatoryPrefixByte::PF2.index(), 3);
    assert_eq!(MandatoryPrefixByte::from_pp(0), MandatoryPrefixByte::PNone);
    assert_eq!(MandatoryPrefixByte::from_pp(1), MandatoryPrefixByte::P66);
    assert_eq!(MandatoryPrefixByte::from_pp(2), MandatoryPrefixByte::PF3);
    assert_eq!(MandatoryPrefixByte::from_pp(3), MandatoryPrefixByte::PF2);
    assert_eq!(VectorLength::L128.index(), 0);
    assert_eq!(VectorLength::Unknown.index(), 3);
    assert_eq!(select3(OpSize::Size16, 1, 2, 3), 1);
    assert_eq!(select3(OpSize::Size32, 1, 2, 3), 2);
    assert_eq!(select3(OpSize::Size64, 1, 2, 3), 3);
    assert_eq!(stack_size(true, OpSize::Size32), OpSize::Size64);
    assert_eq!(stack_size(true, OpSize::Size64), OpSize::Size64);
    assert_eq!(stack_size(true, OpSize::Size16), OpSize::Size16);
    assert_eq!(stack_size(false, OpSize::Size32), OpSize::Size32);
    assert_eq!(stack_size(false, OpSize::Size16), OpSize::Size16);
    assert_eq!(branch_size(true, false, OpSize::Size16), OpSize::Size64);
    assert_eq!(branch_size(true, true, OpSize::Size16), OpSize::Size16);
    assert_eq!(branch_size(true, true, OpSize::Size64), OpSize::Size16);
    assert_eq!(branch_size(true, true, OpSize::Size32), OpSize::Size64);
    assert_eq!(branch_size(false, true, OpSize::Size32), OpSize::Size32);
    assert_eq!(branch_size(false, false, OpSize::Size16), OpSize::Size16);
    assert_eq!(near_branch_kind(OpSize::Size16), OpKind::NearBranch16);
    assert_eq!(near_branch_kind(OpSize::Size64), OpKind::NearBranch64);
    assert_eq!(es_rdi_kind(OpSize::Size32), OpKind::MemoryESEDI);
    assert_eq!(seg_rsi_kind(OpSize::Size16), OpKind::MemorySegSI);
    assert_eq!(seg_rdi_kind(OpSize::Size64), OpKind::MemorySegRDI);
    assert_eq!(offset_code(10, OpSize::Size64), 12);
    assert_eq!(xchg_reg_rax_code(OpSize::Size16, 0), x86_decoder::code::Nopw);
    assert_eq!(xchg_reg_rax_code(OpSize::Size64, 15), x86_decoder::code::Xchg_r64_RAX);
    assert!(has_flag(HandlerFlags::LOCK | HandlerFlags::XACQUIRE, HandlerFlags::LOCK));
    assert!(!has_flag(HandlerFlags::XACQUIRE, HandlerFlags::LOCK));
    assert!(!has_flag(0, u32::MAX));
}

#[test]
fn vex_payload_fields() {
    assert_eq!(inverted4(0x0F), 0);
    assert_eq!(inverted4(0x00), 15);
    assert_eq!(inverted4(0x1A), 5);
    assert_eq!(extension(0), 8);
    assert_eq!(extension(1), 0);
    assert_eq!(extension(6), 8);
    assert_eq!(vector_length(0), VectorLength::L128);
    assert_eq!(vector_length(1), VectorLength::L256);
    assert_eq!(vector_length(2), VectorLength::L128);
}

#[test]
fn record_setters() {
    let mut i = Instruction::new();
    assert_eq!(i.code, x86_decoder::code::INVALID);
    assert_eq!(i.op0_kind, OpKind::Register);
    i.set_code(5);
    i.set_op_kind(2, OpKind::Memory);
    i.set_op_register(3, register::CL);
    i.set_op_register(7, register::DL);
    i.set_op_kind(9, OpKind::Memory);
    assert_eq!((i.code, i.op2_kind, i.op3_kind, i.op3_register), (5, OpKind::Memory, OpKind::Register, register::CL));
    assert_eq!(i.op_kind(9), OpKind::Immediate8);
    assert_eq!(i.op_register(9), register::NONE);
    i.set_op0_kind(OpKind::Immediate16);
    i.set_op0_register(register::AL);
    assert_eq!((i.op0_kind, i.op0_register), (OpKind::Register, register::AL));
    i.set_immediate64(0x1111_2222, 0x3333_4444);
    assert_eq!(i.immediate, 0x3333_4444_1111_2222);
    i.set_memory_address64(1, 2);
    assert_eq!((i.memory_address64, i.memory_displ_size), (0x2_0000_0001, 4));
    i.set_memory_displacement(2, 0x1234);
    i.set_memory_base(register::BX);
    i.set_memory_index(register::SI);
    i.set_memory_index_scale(3);
    assert_eq!((i.memory_displ_size, i.memory_displacement, i.memory_base, i.memory_index, i.memory_index_scale), (2, 0x1234, register::BX, register::SI, 3));
    i.set_far_branch(0x10, 0x20);
    assert_eq!((i.far_branch, i.far_branch_selector), (0x10, 0x20));
    i.set_near_branch16(0xFFFF);
    assert_eq!(i.near_branch, 0xFFFF);
    i.set_prefix(0xF0, false);
    i.set_prefix(0xF2, false);
    i.set_prefix(0xF3, false);
    assert!(i.has_lock_prefix && i.has_repne_prefix && i.has_repe_prefix);
    i.clear_has_repe_prefix();
    assert!(!i.has_repe_prefix && i.has_repne_prefix);
    i.clear_has_repe_repne_prefix();
    assert!(!i.has_repne_prefix);
    i.clear_has_lock_prefix();
    assert!(!i.has_lock_prefix);
    i.complete(3, 0x1_0000_0010, CodeSize::Code64, true);
    assert_eq!((i.len, i.next_ip, i.code_size, i.memory_displacement), (3, 0x1_0000_0010, CodeSize::Code64, 0x1244));
}

#[test]
fn xacquire_needs_lock_or_leave() {
    let all = HandlerFlags::XACQUIRE | HandlerFlags::XRELEASE;
    let mut i = Instruction::new();
    i.has_repne_prefix = true;
    Decoder::xacquire_xrelease(MandatoryPrefixByte::PF2, &mut i, all);
    assert!(!i.has_xacquire_prefix && i.has_repne_prefix);
    i.has_lock_prefix = true;
    Decoder::xacquire_xrelease(MandatoryPrefixByte::PF2, &mut i, all);
    assert!(i.has_xacquire_prefix && !i.has_repne_prefix);
    let mut i = Instruction::new();
    i.has_repe_prefix = true;
    Decoder::xacquire_xrelease(MandatoryPrefixByte::PF3, &mut i, all | HandlerFlags::XACQUIRE_XRELEASE_NO_LOCK);
    assert!(i.has_xrelease_prefix && !i.has_repe_prefix);
    let mut i = Instruction::new();
    i.has_lock_prefix = true;
    i.has_repe_prefix = true;
    Decoder::xacquire_xrelease(MandatoryPrefixByte::PF3, &mut i, HandlerFlags::XACQUIRE);
    assert!(!i.has_xrelease_prefix && i.has_repe_prefix);
    Decoder::xacquire_xrelease(MandatoryPrefixByte::P66, &mut i, all);
    assert!(!i.has_xrelease_prefix && !i.has_xacquire_prefix);
}

#[test]
fn mnemonic_with_prefix() {
    assert_eq!(add_prefix("addps", 'v'), "vaddps");
    assert_eq!(add_prefix("", 'v'), "v");
    assert_eq!(add_prefix("v", 'x'), "xv");
    assert_ne!(add_prefix("addps", 'v'), "addps");
}
