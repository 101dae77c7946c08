//! Single handlers, run on a decoder whose state is set up by hand.
use x86_decoder::code;
use x86_decoder::decoder::Decoder;
use x86_decoder::enums::{EncodingKind, MandatoryPrefixByte, OpKind, OpSize, VectorLength};
use x86_decoder::instruction::Instruction;
use x86_decoder::legacy_branch::{OpCodeHandler_Ap, OpCodeHandler_Jb2, OpCodeHandler_Jdisp, OpCodeHandler_Jx};
use x86_decoder::legacy_eb::{OpCodeHandler_Eb_1, OpCodeHandler_Gb_Eb, OpCodeHandler_M, OpCodeHandler_M_REXW};
use x86_decoder::legacy_ev::{
    OpCodeHandler_Ev_1, OpCodeHandler_Ev_Ib, OpCodeHandler_Ev_REXW, OpCodeHandler_Ev_Sw, OpCodeHandler_Evj,
    OpCodeHandler_Ms, OpCodeHandler_PushEv, OpCodeHandler_Rv_32_64, OpCodeHandler_Sw_Ev,
};
use x86_decoder::legacy_gv::{
    OpCodeHandler_Gdq_Ev, OpCodeHandler_Gv_Eb, OpCodeHandler_Gv_Ev2, OpCodeHandler_Gv_Ev_32_64,
    OpCodeHandler_Gv_Ev_Ib, OpCodeHandler_Gv_Ev_Iz, OpCodeHandler_Gv_M_as, OpCodeHandler_R_C,
};
use x86_decoder::legacy_imm::{
    OpCodeHandler_AL_DX, OpCodeHandler_Iw_Ib, OpCodeHandler_PushIb2, OpCodeHandler_PushIz, OpCodeHandler_Reg,
    OpCodeHandler_RegIb, OpCodeHandler_RegIb3, OpCodeHandler_Reg_Iz,
};
use x86_decoder::legacy_mpx::{OpCodeHandler_B_BM, OpCodeHandler_B_MIB};
use x86_decoder::legacy_simd::{
    OpCodeHandler_Gv_W, OpCodeHandler_NIb, OpCodeHandler_P_Q, OpCodeHandler_VM, OpCodeHandler_VRIbIb,
    OpCodeHandler_VW, OpCodeHandler_V_Ev,
};
use x86_decoder::legacy_simple::{
    OpCodeHandler_BranchIw, OpCodeHandler_MemBx, OpCodeHandler_PushSimpleReg, OpCodeHandler_Simple4,
    OpCodeHandler_Simple5, OpCodeHandler_SimpleReg, OpCodeHandler_Wbinvd,
};
use x86_decoder::legacy_string::{OpCodeHandler_Ob_Reg, OpCodeHandler_Reg_Xb, OpCodeHandler_Yb_Reg};
use x86_decoder::options::{DecoderOptions, HandlerFlags};
use x86_decoder::register;
use x86_decoder::vex_basic::{
    OpCodeHandler_VEX_Ev_VX, OpCodeHandler_VEX_RdRq, OpCodeHandler_VEX_Simple, OpCodeHandler_VEX_VW,
};
use x86_decoder::vex_mask::{OpCodeHandler_VEX_VK_HK_RK, OpCodeHandler_VEX_VK_WK};
use x86_decoder::vex_vvvv::{
    OpCodeHandler_VEX_Gv_Gv_Ev, OpCodeHandler_VEX_Hv_Ed_Id, OpCodeHandler_VEX_VHIs4W, OpCodeHandler_VEX_VHW,
    OpCodeHandler_VEX_VHWIs5, OpCodeHandler_VEX_VX_VSIB_HX,
};

/// A decoder at the start of an instruction, before the opcode's operands.
fn fresh(bitness: u32, bytes: &[u8], options: u32) -> Decoder {
    let mut d = Decoder::new(bitness, bytes.to_vec(), options);
    d.start();
    d
}

/// A decoder that has read the first of `bytes` as ModRM byte.
fn after_modrm(bitness: u32, bytes: &[u8], options: u32) -> Decoder {
    let mut d = fresh(bitness, bytes, options);
    d.read_modrm();
    d
}

/// A decoder in the state that a VEX prefix leaves, which has read the first
/// of `bytes` as ModRM byte.
fn vex_after_modrm(bitness: u32, bytes: &[u8], vvvv: u32, w: bool) -> Decoder {
    let mut d = after_modrm(bitness, bytes, DecoderOptions::NONE);
    d.state.encoding = EncodingKind::VEX;
    d.state.vvvv = vvvv;
    d.state.flags.w = w;
    d
}

#[test]
fn reg_handlers_write_fixed_registers() {
    let mut d = fresh(32, &[0x7F], 0);
    let mut i = Instruction::new();
    OpCodeHandler_Reg::new(7, register::CS).decode(&mut d, &mut i);
    assert_eq!((i.code, i.op0_kind, i.op0_register), (7, OpKind::Register, register::CS));
    assert_eq!(d.position, 0);
    let mut i = Instruction::new();
    OpCodeHandler_RegIb::new(8, register::AL).decode(&mut d, &mut i);
    assert_eq!((i.code, i.op0_register, i.op1_kind, i.immediate), (8, register::AL, OpKind::Immediate8, 0x7F));
    assert_eq!(d.position, 1);
    let mut i = Instruction::new();
    OpCodeHandler_AL_DX::new(9).decode(&mut d, &mut i);
    assert_eq!((i.op0_register, i.op1_register), (register::AL, register::DX));
}

#[test]
fn new_records_whether_a_modrm_byte_follows() {
    assert!(!OpCodeHandler_Reg::new(1, register::AL).has_modrm);
    assert!(OpCodeHandler_Ev_Ib::new(1, 2, 3, 0).has_modrm);
    assert!(!OpCodeHandler_Jx::new(1, 2, 3).has_modrm);
    assert!(OpCodeHandler_M::new(5).has_modrm);
    assert_eq!(OpCodeHandler_M::new(5).code_w0, 5);
    assert_eq!(OpCodeHandler_M::new(5).code_w1, 5);
    assert_eq!(OpCodeHandler_M::new1(5, 6).code_w1, 6);
    let h = OpCodeHandler_Ev_REXW::new(1, 2, true, false);
    assert!(!h.disallow_reg);
    assert!(h.disallow_mem);
    let h = OpCodeHandler_VW::new(register::XMM0, 4);
    assert_eq!((h.code_r, h.code_m), (4, 4));
    let h = OpCodeHandler_VW::new1(register::XMM0, 4, 5);
    assert_eq!((h.code_r, h.code_m), (4, 5));
    let h = OpCodeHandler_VEX_VHW::new1(register::XMM0, register::XMM0, register::XMM0, 9);
    assert_eq!((h.code_r, h.code_m), (9, 9));
}

#[test]
fn reg_iz_by_operand_size() {
    let bytes = [0x11, 0x22, 0x33, 0x44];
    let h = OpCodeHandler_Reg_Iz::new(1, 2, 3);
    let mut d = fresh(32, &bytes, 0);
    let mut i = Instruction::new();
    h.decode(&mut d, &mut i);
    assert_eq!((i.code, i.op0_register, i.op1_kind, i.immediate), (2, register::EAX, OpKind::Immediate32, 0x4433_2211));
    assert_eq!(d.position, 4);
    let mut d = fresh(16, &bytes, 0);
    let mut i = Instruction::new();
    h.decode(&mut d, &mut i);
    assert_eq!((i.code, i.op0_register, i.op1_kind, i.immediate), (1, register::AX, OpKind::Immediate16, 0x2211));
    assert_eq!(d.position, 2);
    let mut d = fresh(64, &bytes, 0);
    d.state.operand_size = OpSize::Size64;
    let mut i = Instruction::new();
    h.decode(&mut d, &mut i);
    assert_eq!((i.code, i.op0_register, i.op1_kind), (3, register::RAX, OpKind::Immediate32to64));
}

#[test]
fn mov_r8_imm8_register_by_rex() {
    let h = OpCodeHandler_RegIb3::new(5);
    let mut d = fresh(64, &[0x10], 0);
    let mut i = Instruction::new();
    h.decode(&mut d, &mut i);
    assert_eq!((i.code, i.op0_register, i.immediate), (code::Mov_r8_imm8, register::CH, 0x10));
    let mut d = fresh(64, &[0x10], 0);
    d.state.flags.has_rex = true;
    let mut i = Instruction::new();
    h.decode(&mut d, &mut i);
    assert_eq!(i.op0_register, register::BPL);
    let mut d = fresh(64, &[0x10], 0);
    d.state.flags.has_rex = true;
    d.state.extra_base_register_base = 8;
    let mut i = Instruction::new();
    h.decode(&mut d, &mut i);
    assert_eq!(i.op0_register, register::R8L + 5);
}

#[test]
fn push_immediates_follow_the_stack_size() {
    let bytes = [0x80, 0x01, 0x02, 0x03];
    let mut d = fresh(64, &bytes, 0);
    let mut i = Instruction::new();
    OpCodeHandler_PushIb2::new(1, 2, 3).decode(&mut d, &mut i);
    assert_eq!((i.code, i.op0_kind, i.immediate), (3, OpKind::Immediate8to64, 0x80));
    let mut d = fresh(64, &bytes, 0);
    d.state.operand_size = OpSize::Size16;
    let mut i = Instruction::new();
    OpCodeHandler_PushIb2::new(1, 2, 3).decode(&mut d, &mut i);
    assert_eq!((i.code, i.op0_kind), (1, OpKind::Immediate8to16));
    let mut d = fresh(32, &bytes, 0);
    let mut i = Instruction::new();
    OpCodeHandler_PushIz::new(1, 2, 3).decode(&mut d, &mut i);
    assert_eq!((i.code, i.op0_kind, i.immediate), (2, OpKind::Immediate32, 0x0302_0180));
    let mut d = fresh(64, &bytes, 0);
    let mut i = Instruction::new();
    OpCodeHandler_PushIz::new(1, 2, 3).decode(&mut d, &mut i);
    assert_eq!((i.code, i.op0_kind), (3, OpKind::Immediate32to64));
    let mut d = fresh(16, &bytes, 0);
    let mut i = Instruction::new();
    OpCodeHandler_PushIz::new(1, 2, 3).decode(&mut d, &mut i);
    assert_eq!((i.code, i.op0_kind, i.immediate), (1, OpKind::Immediate16, 0x0180));
}

#[test]
fn enter_has_two_immediates() {
    let mut d = fresh(32, &[0x34, 0x12, 0x56], 0);
    let mut i = Instruction::new();
    OpCodeHandler_Iw_Ib::new(1, 2, 3).decode(&mut d, &mut i);
    assert_eq!(i.code, 2);
    assert_eq!((i.op0_kind, i.immediate), (OpKind::Immediate16, 0x1234));
    assert_eq!((i.op1_kind, i.immediate8_2nd), (OpKind::Immediate8_2nd, 0x56));
    assert_eq!(d.position, 3);
}

#[test]
fn simple_handlers_pick_the_code() {
    let mut d = fresh(64, &[], 0);
    d.state.flags.w = true;
    let mut i = Instruction::new();
    OpCodeHandler_Simple4::new(1, 2).decode(&mut d, &mut i);
    assert_eq!(i.code, 2);
    let mut d = fresh(64, &[], 0);
    let mut i = Instruction::new();
    OpCodeHandler_Simple5::new(1, 2, 3).decode(&mut d, &mut i);
    assert_eq!(i.code, 3);
    d.state.address_size = OpSize::Size32;
    OpCodeHandler_Simple5::new(1, 2, 3).decode(&mut d, &mut i);
    assert_eq!(i.code, 2);
    let mut d = fresh(64, &[0x34, 0x12], DecoderOptions::AMD_BRANCHES);
    d.state.operand_size = OpSize::Size16;
    let mut i = Instruction::new();
    OpCodeHandler_BranchIw::new(1, 2, 3).decode(&mut d, &mut i);
    assert_eq!((i.code, i.op0_kind, i.immediate), (1, OpKind::Immediate16, 0x1234));
    let mut d = fresh(64, &[0x34, 0x12], DecoderOptions::NONE);
    d.state.operand_size = OpSize::Size16;
    let mut i = Instruction::new();
    OpCodeHandler_BranchIw::new(1, 2, 3).decode(&mut d, &mut i);
    assert_eq!(i.code, 3);
}

#[test]
fn register_in_the_opcode() {
    let mut d = fresh(64, &[], 0);
    d.state.extra_base_register_base = 8;
    let mut i = Instruction::new();
    OpCodeHandler_PushSimpleReg::new(3, 10, 20, 30).decode(&mut d, &mut i);
    assert_eq!((i.code, i.op0_register), (30, register::R8 + 3));
    let mut d = fresh(32, &[], 0);
    let mut i = Instruction::new();
    OpCodeHandler_PushSimpleReg::new(3, 10, 20, 30).decode(&mut d, &mut i);
    assert_eq!((i.code, i.op0_register), (20, register::EBX));
    let mut i = Instruction::new();
    OpCodeHandler_SimpleReg::new(100, 2).decode(&mut d, &mut i);
    assert_eq!((i.code, i.op0_register), (101, register::EDX));
    d.state.operand_size = OpSize::Size16;
    OpCodeHandler_SimpleReg::new(100, 2).decode(&mut d, &mut i);
    assert_eq!((i.code, i.op0_register), (100, register::DX));
}

#[test]
fn xlat_operand() {
    let mut d = fresh(64, &[], 0);
    let mut i = Instruction::new();
    OpCodeHandler_MemBx::new(5).decode(&mut d, &mut i);
    assert_eq!((i.code, i.op0_kind, i.memory_base, i.memory_index), (5, OpKind::Memory, register::RBX, register::AL));
    let mut d = fresh(16, &[], 0);
    let mut i = Instruction::new();
    OpCodeHandler_MemBx::new(5).decode(&mut d, &mut i);
    assert_eq!(i.memory_base, register::BX);
}

#[test]
fn wbinvd_or_wbnoinvd() {
    let h = OpCodeHandler_Wbinvd::new();
    let mut d = fresh(32, &[], 0);
    let mut i = Instruction::new();
    h.decode(&mut d, &mut i);
    assert_eq!(i.code, code::Wbinvd);
    d.state.mandatory_prefix = MandatoryPrefixByte::PF3;
    let mut i = Instruction::new();
    i.has_repe_prefix = true;
    h.decode(&mut d, &mut i);
    assert_eq!(i.code, code::Wbnoinvd);
    assert!(!i.has_repe_prefix);
    let mut d = fresh(32, &[], DecoderOptions::NO_WBNOINVD);
    d.state.mandatory_prefix = MandatoryPrefixByte::PF3;
    let mut i = Instruction::new();
    i.has_repe_prefix = true;
    h.decode(&mut d, &mut i);
    assert_eq!(i.code, code::Wbinvd);
    assert!(i.has_repe_prefix);
}

#[test]
fn shift_by_one_has_no_immediate_byte() {
    let mut d = after_modrm(32, &[0xC3, 0x55], 0);
    let mut i = Instruction::new();
    OpCodeHandler_Ev_1::new(1, 2, 3).decode(&mut d, &mut i);
    assert_eq!((i.code, i.op0_register, i.op1_kind, i.immediate), (2, register::EBX, OpKind::Immediate8, 1));
    assert!(d.state.flags.no_imm);
    assert_eq!(d.position, 1);
    let mut d = after_modrm(32, &[0xC7], 0);
    let mut i = Instruction::new();
    OpCodeHandler_Eb_1::new(9).decode(&mut d, &mut i);
    assert_eq!((i.code, i.op0_register, i.immediate), (9, register::BH, 1));
    assert!(d.state.flags.no_imm);
}

#[test]
fn sign_extended_byte_immediate_kind() {
    let mut d = after_modrm(64, &[0xC1, 0x80], 0);
    d.state.operand_size = OpSize::Size64;
    let mut i = Instruction::new();
    OpCodeHandler_Ev_Ib::new(1, 2, 3, 0).decode(&mut d, &mut i);
    assert_eq!((i.code, i.op0_register, i.op1_kind, i.immediate), (3, register::RCX, OpKind::Immediate8to64, 0x80));
    let mut d = after_modrm(32, &[0xC1, 0x80], 0);
    let mut i = Instruction::new();
    OpCodeHandler_Gv_Ev_Ib::new(1, 2, 3).decode(&mut d, &mut i);
    assert_eq!((i.code, i.op0_register, i.op1_register, i.op2_kind), (2, register::EAX, register::ECX, OpKind::Immediate8to32));
    let mut d = after_modrm(16, &[0x06, 0x34, 0x12, 0x78, 0x56], 0);
    let mut i = Instruction::new();
    OpCodeHandler_Gv_Ev_Iz::new(1, 2, 3).decode(&mut d, &mut i);
    assert_eq!((i.code, i.op0_register, i.op1_kind, i.op2_kind), (1, register::AX, OpKind::Memory, OpKind::Immediate16));
    assert_eq!((i.memory_displacement, i.immediate), (0x1234, 0x5678));
}

#[test]
fn forms_that_an_instruction_does_not_have() {
    let h = OpCodeHandler_Ev_REXW::new(1, 2, false, true);
    let mut d = after_modrm(64, &[0xC0], 0);
    let mut i = Instruction::new();
    h.decode(&mut d, &mut i);
    assert!(d.state.flags.is_invalid);
    assert_eq!(i.op0_register, register::EAX);
    let mut d = after_modrm(64, &[0x00], 0);
    let mut i = Instruction::new();
    h.decode(&mut d, &mut i);
    assert!(!d.state.flags.is_invalid);
    let mut d = after_modrm(64, &[0xC0], DecoderOptions::NO_INVALID_CHECK);
    let mut i = Instruction::new();
    h.decode(&mut d, &mut i);
    assert!(!d.state.flags.is_invalid);
    let h = OpCodeHandler_Gv_Ev_32_64::new(1, 2, true, false);
    let mut d = after_modrm(32, &[0x00], 0);
    let mut i = Instruction::new();
    h.decode(&mut d, &mut i);
    assert!(d.state.flags.is_invalid);
    assert_eq!((i.code, i.op0_register, i.op1_kind), (1, register::EAX, OpKind::Memory));
}

#[test]
fn memory_only_forms_reject_registers() {
    let mut d = after_modrm(32, &[0xC0], 0);
    let mut i = Instruction::new();
    OpCodeHandler_M::new(5).decode(&mut d, &mut i);
    assert!(d.state.flags.is_invalid);
    assert_eq!(i.code, 5);
    assert_eq!(i.op0_kind, OpKind::Register);
    let mut d = after_modrm(32, &[0x03], 0);
    let mut i = Instruction::new();
    OpCodeHandler_M::new1(5, 6).decode(&mut d, &mut i);
    assert!(!d.state.flags.is_invalid);
    assert_eq!((i.code, i.op0_kind, i.memory_base), (5, OpKind::Memory, register::EBX));
    let mut d = after_modrm(64, &[0x03], 0);
    d.state.flags.w = true;
    let mut i = Instruction::new();
    i.has_lock_prefix = true;
    OpCodeHandler_M_REXW::new(5, 6, 0, HandlerFlags::LOCK).decode(&mut d, &mut i);
    assert_eq!(i.code, 6);
    assert!(d.state.flags.allow_lock);
    let mut d = after_modrm(64, &[0x03], 0);
    let mut i = Instruction::new();
    OpCodeHandler_M_REXW::new(5, 6, 0, HandlerFlags::LOCK).decode(&mut d, &mut i);
    assert_eq!(i.code, 5);
    assert!(!d.state.flags.allow_lock);
    let mut d = after_modrm(16, &[0xC1], 0);
    let mut i = Instruction::new();
    OpCodeHandler_Gv_M_as::new(1, 2, 3).decode(&mut d, &mut i);
    assert!(d.state.flags.is_invalid);
    assert_eq!((i.code, i.op0_register), (1, register::AX));
}

#[test]
fn register_only_handlers() {
    let mut d = after_modrm(64, &[0xC2], 0);
    let mut i = Instruction::new();
    OpCodeHandler_Rv_32_64::new(1, 2).decode(&mut d, &mut i);
    assert_eq!((i.code, i.op0_register), (2, register::RDX));
    let mut d = after_modrm(32, &[0xC2], 0);
    let mut i = Instruction::new();
    OpCodeHandler_Rv_32_64::new(1, 2).decode(&mut d, &mut i);
    assert_eq!((i.code, i.op0_register), (1, register::EDX));
    let mut d = after_modrm(32, &[0x02, 0x09], 0);
    let mut i = Instruction::new();
    OpCodeHandler_NIb::new(4).decode(&mut d, &mut i);
    assert!(d.state.flags.is_invalid);
    assert_eq!((i.code, i.op1_kind, i.immediate), (4, OpKind::Immediate8, 0x09));
    assert_eq!(d.position, 2);
    let mut d = after_modrm(32, &[0xC2, 0x09], 0);
    let mut i = Instruction::new();
    OpCodeHandler_NIb::new(4).decode(&mut d, &mut i);
    assert!(!d.state.flags.is_invalid);
    assert_eq!(i.op0_register, register::MM0 + 2);
}

#[test]
fn indirect_branch_operand() {
    let h = OpCodeHandler_Evj::new(1, 2, 3);
    let mut d = after_modrm(64, &[0xE1], 0);
    let mut i = Instruction::new();
    h.decode(&mut d, &mut i);
    assert_eq!((i.code, i.op0_register), (3, register::RCX));
    let mut d = after_modrm(64, &[0xE1], DecoderOptions::AMD_BRANCHES);
    d.state.operand_size = OpSize::Size16;
    let mut i = Instruction::new();
    h.decode(&mut d, &mut i);
    assert_eq!((i.code, i.op0_register), (1, register::CX));
    let mut d = after_modrm(32, &[0xE1], 0);
    let mut i = Instruction::new();
    h.decode(&mut d, &mut i);
    assert_eq!((i.code, i.op0_register), (2, register::ECX));
    let mut d = after_modrm(16, &[0x27], 0);
    let mut i = Instruction::new();
    h.decode(&mut d, &mut i);
    assert_eq!((i.code, i.op0_kind, i.memory_base), (1, OpKind::Memory, register::BX));
}

#[test]
fn descriptor_table_operand() {
    let h = OpCodeHandler_Ms::new(1, 2, 3);
    let mut d = after_modrm(64, &[0x10], 0);
    d.state.operand_size = OpSize::Size16;
    let mut i = Instruction::new();
    h.decode(&mut d, &mut i);
    assert_eq!((i.code, i.op0_kind, i.memory_base), (3, OpKind::Memory, register::RAX));
    let mut d = after_modrm(32, &[0x10], 0);
    let mut i = Instruction::new();
    h.decode(&mut d, &mut i);
    assert_eq!(i.code, 2);
    let mut d = after_modrm(16, &[0x17], 0);
    let mut i = Instruction::new();
    h.decode(&mut d, &mut i);
    assert_eq!((i.code, i.memory_base), (1, register::BX));
}

#[test]
fn push_operand_in_stack_size() {
    let h = OpCodeHandler_PushEv::new(1, 2, 3);
    let mut d = after_modrm(64, &[0xF1], 0);
    let mut i = Instruction::new();
    h.decode(&mut d, &mut i);
    assert_eq!((i.code, i.op0_register), (3, register::RCX));
    let mut d = after_modrm(64, &[0xF1], 0);
    d.state.operand_size = OpSize::Size16;
    let mut i = Instruction::new();
    h.decode(&mut d, &mut i);
    assert_eq!((i.code, i.op0_register), (1, register::CX));
}

#[test]
fn segment_register_operands() {
    let mut d = after_modrm(32, &[0xD8], 0);
    let mut i = Instruction::new();
    OpCodeHandler_Ev_Sw::new(1, 2, 3).decode(&mut d, &mut i);
    assert_eq!((i.code, i.op0_register, i.op1_register), (2, register::EAX, register::DS));
    assert!(!d.state.flags.is_invalid);
    let mut d = after_modrm(32, &[0xF0], 0);
    let mut i = Instruction::new();
    OpCodeHandler_Ev_Sw::new(1, 2, 3).decode(&mut d, &mut i);
    assert_eq!(i.op1_register, register::NONE);
    assert!(d.state.flags.is_invalid);
    let mut d = after_modrm(32, &[0xC8], 0);
    let mut i = Instruction::new();
    OpCodeHandler_Sw_Ev::new(1, 2, 3).decode(&mut d, &mut i);
    assert_eq!(i.op0_register, register::CS);
    assert!(d.state.flags.is_invalid);
    let mut d = after_modrm(32, &[0xC8], DecoderOptions::NO_INVALID_CHECK);
    let mut i = Instruction::new();
    OpCodeHandler_Sw_Ev::new(1, 2, 3).decode(&mut d, &mut i);
    assert!(!d.state.flags.is_invalid);
    let mut d = after_modrm(32, &[0xE3], 0);
    let mut i = Instruction::new();
    OpCodeHandler_Sw_Ev::new(1, 2, 3).decode(&mut d, &mut i);
    assert_eq!((i.op0_register, i.op1_register), (register::FS, register::EBX));
    assert!(!d.state.flags.is_invalid);
}

#[test]
fn mixed_width_operands() {
    let mut d = after_modrm(16, &[0xC1], 0);
    let mut i = Instruction::new();
    OpCodeHandler_Gdq_Ev::new(1, 2, 3).decode(&mut d, &mut i);
    assert_eq!((i.code, i.op0_register, i.op1_register), (1, register::EAX, register::CX));
    let mut d = after_modrm(64, &[0xC1], 0);
    d.state.operand_size = OpSize::Size64;
    let mut i = Instruction::new();
    OpCodeHandler_Gv_Ev2::new(1, 2, 3).decode(&mut d, &mut i);
    assert_eq!((i.code, i.op0_register, i.op1_register), (3, register::RAX, register::ECX));
    let mut d = after_modrm(32, &[0xC5], 0);
    let mut i = Instruction::new();
    OpCodeHandler_Gv_Eb::new(1, 2, 3).decode(&mut d, &mut i);
    assert_eq!((i.op0_register, i.op1_register), (register::EAX, register::CH));
    let mut d = after_modrm(32, &[0xFD], 0);
    let mut i = Instruction::new();
    OpCodeHandler_Gb_Eb::new(1).decode(&mut d, &mut i);
    assert_eq!((i.op0_register, i.op1_register), (register::BH, register::CH));
}

#[test]
fn debug_and_test_registers() {
    let h = OpCodeHandler_R_C::new(1, 2, register::DR0);
    let mut d = after_modrm(64, &[0xF9], 0);
    let mut i = Instruction::new();
    h.decode(&mut d, &mut i);
    assert_eq!((i.code, i.op0_register, i.op1_register), (2, register::RCX, register::DR0 + 7));
    assert!(!d.state.flags.is_invalid);
    let mut d = after_modrm(64, &[0xC1], 0);
    d.state.extra_register_base = 8;
    let mut i = Instruction::new();
    h.decode(&mut d, &mut i);
    assert_eq!(i.op1_register, register::DR0 + 8);
    assert!(d.state.flags.is_invalid);
    let h = OpCodeHandler_R_C::new(1, 2, register::TR0);
    let mut d = after_modrm(32, &[0xF9], 0);
    let mut i = Instruction::new();
    i.has_lock_prefix = true;
    h.decode(&mut d, &mut i);
    assert_eq!((i.code, i.op1_register), (1, register::TR7));
    assert!(i.has_lock_prefix);
    let h = OpCodeHandler_R_C::new(1, 2, register::CR0);
    let mut d = after_modrm(64, &[0xC1], 0);
    d.state.extra_register_base = 8;
    let mut i = Instruction::new();
    i.has_lock_prefix = true;
    h.decode(&mut d, &mut i);
    assert_eq!(i.op1_register, register::CR8);
    assert!(i.has_lock_prefix);
    assert!(!d.state.flags.is_invalid);
}

#[test]
fn xbegin_branches() {
    let h = OpCodeHandler_Jx::new(1, 2, 3);
    let mut d = fresh(64, &[0x00, 0x80], 0);
    d.state.operand_size = OpSize::Size16;
    d.set_ip(0x1_0000);
    let mut i = Instruction::new();
    h.decode(&mut d, &mut i);
    assert!(d.state.flags.xbegin);
    assert_eq!((i.code, i.op0_kind, i.near_branch), (1, OpKind::NearBranch64, 0x8002));
    let mut d = fresh(64, &[0xFC, 0xFF, 0xFF, 0xFF], 0);
    d.set_ip(0x1_0000);
    let mut i = Instruction::new();
    h.decode(&mut d, &mut i);
    assert_eq!((i.code, i.op0_kind, i.near_branch), (2, OpKind::NearBranch64, 0x1_0000));
    let mut d = fresh(32, &[0x00, 0x80], 0);
    d.state.operand_size = OpSize::Size16;
    d.set_ip(0x1_0000);
    let mut i = Instruction::new();
    h.decode(&mut d, &mut i);
    assert_eq!((i.code, i.op0_kind, i.near_branch), (1, OpKind::NearBranch32, 0x8002));
    let mut d = fresh(16, &[0x00, 0x80], 0);
    d.set_ip(0xF000);
    let mut i = Instruction::new();
    h.decode(&mut d, &mut i);
    assert_eq!((i.code, i.op0_kind, i.near_branch), (1, OpKind::NearBranch16, 0x7002));
    let mut d = fresh(16, &[0x00, 0x80, 0x01, 0x00], 0);
    d.state.operand_size = OpSize::Size32;
    d.set_ip(0xF000);
    let mut i = Instruction::new();
    h.decode(&mut d, &mut i);
    assert_eq!((i.code, i.op0_kind, i.near_branch), (2, OpKind::NearBranch16, 0x7004));
}

#[test]
fn loop_codes_by_operand_and_address_size() {
    let h = OpCodeHandler_Jb2::new(11, 12, 13, 21, 22, 32, 33);
    let mut d = fresh(64, &[0x02], 0);
    let mut i = Instruction::new();
    h.decode(&mut d, &mut i);
    assert_eq!((i.code, i.op0_kind, i.near_branch), (33, OpKind::NearBranch64, 3));
    assert!(d.state.flags.branch_imm8);
    let mut d = fresh(64, &[0x02], 0);
    d.state.address_size = OpSize::Size32;
    let mut i = Instruction::new();
    h.decode(&mut d, &mut i);
    assert_eq!(i.code, 32);
    let mut d = fresh(64, &[0x02], DecoderOptions::AMD_BRANCHES);
    d.state.operand_size = OpSize::Size16;
    let mut i = Instruction::new();
    h.decode(&mut d, &mut i);
    assert_eq!((i.code, i.op0_kind), (13, OpKind::NearBranch16));
    let mut d = fresh(32, &[0x02], 0);
    d.state.address_size = OpSize::Size16;
    let mut i = Instruction::new();
    h.decode(&mut d, &mut i);
    assert_eq!((i.code, i.op0_kind), (21, OpKind::NearBranch32));
    let mut d = fresh(16, &[0x02], 0);
    let mut i = Instruction::new();
    h.decode(&mut d, &mut i);
    assert_eq!((i.code, i.op0_kind), (11, OpKind::NearBranch16));
    let mut d = fresh(16, &[0x02], 0);
    d.state.address_size = OpSize::Size32;
    let mut i = Instruction::new();
    h.decode(&mut d, &mut i);
    assert_eq!(i.code, 12);
}

#[test]
fn absolute_and_far_branches() {
    let mut d = fresh(32, &[0x78, 0x56, 0x34, 0x12], 0);
    d.set_ip(0x100);
    let mut i = Instruction::new();
    OpCodeHandler_Jdisp::new(1, 2).decode(&mut d, &mut i);
    assert_eq!((i.code, i.op0_kind, i.near_branch), (2, OpKind::NearBranch32, 0x1234_5678));
    let mut d = fresh(16, &[0x78, 0x56, 0x34, 0x12], 0);
    let mut i = Instruction::new();
    OpCodeHandler_Jdisp::new(1, 2).decode(&mut d, &mut i);
    assert_eq!((i.code, i.op0_kind, i.near_branch), (1, OpKind::NearBranch16, 0x5678));
    let mut d = fresh(32, &[0x78, 0x56, 0x34, 0x12, 0xCD, 0xAB], 0);
    let mut i = Instruction::new();
    OpCodeHandler_Ap::new(1, 2).decode(&mut d, &mut i);
    assert_eq!((i.code, i.op0_kind, i.far_branch, i.far_branch_selector), (2, OpKind::FarBranch32, 0x1234_5678, 0xABCD));
    assert_eq!(d.position, 6);
    let mut d = fresh(16, &[0x78, 0x56, 0x34, 0x12], 0);
    let mut i = Instruction::new();
    OpCodeHandler_Ap::new(1, 2).decode(&mut d, &mut i);
    assert_eq!((i.code, i.op0_kind, i.far_branch, i.far_branch_selector), (1, OpKind::FarBranch16, 0x5678, 0x1234));
}

#[test]
fn string_and_offset_operands() {
    let mut d = fresh(32, &[], 0);
    let mut i = Instruction::new();
    OpCodeHandler_Yb_Reg::new(1, register::DX).decode(&mut d, &mut i);
    assert_eq!((i.op0_kind, i.op1_kind, i.op1_register), (OpKind::MemoryESEDI, OpKind::Register, register::DX));
    let mut i = Instruction::new();
    OpCodeHandler_Reg_Xb::new(1, register::AL).decode(&mut d, &mut i);
    assert_eq!((i.op0_register, i.op1_kind), (register::AL, OpKind::MemorySegESI));
    let mut d = fresh(16, &[0x34, 0x12], 0);
    let mut i = Instruction::new();
    OpCodeHandler_Ob_Reg::new(1, register::AL).decode(&mut d, &mut i);
    assert_eq!((i.op0_kind, i.memory_displacement, i.memory_displ_size, i.op1_register), (OpKind::Memory, 0x1234, 2, register::AL));
    assert_eq!(d.displ_index, 0);
}

#[test]
fn vector_operands() {
    let mut d = after_modrm(64, &[0xCA], 0);
    d.state.extra_register_base = 8;
    let mut i = Instruction::new();
    OpCodeHandler_VW::new1(register::XMM0, 1, 2).decode(&mut d, &mut i);
    assert_eq!((i.code, i.op0_register, i.op1_register), (1, register::XMM0 + 9, register::XMM0 + 2));
    let mut d = after_modrm(64, &[0x0A], 0);
    let mut i = Instruction::new();
    OpCodeHandler_VW::new1(register::XMM0, 1, 2).decode(&mut d, &mut i);
    assert_eq!((i.code, i.op1_kind, i.memory_base), (2, OpKind::Memory, register::RDX));
    assert!(!d.state.flags.is_invalid);
    let mut d = after_modrm(64, &[0x0A], 0);
    let mut i = Instruction::new();
    OpCodeHandler_VW::new1(register::XMM0, 1, code::INVALID).decode(&mut d, &mut i);
    assert!(d.state.flags.is_invalid);
    let mut d = after_modrm(32, &[0xCA], 0);
    let mut i = Instruction::new();
    OpCodeHandler_P_Q::new(3).decode(&mut d, &mut i);
    assert_eq!((i.op0_register, i.op1_register), (register::MM0 + 1, register::MM0 + 2));
    let mut d = after_modrm(32, &[0xCA], 0);
    let mut i = Instruction::new();
    OpCodeHandler_VM::new(register::XMM0, 3).decode(&mut d, &mut i);
    assert!(d.state.flags.is_invalid);
    let mut d = after_modrm(32, &[0xCA, 0x11, 0x22], 0);
    let mut i = Instruction::new();
    OpCodeHandler_VRIbIb::new(register::XMM0, 3).decode(&mut d, &mut i);
    assert_eq!((i.op2_kind, i.immediate, i.op3_kind, i.immediate8_2nd), (OpKind::Immediate8, 0x11, OpKind::Immediate8_2nd, 0x22));
    let mut d = after_modrm(64, &[0xCA], 0);
    d.state.flags.w = true;
    let mut i = Instruction::new();
    OpCodeHandler_Gv_W::new(register::XMM0, 1, 2).decode(&mut d, &mut i);
    assert_eq!((i.code, i.op0_register, i.op1_register), (2, register::RCX, register::XMM0 + 2));
    let mut d = after_modrm(64, &[0xCA], 0);
    d.state.operand_size = OpSize::Size64;
    let mut i = Instruction::new();
    OpCodeHandler_V_Ev::new(register::XMM0, 1, 2).decode(&mut d, &mut i);
    assert_eq!((i.code, i.op0_register, i.op1_register), (2, register::XMM0 + 1, register::RDX));
}

#[test]
fn bound_registers() {
    let mut d = after_modrm(64, &[0xCA], 0);
    let mut i = Instruction::new();
    OpCodeHandler_B_BM::new(1, 2).decode(&mut d, &mut i);
    assert_eq!((i.code, i.op0_register, i.op1_register), (2, register::BND0 + 1, register::BND0 + 2));
    assert!(!d.state.flags.is_invalid);
    let mut d = after_modrm(64, &[0xE2], 0);
    let mut i = Instruction::new();
    OpCodeHandler_B_BM::new(1, 2).decode(&mut d, &mut i);
    assert!(d.state.flags.is_invalid);
    let mut d = after_modrm(64, &[0xCA], 0);
    d.state.extra_base_register_base = 8;
    let mut i = Instruction::new();
    OpCodeHandler_B_BM::new(1, 2).decode(&mut d, &mut i);
    assert!(d.state.flags.is_invalid);
    // In 64-bit mode the address size is 64 bits whatever the prefix says.
    let mut d = after_modrm(64, &[0x08], 0);
    d.state.address_size = OpSize::Size32;
    let mut i = Instruction::new();
    OpCodeHandler_B_BM::new(1, 2).decode(&mut d, &mut i);
    assert_eq!((i.op1_kind, i.memory_base), (OpKind::Memory, register::RAX));
    assert_eq!(d.state.address_size, OpSize::Size64);
    // A base of RIP is invalid.
    let mut d = after_modrm(64, &[0x0D, 0, 0, 0, 0], 0);
    let mut i = Instruction::new();
    OpCodeHandler_B_MIB::new(1).decode(&mut d, &mut i);
    assert_eq!(i.memory_base, register::RIP);
    assert!(d.state.flags.is_invalid);
    let mut d = after_modrm(64, &[0x08], 0);
    let mut i = Instruction::new();
    OpCodeHandler_B_MIB::new(1).decode(&mut d, &mut i);
    assert!(!d.state.flags.is_invalid);
    // So is 16-bit addressing.
    let mut d = after_modrm(16, &[0x08], 0);
    let mut i = Instruction::new();
    OpCodeHandler_B_MIB::new(1).decode(&mut d, &mut i);
    assert!(d.state.flags.is_invalid);
    assert_eq!(i.memory_base, register::BX);
}

#[test]
fn vex_without_vvvv_operand() {
    let mut d = vex_after_modrm(64, &[0xCA], 0, false);
    let mut i = Instruction::new();
    OpCodeHandler_VEX_VW::new(register::YMM0, register::XMM0, 7).decode(&mut d, &mut i);
    assert_eq!((i.code, i.op0_register, i.op1_register), (7, register::YMM0 + 1, register::XMM0 + 2));
    assert!(!d.state.flags.is_invalid);
    let mut d = vex_after_modrm(64, &[0xCA], 3, false);
    let mut i = Instruction::new();
    OpCodeHandler_VEX_VW::new(register::YMM0, register::XMM0, 7).decode(&mut d, &mut i);
    assert!(d.state.flags.is_invalid);
    let mut d = fresh(64, &[], 0);
    d.state.encoding = EncodingKind::VEX;
    let mut i = Instruction::new();
    OpCodeHandler_VEX_Simple::new(7).decode(&mut d, &mut i);
    assert_eq!(i.code, 7);
    assert!(!d.state.flags.is_invalid);
    let mut d = vex_after_modrm(64, &[0xCA], 0, true);
    let mut i = Instruction::new();
    OpCodeHandler_VEX_Ev_VX::new(1, 2).decode(&mut d, &mut i);
    assert_eq!((i.code, i.op0_register, i.op1_register), (2, register::RDX, register::XMM0 + 1));
    // W selects 64-bit operands in 64-bit mode only.
    let mut d = vex_after_modrm(32, &[0xCA], 0, true);
    let mut i = Instruction::new();
    OpCodeHandler_VEX_Ev_VX::new(1, 2).decode(&mut d, &mut i);
    assert_eq!((i.code, i.op0_register), (1, register::EDX));
    let mut d = vex_after_modrm(32, &[0x0A], 0, false);
    let mut i = Instruction::new();
    OpCodeHandler_VEX_RdRq::new(1, 2).decode(&mut d, &mut i);
    assert!(d.state.flags.is_invalid);
    assert_eq!(i.op0_register, register::EDX);
}

#[test]
fn vex_with_vvvv_operand() {
    let mut d = vex_after_modrm(64, &[0xCA], 5, false);
    let mut i = Instruction::new();
    OpCodeHandler_VEX_VHW::new(register::XMM0, register::YMM0, register::ZMM0, 1, 2).decode(&mut d, &mut i);
    assert_eq!((i.code, i.op0_register, i.op1_register, i.op2_register), (1, register::XMM0 + 1, register::YMM0 + 5, register::ZMM0 + 2));
    let mut d = vex_after_modrm(64, &[0x0A], 5, false);
    let mut i = Instruction::new();
    OpCodeHandler_VEX_VHW::new(register::XMM0, register::YMM0, register::ZMM0, 1, 2).decode(&mut d, &mut i);
    assert_eq!((i.code, i.op2_kind), (2, OpKind::Memory));
    let mut d = vex_after_modrm(64, &[0xCA], 15, true);
    let mut i = Instruction::new();
    OpCodeHandler_VEX_Gv_Gv_Ev::new(1, 2).decode(&mut d, &mut i);
    assert_eq!((i.code, i.op0_register, i.op1_register, i.op2_register), (2, register::RCX, register::R15, register::RDX));
    let mut d = vex_after_modrm(64, &[0xCA, 0x78, 0x56, 0x34, 0x12], 1, false);
    let mut i = Instruction::new();
    OpCodeHandler_VEX_Hv_Ed_Id::new(1, 2).decode(&mut d, &mut i);
    assert_eq!((i.code, i.op0_register, i.op1_register, i.op2_kind, i.immediate), (1, register::ECX, register::EDX, OpKind::Immediate32, 0x1234_5678));
}

#[test]
fn register_in_the_last_byte() {
    let mut d = vex_after_modrm(64, &[0xCA, 0xB2], 5, false);
    let mut i = Instruction::new();
    OpCodeHandler_VEX_VHIs4W::new(register::XMM0, 1).decode(&mut d, &mut i);
    assert_eq!((i.op0_register, i.op1_register, i.op2_register, i.op3_register), (register::XMM0 + 1, register::XMM0 + 5, register::XMM0 + 11, register::XMM0 + 2));
    assert_eq!(d.position, 2);
    let mut d = vex_after_modrm(64, &[0xCA, 0xB6], 5, false);
    let mut i = Instruction::new();
    OpCodeHandler_VEX_VHWIs5::new(register::XMM0, 1).decode(&mut d, &mut i);
    assert_eq!((i.op2_register, i.op3_register, i.immediate), (register::XMM0 + 2, register::XMM0 + 11, 2));
    assert_eq!(i.op4_kind(), OpKind::Immediate8);
    assert_eq!(i.op_kind(4), OpKind::Immediate8);
    assert_eq!(i.op_kind(3), OpKind::Register);
    assert_eq!(i.op_register(3), register::XMM0 + 11);
}

#[test]
fn mask_registers() {
    let mut d = vex_after_modrm(64, &[0xCA], 3, false);
    let mut i = Instruction::new();
    OpCodeHandler_VEX_VK_HK_RK::new(1).decode(&mut d, &mut i);
    assert_eq!((i.op0_register, i.op1_register, i.op2_register), (register::K0 + 1, register::K0 + 3, register::K0 + 2));
    assert!(!d.state.flags.is_invalid);
    let mut d = vex_after_modrm(64, &[0xCA], 11, false);
    let mut i = Instruction::new();
    OpCodeHandler_VEX_VK_HK_RK::new(1).decode(&mut d, &mut i);
    assert_eq!(i.op1_register, register::K0 + 3);
    assert!(d.state.flags.is_invalid);
    let mut d = vex_after_modrm(64, &[0x0A], 0, false);
    let mut i = Instruction::new();
    OpCodeHandler_VEX_VK_WK::new(1).decode(&mut d, &mut i);
    assert_eq!((i.op0_register, i.op1_kind), (register::K0 + 1, OpKind::Memory));
    assert!(!d.state.flags.is_invalid);
    let mut d = vex_after_modrm(64, &[0x0A], 0, false);
    d.state.extra_register_base = 8;
    let mut i = Instruction::new();
    OpCodeHandler_VEX_VK_WK::new(1).decode(&mut d, &mut i);
    assert!(d.state.flags.is_invalid);
}

#[test]
fn gather_needs_three_registers() {
    let h = OpCodeHandler_VEX_VX_VSIB_HX::new(register::XMM0, register::YMM0, register::XMM0, 1);
    // vgather xmm1, [rax + ymm2*4], xmm3
    let mut d = vex_after_modrm(64, &[0x0C, 0x90], 3, false);
    let mut i = Instruction::new();
    h.decode(&mut d, &mut i);
    assert_eq!((i.op0_register, i.op1_kind, i.op2_register), (register::XMM0 + 1, OpKind::Memory, register::XMM0 + 3));
    assert_eq!((i.memory_base, i.memory_index, i.memory_index_scale), (register::RAX, register::YMM0 + 2, 2));
    assert!(!d.state.flags.is_invalid);
    // The index is the destination.
    let mut d = vex_after_modrm(64, &[0x0C, 0x88], 3, false);
    let mut i = Instruction::new();
    h.decode(&mut d, &mut i);
    assert_eq!(i.memory_index, register::YMM0 + 1);
    assert!(d.state.flags.is_invalid);
    // The mask is the destination.
    let mut d = vex_after_modrm(64, &[0x0C, 0x90], 1, false);
    let mut i = Instruction::new();
    h.decode(&mut d, &mut i);
    assert!(d.state.flags.is_invalid);
    // Index 4 is a register like any other.
    let mut d = vex_after_modrm(64, &[0x0C, 0xA0], 3, false);
    let mut i = Instruction::new();
    h.decode(&mut d, &mut i);
    assert_eq!(i.memory_index, register::YMM0 + 4);
    assert!(!d.state.flags.is_invalid);
    // Without a SIB byte there is no index.
    let mut d = vex_after_modrm(64, &[0x08], 3, false);
    let mut i = Instruction::new();
    h.decode(&mut d, &mut i);
    assert!(d.state.flags.is_invalid);
    // The register form is invalid.
    let mut d = vex_after_modrm(64, &[0xC8], 3, false);
    let mut i = Instruction::new();
    h.decode(&mut d, &mut i);
    assert!(d.state.flags.is_invalid);
    assert_eq!(i.op1_kind, OpKind::Register);
    // Nothing is checked where the options say so.
    let mut d = vex_after_modrm(64, &[0x0C, 0x88], 3, false);
    d.invalid_check = false;
    d.options = DecoderOptions::NO_INVALID_CHECK;
    let mut i = Instruction::new();
    h.decode(&mut d, &mut i);
    assert!(!d.state.flags.is_invalid);
    let _ = VectorLength::L128;
}
