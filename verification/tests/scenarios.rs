//! Whole instructions, from bytes to record.
use x86_decoder::code;
use x86_decoder::decode::DecoderError;
use x86_decoder::decoder::Decoder;
use x86_decoder::enums::{CodeSize, OpKind};
use x86_decoder::handlers::OpCodeHandler;
use x86_decoder::instruction::Instruction;
use x86_decoder::legacy_branch::{BranchHandler, OpCodeHandler_Jb, OpCodeHandler_Jz};
use x86_decoder::legacy_eb::{EbHandler, OpCodeHandler_Eb_Gb};
use x86_decoder::legacy_ev::{EvHandler, OpCodeHandler_Ev_Gv, OpCodeHandler_Ev_Iz};
use x86_decoder::legacy_gv::{GvHandler, OpCodeHandler_C_R, OpCodeHandler_Gv_Mp, OpCodeHandler_R_C};
use x86_decoder::legacy_imm::{ImmHandler, OpCodeHandler_RegIz2};
use x86_decoder::legacy_simple::{OpCodeHandler_Xchg_Reg_rAX, SimpleHandler};
use x86_decoder::legacy_string::{OpCodeHandler_Reg_Ov, OpCodeHandler_Yv_Xv, StringHandler};
use x86_decoder::options::{DecoderOptions, HandlerFlags};
use x86_decoder::register;
use x86_decoder::selectors::{OpCodeHandler_AnotherTable, OpCodeHandler_VEX2};
use x86_decoder::tables::HandlerTables;

const ADD_RM16_R16: u32 = 0x10;
const ADD_RM32_R32: u32 = 0x11;
const ADD_RM64_R64: u32 = 0x12;
const ADD_RM16_IMM16: u32 = 0x13;
const ADD_RM32_IMM32: u32 = 0x14;
const ADD_RM64_IMM32: u32 = 0x15;
const MOV_CR_R32: u32 = 0x20;
const MOV_CR_R64: u32 = 0x21;
const MOV_R32_CR: u32 = 0x22;
const MOV_R64_CR: u32 = 0x23;
const JMP_REL8_16: u32 = 0x30;
const JMP_REL8_32: u32 = 0x31;
const JMP_REL8_64: u32 = 0x32;
const JMP_REL16: u32 = 0x33;
const JMP_REL32_32: u32 = 0x34;
const JMP_REL32_64: u32 = 0x35;
const MOV_RM8_R8: u32 = 0x40;
const MOV_EAX_MOFFS16: u32 = 0x41;
const MOV_EAX_MOFFS32: u32 = 0x42;
const MOV_EAX_MOFFS64: u32 = 0x43;
const MOVSW: u32 = 0x44;
const MOVSD: u32 = 0x45;
const MOVSQ: u32 = 0x46;
const LDS_16: u32 = 0x50;
const LDS_32: u32 = 0x51;

const LOCKABLE: u32 = HandlerFlags::LOCK | HandlerFlags::XACQUIRE | HandlerFlags::XRELEASE;

fn add(tables: &mut HandlerTables, handler: OpCodeHandler) -> usize {
    tables.add(handler).expect("the handler fits the tables")
}

/// Tables with a handful of one-byte opcodes and the two-byte opcodes
/// `0F 20` and `0F 22`.
fn tables() -> HandlerTables {
    let mut t = HandlerTables::new();
    let add_ev_gv = add(
        &mut t,
        OpCodeHandler::Ev(EvHandler::Ev_Gv(OpCodeHandler_Ev_Gv::new(
            ADD_RM16_R16,
            ADD_RM32_R32,
            ADD_RM64_R64,
            LOCKABLE,
        ))),
    );
    assert!(t.set_legacy(0x01, add_ev_gv));
    let add_ev_iz = add(
        &mut t,
        OpCodeHandler::Ev(EvHandler::Ev_Iz(OpCodeHandler_Ev_Iz::new(
            ADD_RM16_IMM16,
            ADD_RM32_IMM32,
            ADD_RM64_IMM32,
            LOCKABLE,
        ))),
    );
    assert!(t.set_legacy(0x81, add_ev_iz));
    let mov_eb_gb = add(
        &mut t,
        OpCodeHandler::Eb(EbHandler::Eb_Gb(OpCodeHandler_Eb_Gb::new(
            MOV_RM8_R8,
            HandlerFlags::XRELEASE | HandlerFlags::XACQUIRE_XRELEASE_NO_LOCK,
        ))),
    );
    assert!(t.set_legacy(0x88, mov_eb_gb));
    let xchg = add(
        &mut t,
        OpCodeHandler::Simple(SimpleHandler::Xchg_Reg_rAX(OpCodeHandler_Xchg_Reg_rAX::new(0))),
    );
    assert!(t.set_legacy(0x90, xchg));
    let xchg_cx = add(
        &mut t,
        OpCodeHandler::Simple(SimpleHandler::Xchg_Reg_rAX(OpCodeHandler_Xchg_Reg_rAX::new(1))),
    );
    assert!(t.set_legacy(0x91, xchg_cx));
    let mov_moffs = add(
        &mut t,
        OpCodeHandler::String(StringHandler::Reg_Ov(OpCodeHandler_Reg_Ov::new(
            MOV_EAX_MOFFS16,
            MOV_EAX_MOFFS32,
            MOV_EAX_MOFFS64,
        ))),
    );
    assert!(t.set_legacy(0xA1, mov_moffs));
    let movs = add(
        &mut t,
        OpCodeHandler::String(StringHandler::Yv_Xv(OpCodeHandler_Yv_Xv::new(MOVSW, MOVSD, MOVSQ))),
    );
    assert!(t.set_legacy(0xA5, movs));
    let mov_imm = add(&mut t, OpCodeHandler::Imm(ImmHandler::RegIz2(OpCodeHandler_RegIz2::new(0))));
    assert!(t.set_legacy(0xB8, mov_imm));
    let jmp8 = add(
        &mut t,
        OpCodeHandler::Branch(BranchHandler::Jb(OpCodeHandler_Jb::new(
            JMP_REL8_16,
            JMP_REL8_32,
            JMP_REL8_64,
        ))),
    );
    assert!(t.set_legacy(0xEB, jmp8));
    let jmp = add(
        &mut t,
        OpCodeHandler::Branch(BranchHandler::Jz(OpCodeHandler_Jz::new(
            JMP_REL16,
            JMP_REL32_32,
            JMP_REL32_64,
        ))),
    );
    assert!(t.set_legacy(0xE9, jmp));
    let lds = add(&mut t, OpCodeHandler::Gv(GvHandler::Gv_Mp(OpCodeHandler_Gv_Mp::new(LDS_16, LDS_32, 0))));
    let vex2 = add(&mut t, OpCodeHandler::VEX2(OpCodeHandler_VEX2::new(lds)));
    assert!(t.set_legacy(0xC5, vex2));

    let mov_r_cr = add(
        &mut t,
        OpCodeHandler::Gv(GvHandler::R_C(OpCodeHandler_R_C::new(MOV_R32_CR, MOV_R64_CR, register::CR0))),
    );
    let mov_cr_r = add(
        &mut t,
        OpCodeHandler::Gv(GvHandler::C_R(OpCodeHandler_C_R::new(MOV_CR_R32, MOV_CR_R64, register::CR0))),
    );
    let mut map0f = vec![0usize; 256];
    map0f[0x20] = mov_r_cr;
    map0f[0x22] = mov_cr_r;
    let two_byte = add(&mut t, OpCodeHandler::AnotherTable(OpCodeHandler_AnotherTable::new(map0f)));
    assert!(t.set_legacy(0x0F, two_byte));
    t
}

fn decode(bitness: u32, bytes: &[u8], options: u32) -> (Instruction, Decoder) {
    let mut decoder = Decoder::new(bitness, bytes.to_vec(), options);
    let instruction = decoder.decode(&tables());
    (instruction, decoder)
}

#[test]
fn modrm_register_form() {
    let (i, d) = decode(32, &[0x01, 0xC0], DecoderOptions::NONE);
    assert_eq!(i.code, ADD_RM32_R32);
    assert_eq!(i.op0_kind, OpKind::Register);
    assert_eq!(i.op0_register, register::EAX);
    assert_eq!(i.op1_kind, OpKind::Register);
    assert_eq!(i.op1_register, register::EAX);
    assert_eq!(i.len, 2);
    assert_eq!(d.position, 2);
    assert_eq!(d.last_error(), DecoderError::NoError);
    assert_eq!(i.code_size, CodeSize::Code32);
}

#[test]
fn memory_form_with_sib() {
    let (i, d) = decode(64, &[0x01, 0x04, 0x24], DecoderOptions::NONE);
    assert_eq!(i.code, ADD_RM32_R32);
    assert_eq!(i.op0_kind, OpKind::Memory);
    assert_eq!(i.memory_base, register::RSP);
    assert_eq!(i.memory_index, register::NONE);
    assert_eq!(i.memory_index_scale, 0);
    assert_eq!(i.memory_displ_size, 0);
    assert_eq!(i.op1_kind, OpKind::Register);
    assert_eq!(i.op1_register, register::EAX);
    assert_eq!(i.len, 3);
    assert_eq!(d.position, 3);
    assert_eq!(d.last_error(), DecoderError::NoError);
}

#[test]
fn invalid_control_register_is_flagged() {
    let (i, d) = decode(32, &[0x0F, 0x22, 0xC8], DecoderOptions::NONE);
    assert_eq!(d.last_error(), DecoderError::InvalidInstruction);
    assert_eq!(i.code, code::INVALID);
    assert_eq!(i.len, 3);
    assert_eq!(d.position, 3);
}

#[test]
fn invalid_control_register_without_checks() {
    let (i, d) = decode(32, &[0x0F, 0x22, 0xC8], DecoderOptions::NO_INVALID_CHECK);
    assert_eq!(d.last_error(), DecoderError::NoError);
    assert_eq!(i.code, MOV_CR_R32);
    assert_eq!(i.op0_kind, OpKind::Register);
    assert_eq!(i.op0_register, register::CR0 + 1);
    assert_eq!(i.op1_register, register::EAX);
    assert_eq!(i.len, 3);
}

#[test]
fn debug_like_control_registers_five_to_seven_are_invalid() {
    for reg in [5u8, 6, 7] {
        let (i, d) = decode(32, &[0x0F, 0x22, 0xC0 | (reg << 3)], DecoderOptions::NONE);
        assert_eq!(d.last_error(), DecoderError::InvalidInstruction);
        assert_eq!(i.code, code::INVALID);
    }
    for reg in [0u8, 2, 3, 4] {
        let (i, d) = decode(32, &[0x0F, 0x22, 0xC0 | (reg << 3)], DecoderOptions::NONE);
        assert_eq!(d.last_error(), DecoderError::NoError);
        assert_eq!(i.op0_register, register::CR0 + reg as u32);
    }
}

#[test]
fn lock_mov_cr0_is_mov_cr8() {
    let (i, d) = decode(32, &[0xF0, 0x0F, 0x22, 0xC0], DecoderOptions::NONE);
    assert_eq!(d.last_error(), DecoderError::NoError);
    assert_eq!(i.code, MOV_CR_R32);
    assert_eq!(i.op0_register, register::CR8);
    assert_eq!(i.op1_register, register::EAX);
    assert!(!i.has_lock_prefix);
    assert!(!d.state.flags.lock);
    assert_eq!(i.len, 4);
}

#[test]
fn lock_mov_from_cr0_is_mov_from_cr8() {
    let (i, d) = decode(32, &[0xF0, 0x0F, 0x20, 0xC1], DecoderOptions::NONE);
    assert_eq!(d.last_error(), DecoderError::NoError);
    assert_eq!(i.code, MOV_R32_CR);
    assert_eq!(i.op0_register, register::ECX);
    assert_eq!(i.op1_register, register::CR8);
    assert!(!i.has_lock_prefix);
}

#[test]
fn lock_mov_cr0_kept_when_option_set() {
    let options = DecoderOptions::NO_LOCK_MOV_CR0 | DecoderOptions::NO_INVALID_CHECK;
    let (i, d) = decode(32, &[0xF0, 0x0F, 0x22, 0xC0], options);
    assert_eq!(d.last_error(), DecoderError::NoError);
    assert_eq!(i.op0_register, register::CR0);
    assert!(i.has_lock_prefix);
    assert!(d.state.flags.lock);
}

#[test]
fn lock_mov_cr0_invalid_when_option_set_and_checked() {
    let (i, d) = decode(32, &[0xF0, 0x0F, 0x22, 0xC0], DecoderOptions::NO_LOCK_MOV_CR0);
    assert_eq!(d.last_error(), DecoderError::InvalidInstruction);
    assert_eq!(i.code, code::INVALID);
    assert_eq!(i.len, 4);
}

#[test]
fn f3_90_is_pause() {
    let (i, d) = decode(32, &[0xF3, 0x90], DecoderOptions::NONE);
    assert_eq!(d.last_error(), DecoderError::NoError);
    assert_eq!(i.code, code::Pause);
    assert!(!i.has_repe_prefix);
    assert_eq!(i.op0_register, register::NONE);
    assert_eq!(i.len, 2);
}

#[test]
fn f3_90_without_pause_is_xchg() {
    let (i, d) = decode(32, &[0xF3, 0x90], DecoderOptions::NO_PAUSE);
    assert_eq!(d.last_error(), DecoderError::NoError);
    assert_eq!(i.code, code::Nopd);
    assert_ne!(i.code, code::Pause);
    assert!(i.has_repe_prefix);
    assert_eq!(i.len, 2);
}

#[test]
fn plain_90_is_nop_in_each_size() {
    let (i, _) = decode(32, &[0x90], DecoderOptions::NONE);
    assert_eq!(i.code, code::Nopd);
    let (i, _) = decode(32, &[0x66, 0x90], DecoderOptions::NONE);
    assert_eq!(i.code, code::Nopw);
    let (i, _) = decode(64, &[0x48, 0x90], DecoderOptions::NONE);
    assert_eq!(i.code, code::Nopq);
}

#[test]
fn rex_b_makes_90_an_xchg_with_r8() {
    let (i, _) = decode(64, &[0x41, 0x90], DecoderOptions::NONE);
    assert_eq!(i.code, code::Xchg_r32_EAX);
    assert_eq!(i.op0_register, register::R8D);
    assert_eq!(i.op1_register, register::EAX);
}

#[test]
fn xchg_with_other_register() {
    let (i, _) = decode(16, &[0x91], DecoderOptions::NONE);
    assert_eq!(i.code, code::Xchg_r16_AX);
    assert_eq!(i.op0_register, register::CX);
    assert_eq!(i.op1_register, register::AX);
}

#[test]
fn branch_target_wraps_at_16_bits() {
    let mut decoder = Decoder::new(16, vec![0xEB, 0x04], DecoderOptions::NONE);
    decoder.set_ip(0xFFFC);
    let i = decoder.decode(&tables());
    assert_eq!(i.code, JMP_REL8_16);
    assert_eq!(i.op0_kind, OpKind::NearBranch16);
    assert_eq!(i.near_branch, 0x0002);
    assert_eq!(i.len, 2);
    assert!(decoder.state.flags.branch_imm8);
}

#[test]
fn branch_backwards_in_64_bit_mode() {
    let mut decoder = Decoder::new(64, vec![0xEB, 0xFE], DecoderOptions::NONE);
    decoder.set_ip(0x1000);
    let i = decoder.decode(&tables());
    assert_eq!(i.code, JMP_REL8_64);
    assert_eq!(i.op0_kind, OpKind::NearBranch64);
    assert_eq!(i.near_branch, 0x1000);
}

#[test]
fn branch_target_wraps_at_64_bits() {
    let mut decoder = Decoder::new(64, vec![0xE9, 0x10, 0x00, 0x00, 0x00], DecoderOptions::NONE);
    decoder.set_ip(0xFFFF_FFFF_FFFF_FFF8);
    let i = decoder.decode(&tables());
    assert_eq!(i.code, JMP_REL32_64);
    assert_eq!(i.near_branch, 0x0D);
    assert_eq!(i.next_ip, 0xFFFF_FFFF_FFFF_FFFD);
}

#[test]
fn branch_target_wraps_at_32_bits() {
    let mut decoder = Decoder::new(32, vec![0xE9, 0xFF, 0xFF, 0xFF, 0x7F], DecoderOptions::NONE);
    decoder.set_ip(0xFFFF_FFF0);
    let i = decoder.decode(&tables());
    assert_eq!(i.code, JMP_REL32_32);
    assert_eq!(i.op0_kind, OpKind::NearBranch32);
    assert_eq!(i.near_branch, 0x7FFF_FFF4);
}

#[test]
fn amd_branches_are_16_bits_wide_with_operand_size_prefix() {
    let mut decoder = Decoder::new(64, vec![0x66, 0xEB, 0x04], DecoderOptions::AMD_BRANCHES);
    decoder.set_ip(0x1_FFFB);
    let i = decoder.decode(&tables());
    assert_eq!(i.code, JMP_REL8_16);
    assert_eq!(i.op0_kind, OpKind::NearBranch16);
    assert_eq!(i.near_branch, 0x0002);
    let mut decoder = Decoder::new(64, vec![0x66, 0xEB, 0x04], DecoderOptions::NONE);
    decoder.set_ip(0x1_FFFB);
    let i = decoder.decode(&tables());
    assert_eq!(i.code, JMP_REL8_64);
    assert_eq!(i.near_branch, 0x2_0002);
}

#[test]
fn same_bytes_same_record() {
    let bytes = [0x66u8, 0x81, 0x84, 0x88, 0x78, 0x56, 0x34, 0x12, 0xCD, 0xAB];
    let t = tables();
    let mut first = Decoder::new(32, bytes.to_vec(), DecoderOptions::NONE);
    let a = first.decode(&t);
    let mut second = Decoder::new(32, bytes.to_vec(), DecoderOptions::NONE);
    let b = second.decode(&t);
    assert_eq!(a, b);
    assert!(first.set_position(0));
    first.set_ip(0);
    let c = first.decode(&t);
    assert_eq!(a, c);
    assert_eq!(a.code, ADD_RM16_IMM16);
    assert_eq!(a.immediate, 0xABCD);
    assert_eq!(a.memory_displacement, 0x1234_5678);
    assert_eq!(a.memory_base, register::EAX);
    assert_eq!(a.memory_index, register::ECX);
    assert_eq!(a.memory_index_scale, 2);
    assert_eq!(a.memory_displ_size, 3);
    assert_eq!(a.len, 10);
}

#[test]
fn record_does_not_depend_on_what_was_decoded_before() {
    let t = tables();
    let mut decoder = Decoder::new(64, vec![0xF0, 0x48, 0x01, 0x00, 0x01, 0xC0], DecoderOptions::NONE);
    let first = decoder.decode(&t);
    assert!(first.has_lock_prefix);
    assert_eq!(first.code, ADD_RM64_R64);
    let second = decoder.decode(&t);
    let mut fresh = Decoder::new(64, vec![0x01, 0xC0], DecoderOptions::NONE);
    fresh.set_ip(4);
    let alone = fresh.decode(&t);
    assert_eq!(second, alone);
    assert!(!second.has_lock_prefix);
    assert_eq!(second.code, ADD_RM32_R32);
}

#[test]
fn length_is_that_of_the_encoding_even_if_invalid() {
    let valid = decode(32, &[0xF0, 0x01, 0x84, 0x88, 0x78, 0x56, 0x34, 0x12], DecoderOptions::NONE);
    assert_eq!(valid.1.last_error(), DecoderError::NoError);
    assert_eq!(valid.0.len, 8);
    // The register form does not accept LOCK: invalid, but two bytes after the prefix.
    let invalid = decode(32, &[0xF0, 0x01, 0xC0, 0x90], DecoderOptions::NONE);
    assert_eq!(invalid.1.last_error(), DecoderError::InvalidInstruction);
    assert_eq!(invalid.0.len, 3);
    assert_eq!(invalid.1.position, 3);
    let unchecked = decode(32, &[0xF0, 0x01, 0xC0, 0x90], DecoderOptions::NO_INVALID_CHECK);
    assert_eq!(unchecked.1.last_error(), DecoderError::NoError);
    assert_eq!(unchecked.0.len, 3);
    assert_eq!(unchecked.0.code, ADD_RM32_R32);
}

#[test]
fn unknown_opcode_is_invalid_and_one_byte_long_after_its_modrm() {
    let (i, d) = decode(32, &[0x06, 0x00], DecoderOptions::NONE);
    assert_eq!(d.last_error(), DecoderError::InvalidInstruction);
    assert_eq!(i.code, code::INVALID);
    assert_eq!(i.len, 2);
}

#[test]
fn input_that_ends_inside_the_instruction() {
    let (i, d) = decode(32, &[0x81, 0x00, 0x01, 0x02], DecoderOptions::NONE);
    assert_eq!(d.last_error(), DecoderError::NoMoreBytes);
    assert_eq!(i.code, code::INVALID);
    assert_eq!(i.len, 4);
    assert_eq!(d.position, 4);
    assert!(!d.can_decode());
}

#[test]
fn empty_input() {
    let (i, d) = decode(64, &[], DecoderOptions::NONE);
    assert_eq!(d.last_error(), DecoderError::NoMoreBytes);
    assert_eq!(i.code, code::INVALID);
    assert_eq!(i.len, 0);
    assert_eq!(d.position, 0);
}

#[test]
fn more_than_fifteen_bytes_is_invalid_not_short() {
    let mut bytes = vec![0x66u8; 14];
    bytes.extend_from_slice(&[0x81, 0x00, 0x01, 0x02, 0x03, 0x04]);
    let (i, d) = decode(32, &bytes, DecoderOptions::NONE);
    assert_eq!(d.last_error(), DecoderError::InvalidInstruction);
    assert_eq!(i.code, code::INVALID);
    assert_eq!(i.len, 15);
    assert_eq!(d.position, 15);
}

#[test]
fn fifteen_prefixes_leave_no_opcode() {
    let bytes = vec![0x66u8; 20];
    let (i, d) = decode(32, &bytes, DecoderOptions::NONE);
    assert_eq!(d.last_error(), DecoderError::InvalidInstruction);
    assert_eq!(i.len, 15);
}

#[test]
fn rex_w_selects_64_bit_operands() {
    let (i, _) = decode(64, &[0x48, 0x01, 0xC8], DecoderOptions::NONE);
    assert_eq!(i.code, ADD_RM64_R64);
    assert_eq!(i.op0_register, register::RAX);
    assert_eq!(i.op1_register, register::RCX);
    assert_eq!(i.code_size, CodeSize::Code64);
}

#[test]
fn rex_r_and_b_extend_the_registers() {
    let (i, _) = decode(64, &[0x45, 0x01, 0xC8], DecoderOptions::NONE);
    assert_eq!(i.code, ADD_RM32_R32);
    assert_eq!(i.op0_register, register::R8D);
    assert_eq!(i.op1_register, register::R8D + 1);
}

#[test]
fn rex_before_another_prefix_is_dropped() {
    let (i, _) = decode(64, &[0x48, 0x66, 0x01, 0xC8], DecoderOptions::NONE);
    assert_eq!(i.code, ADD_RM16_R16);
    assert_eq!(i.op0_register, register::AX);
    assert_eq!(i.op1_register, register::CX);
}

#[test]
fn rex_is_an_opcode_outside_64_bit_mode() {
    let (i, d) = decode(32, &[0x48, 0x01, 0xC8], DecoderOptions::NONE);
    assert_eq!(d.last_error(), DecoderError::InvalidInstruction);
    assert_eq!(i.code, code::INVALID);
}

#[test]
fn operand_size_prefix_selects_16_bit_operands() {
    let (i, _) = decode(32, &[0x66, 0x01, 0xC8], DecoderOptions::NONE);
    assert_eq!(i.code, ADD_RM16_R16);
    assert_eq!(i.op0_register, register::AX);
    let (i, _) = decode(16, &[0x66, 0x01, 0xC8], DecoderOptions::NONE);
    assert_eq!(i.code, ADD_RM32_R32);
    assert_eq!(i.op0_register, register::EAX);
}

#[test]
fn immediate_follows_the_operand_size() {
    let (i, _) = decode(32, &[0x81, 0xC1, 0x78, 0x56, 0x34, 0x12], DecoderOptions::NONE);
    assert_eq!(i.code, ADD_RM32_IMM32);
    assert_eq!(i.op0_register, register::ECX);
    assert_eq!(i.op1_kind, OpKind::Immediate32);
    assert_eq!(i.immediate, 0x1234_5678);
    assert_eq!(i.len, 6);
    let (i, _) = decode(64, &[0x48, 0x81, 0xC1, 0x78, 0x56, 0x34, 0x92], DecoderOptions::NONE);
    assert_eq!(i.code, ADD_RM64_IMM32);
    assert_eq!(i.op1_kind, OpKind::Immediate32to64);
    assert_eq!(i.immediate, 0x9234_5678);
    assert_eq!(i.len, 7);
    let (i, _) = decode(16, &[0x81, 0xC1, 0x78, 0x56], DecoderOptions::NONE);
    assert_eq!(i.code, ADD_RM16_IMM16);
    assert_eq!(i.op1_kind, OpKind::Immediate16);
    assert_eq!(i.immediate, 0x5678);
    assert_eq!(i.len, 4);
}

#[test]
fn mov_r64_imm64_reads_low_then_high() {
    let bytes = [0x48, 0xB8, 0x01, 0x02, 0x03, 0x04, 0x05, 0x06, 0x07, 0x08];
    let (i, _) = decode(64, &bytes, DecoderOptions::NONE);
    assert_eq!(i.code, code::Mov_r64_imm64);
    assert_eq!(i.op0_register, register::RAX);
    assert_eq!(i.op1_kind, OpKind::Immediate64);
    assert_eq!(i.immediate, 0x0807_0605_0403_0201);
    assert_eq!(i.len, 10);
    let (i, _) = decode(64, &[0x41, 0xB8, 0x01, 0x02, 0x03, 0x04], DecoderOptions::NONE);
    assert_eq!(i.code, code::Mov_r32_imm32);
    assert_eq!(i.op0_register, register::R8D);
    assert_eq!(i.immediate, 0x0403_0201);
}

#[test]
fn rip_relative_operand() {
    let mut decoder = Decoder::new(64, vec![0x01, 0x05, 0x10, 0x00, 0x00, 0x00], DecoderOptions::NONE);
    decoder.set_ip(0x4000);
    let i = decoder.decode(&tables());
    assert_eq!(i.op0_kind, OpKind::Memory);
    assert_eq!(i.memory_base, register::RIP);
    assert_eq!(i.memory_displ_size, 4);
    assert_eq!(i.memory_displacement, 0x4016);
    assert_eq!(i.next_ip, 0x4006);
    assert_eq!(decoder.ip, 0x4006);
}

#[test]
fn eip_relative_operand_with_address_size_prefix() {
    let mut decoder = Decoder::new(64, vec![0x67, 0x01, 0x05, 0xF0, 0xFF, 0xFF, 0xFF], DecoderOptions::NONE);
    decoder.set_ip(0x10);
    let i = decoder.decode(&tables());
    assert_eq!(i.memory_base, register::EIP);
    assert_eq!(i.memory_displ_size, 3);
    assert_eq!(i.memory_displacement, 0x07);
}

#[test]
fn displacement_without_base_outside_64_bit_mode() {
    let (i, _) = decode(32, &[0x01, 0x05, 0x10, 0x20, 0x30, 0x40], DecoderOptions::NONE);
    assert_eq!(i.memory_base, register::NONE);
    assert_eq!(i.memory_displ_size, 3);
    assert_eq!(i.memory_displacement, 0x4030_2010);
}

#[test]
fn sixteen_bit_addressing() {
    let (i, _) = decode(16, &[0x01, 0x40, 0x80], DecoderOptions::NONE);
    assert_eq!(i.code, ADD_RM16_R16);
    assert_eq!(i.memory_base, register::BX);
    assert_eq!(i.memory_index, register::SI);
    assert_eq!(i.memory_displ_size, 1);
    assert_eq!(i.memory_displacement, 0xFF80);
    assert_eq!(i.len, 3);
    let (i, _) = decode(16, &[0x01, 0x06, 0x34, 0x12], DecoderOptions::NONE);
    assert_eq!(i.memory_base, register::NONE);
    assert_eq!(i.memory_index, register::NONE);
    assert_eq!(i.memory_displ_size, 2);
    assert_eq!(i.memory_displacement, 0x1234);
    let (i, _) = decode(16, &[0x01, 0x83, 0x34, 0x12], DecoderOptions::NONE);
    assert_eq!(i.memory_base, register::BP);
    assert_eq!(i.memory_index, register::DI);
    assert_eq!(i.memory_displacement, 0x1234);
    let (i, _) = decode(32, &[0x67, 0x01, 0x07], DecoderOptions::NONE);
    assert_eq!(i.memory_base, register::BX);
    assert_eq!(i.memory_index, register::NONE);
    assert_eq!(i.memory_displ_size, 0);
}

#[test]
fn sib_with_index_scale_and_displacement() {
    let (i, _) = decode(32, &[0x01, 0x44, 0x9D, 0x7F], DecoderOptions::NONE);
    assert_eq!(i.memory_base, register::EBP);
    assert_eq!(i.memory_index, register::EBX);
    assert_eq!(i.memory_index_scale, 2);
    assert_eq!(i.memory_displ_size, 1);
    assert_eq!(i.memory_displacement, 0x7F);
    assert_eq!(i.len, 4);
    let (i, _) = decode(32, &[0x01, 0x04, 0x25, 0x44, 0x33, 0x22, 0x11], DecoderOptions::NONE);
    assert_eq!(i.memory_base, register::NONE);
    assert_eq!(i.memory_index, register::NONE);
    assert_eq!(i.memory_displ_size, 3);
    assert_eq!(i.memory_displacement, 0x1122_3344);
    assert_eq!(i.len, 7);
    let (i, _) = decode(64, &[0x42, 0x01, 0x04, 0x20], DecoderOptions::NONE);
    assert_eq!(i.memory_base, register::RAX);
    assert_eq!(i.memory_index, register::R8 + 4);
    let (i, _) = decode(64, &[0x01, 0x84, 0x24, 0x00, 0x00, 0x00, 0x80], DecoderOptions::NONE);
    assert_eq!(i.memory_base, register::RSP);
    assert_eq!(i.memory_displ_size, 4);
    assert_eq!(i.memory_displacement, 0x8000_0000);
}

#[test]
fn negative_byte_displacement_is_sign_extended() {
    let (i, _) = decode(32, &[0x01, 0x40, 0xFE], DecoderOptions::NONE);
    assert_eq!(i.memory_base, register::EAX);
    assert_eq!(i.memory_displ_size, 1);
    assert_eq!(i.memory_displacement, 0xFFFF_FFFE);
}

#[test]
fn byte_registers_with_and_without_rex() {
    let (i, _) = decode(64, &[0x88, 0xE0], DecoderOptions::NONE);
    assert_eq!(i.code, MOV_RM8_R8);
    assert_eq!(i.op0_register, register::AL);
    assert_eq!(i.op1_register, register::AH);
    let (i, _) = decode(64, &[0x40, 0x88, 0xE0], DecoderOptions::NONE);
    assert_eq!(i.op0_register, register::AL);
    assert_eq!(i.op1_register, register::SPL);
    let (i, _) = decode(64, &[0x44, 0x88, 0xE7], DecoderOptions::NONE);
    assert_eq!(i.op0_register, register::DIL);
    assert_eq!(i.op1_register, register::R8L + 4);
}

#[test]
fn lock_prefix_on_memory_form_is_accepted() {
    let (i, d) = decode(32, &[0xF0, 0x01, 0x00], DecoderOptions::NONE);
    assert_eq!(d.last_error(), DecoderError::NoError);
    assert_eq!(i.code, ADD_RM32_R32);
    assert!(i.has_lock_prefix);
    assert!(d.state.flags.allow_lock);
}

#[test]
fn xacquire_and_xrelease() {
    let (i, d) = decode(32, &[0xF2, 0xF0, 0x01, 0x00], DecoderOptions::NONE);
    assert_eq!(d.last_error(), DecoderError::NoError);
    assert!(i.has_xacquire_prefix);
    assert!(!i.has_repne_prefix);
    assert!(i.has_lock_prefix);
    let (i, _) = decode(32, &[0xF3, 0xF0, 0x01, 0x00], DecoderOptions::NONE);
    assert!(i.has_xrelease_prefix);
    assert!(!i.has_repe_prefix);
    // Without LOCK the prefix stays what it is.
    let (i, _) = decode(32, &[0xF2, 0x01, 0x00], DecoderOptions::NONE);
    assert!(!i.has_xacquire_prefix);
    assert!(i.has_repne_prefix);
    // MOV takes XRELEASE without LOCK, and no XACQUIRE.
    let (i, _) = decode(32, &[0xF3, 0x88, 0x00], DecoderOptions::NONE);
    assert!(i.has_xrelease_prefix);
    assert!(!i.has_repe_prefix);
    let (i, _) = decode(32, &[0xF2, 0x88, 0x00], DecoderOptions::NONE);
    assert!(!i.has_xacquire_prefix);
    assert!(i.has_repne_prefix);
}

#[test]
fn segment_prefixes() {
    let (i, _) = decode(32, &[0x2E, 0x01, 0x00], DecoderOptions::NONE);
    assert_eq!(i.segment_prefix, register::CS);
    let (i, _) = decode(32, &[0x26, 0x65, 0x01, 0x00], DecoderOptions::NONE);
    assert_eq!(i.segment_prefix, register::GS);
    let (i, _) = decode(64, &[0x64, 0x3E, 0x01, 0x00], DecoderOptions::NONE);
    assert_eq!(i.segment_prefix, register::FS);
    let (i, _) = decode(32, &[0x64, 0x3E, 0x01, 0x00], DecoderOptions::NONE);
    assert_eq!(i.segment_prefix, register::DS);
    let (i, _) = decode(64, &[0x36, 0x01, 0x00], DecoderOptions::NONE);
    assert_eq!(i.segment_prefix, register::SS);
    let (i, _) = decode(64, &[0x01, 0x00], DecoderOptions::NONE);
    assert_eq!(i.segment_prefix, register::NONE);
}

#[test]
fn moffs_follows_the_address_size() {
    let bytes = [0xA1, 0x01, 0x02, 0x03, 0x04, 0x05, 0x06, 0x07, 0x08];
    let (i, d) = decode(64, &bytes, DecoderOptions::NONE);
    assert_eq!(i.code, MOV_EAX_MOFFS32);
    assert_eq!(i.op0_register, register::EAX);
    assert_eq!(i.op1_kind, OpKind::Memory64);
    assert_eq!(i.memory_address64, 0x0807_0605_0403_0201);
    assert_eq!(i.memory_displ_size, 4);
    assert_eq!(i.len, 9);
    assert!(d.state.flags.addr64);
    let (i, _) = decode(32, &bytes, DecoderOptions::NONE);
    assert_eq!(i.op1_kind, OpKind::Memory);
    assert_eq!(i.memory_displacement, 0x0403_0201);
    assert_eq!(i.memory_displ_size, 3);
    assert_eq!(i.len, 5);
    let (i, _) = decode(16, &bytes, DecoderOptions::NONE);
    assert_eq!(i.code, MOV_EAX_MOFFS16);
    assert_eq!(i.op0_register, register::AX);
    assert_eq!(i.memory_displacement, 0x0201);
    assert_eq!(i.memory_displ_size, 2);
    assert_eq!(i.len, 3);
}

#[test]
fn string_operands_follow_the_address_size() {
    let (i, _) = decode(64, &[0xA5], DecoderOptions::NONE);
    assert_eq!(i.code, MOVSD);
    assert_eq!(i.op0_kind, OpKind::MemoryESRDI);
    assert_eq!(i.op1_kind, OpKind::MemorySegRSI);
    assert_eq!(i.len, 1);
    let (i, _) = decode(64, &[0x67, 0x48, 0xA5], DecoderOptions::NONE);
    assert_eq!(i.code, MOVSQ);
    assert_eq!(i.op0_kind, OpKind::MemoryESEDI);
    assert_eq!(i.op1_kind, OpKind::MemorySegESI);
    let (i, _) = decode(16, &[0xA5], DecoderOptions::NONE);
    assert_eq!(i.code, MOVSW);
    assert_eq!(i.op0_kind, OpKind::MemoryESDI);
    assert_eq!(i.op1_kind, OpKind::MemorySegSI);
    let (i, _) = decode(16, &[0x67, 0xA5], DecoderOptions::NONE);
    assert_eq!(i.op0_kind, OpKind::MemoryESEDI);
}

#[test]
fn c5_is_lds_outside_64_bit_mode_with_a_memory_form() {
    let (i, d) = decode(32, &[0xC5, 0x08], DecoderOptions::NONE);
    assert_eq!(d.last_error(), DecoderError::NoError);
    assert_eq!(i.code, LDS_32);
    assert_eq!(i.op0_register, register::ECX);
    assert_eq!(i.op1_kind, OpKind::Memory);
    assert_eq!(i.memory_base, register::EAX);
    assert_eq!(i.len, 2);
}

#[test]
fn decoding_goes_on_after_an_invalid_instruction() {
    let t = tables();
    let mut decoder = Decoder::new(32, vec![0x0F, 0x22, 0xC8, 0x01, 0xC0], DecoderOptions::NONE);
    let first = decoder.decode(&t);
    assert_eq!(decoder.last_error(), DecoderError::InvalidInstruction);
    assert_eq!(first.len, 3);
    assert!(decoder.can_decode());
    let second = decoder.decode(&t);
    assert_eq!(decoder.last_error(), DecoderError::NoError);
    assert_eq!(second.code, ADD_RM32_R32);
    assert_eq!(second.len, 2);
    assert_eq!(second.next_ip, 5);
    assert!(!decoder.can_decode());
}

#[test]
fn decode_out_overwrites_the_record() {
    let t = tables();
    let mut decoder = Decoder::new(32, vec![0xF0, 0x01, 0x00, 0x90], DecoderOptions::NONE);
    let mut record = Instruction::new();
    decoder.decode_out(&t, &mut record);
    assert!(record.has_lock_prefix);
    assert_eq!(record.op0_kind, OpKind::Memory);
    decoder.decode_out(&t, &mut record);
    assert!(!record.has_lock_prefix);
    assert_eq!(record.op0_kind, OpKind::Register);
    assert_eq!(record.code, code::Nopd);
    assert_eq!(record.len, 1);
}
