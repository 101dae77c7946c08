//! Handler tables: building them, and the selectors on the way to a handler.
use x86_decoder::builder::invalid_map;
use x86_decoder::code;
use x86_decoder::decode::DecoderError;
use x86_decoder::decoder::Decoder;
use x86_decoder::enums::{EncodingKind, MandatoryPrefixByte, OpKind, VectorLength};
use x86_decoder::handlers::OpCodeHandler;
use x86_decoder::instruction::Instruction;
use x86_decoder::legacy_ev::{EvHandler, OpCodeHandler_Ev};
use x86_decoder::legacy_imm::{ImmHandler, OpCodeHandler_Ib, OpCodeHandler_RegIb3};
use x86_decoder::legacy_simd::{OpCodeHandler_VW, OpCodeHandler_WV, SimdHandler};
use x86_decoder::legacy_simple::{OpCodeHandler_Simple2, OpCodeHandler_Simple4, SimpleHandler};
use x86_decoder::options::{DecoderOptions, LegacyHandlerFlags};
use x86_decoder::register;
use x86_decoder::selectors::{
    Next, OpCodeHandler_AnotherTable, OpCodeHandler_Invalid, OpCodeHandler_MandatoryPrefix,
    OpCodeHandler_MandatoryPrefix3, OpCodeHandler_MandatoryPrefix_F3_F2, OpCodeHandler_ReservedNop,
    OpCodeHandler_VEX2, OpCodeHandler_VEX3, OpCodeHandler_VectorLength_VEX, OpCodeHandler_XOP, OpCodeMap,
    INVALID_HANDLER,
};
use x86_decoder::tables::HandlerTables;
use x86_decoder::vex_basic::{OpCodeHandler_VEX_Simple, OpCodeHandler_VEX_VW, VexHandler};
use x86_decoder::vex_vvvv::{OpCodeHandler_VEX_VHW, VexVvvvHandler};

fn simple(code: u32) -> OpCodeHandler {
    OpCodeHandler::Simple(SimpleHandler::Simple4(OpCodeHandler_Simple4::new(code, code + 1)))
}

fn vector(code: u32) -> OpCodeHandler {
    OpCodeHandler::Simd(SimdHandler::VW(OpCodeHandler_VW::new(register::XMM0, code)))
}

fn vex_simple(code: u32) -> OpCodeHandler {
    OpCodeHandler::Vex(VexHandler::VEX_Simple(OpCodeHandler_VEX_Simple::new(code)))
}

fn add(tables: &mut HandlerTables, handler: OpCodeHandler) -> usize {
    tables.add(handler).expect("the handler fits the tables")
}

#[test]
fn new_tables_hold_the_invalid_handler() {
    let t = HandlerTables::new();
    assert_eq!(t.len(), 1);
    assert!(matches!(t.handlers[INVALID_HANDLER], OpCodeHandler::Invalid(_)));
    assert_eq!(t.legacy.len(), 256);
    assert!(t.legacy.iter().all(|&h| h == INVALID_HANDLER));
    assert_eq!(t.map(OpCodeMap::Vex0F38).len(), 256);
    assert_eq!(invalid_map(), vec![INVALID_HANDLER; 256]);
}

#[test]
fn handlers_are_added_in_order() {
    let mut t = HandlerTables::new();
    assert_eq!(t.add(simple(10)), Some(1));
    assert_eq!(t.add(simple(20)), Some(2));
    assert_eq!(t.len(), 3);
    assert!(t.check_entry(2, true));
    assert!(!t.check_entry(2, false));
    assert!(!t.check_entry(3, true));
    assert!(t.check_entry(0, true));
    assert!(t.check_entry(0, false));
}

#[test]
fn selector_must_follow_its_handlers() {
    let mut t = HandlerTables::new();
    let a = add(&mut t, simple(10));
    // Index 2 is where the selector itself would stand.
    let forward = OpCodeHandler::ReservedNop(OpCodeHandler_ReservedNop::new(a, 2));
    assert!(!t.check_fits(&forward));
    assert_eq!(t.add(forward), None);
    assert_eq!(t.len(), 2);
    let b = add(&mut t, simple(20));
    assert_eq!(t.add(OpCodeHandler::ReservedNop(OpCodeHandler_ReservedNop::new(a, b))), Some(3));
}

#[test]
fn selector_must_stay_in_its_encoding_family() {
    let mut t = HandlerTables::new();
    let legacy = add(&mut t, simple(10));
    let vex = add(&mut t, vex_simple(20));
    let mixed = OpCodeHandler::MandatoryPrefix(OpCodeHandler_MandatoryPrefix::new(false, legacy, legacy, vex, legacy));
    assert_eq!(t.add(mixed), None);
    let mixed = OpCodeHandler::VectorLength_VEX(OpCodeHandler_VectorLength_VEX::new(false, vex, legacy));
    assert_eq!(t.add(mixed), None);
    let fine = OpCodeHandler::VectorLength_VEX(OpCodeHandler_VectorLength_VEX::new(false, vex, vex));
    assert!(t.add(fine).is_some());
    assert!(!t.set_legacy(0x10, vex));
    assert_eq!(t.legacy[0x10], INVALID_HANDLER);
    assert!(t.set_legacy(0x10, legacy));
    assert_eq!(t.legacy[0x10], legacy);
    assert!(!t.set_legacy(0x11, 100));
    let mut map = invalid_map();
    map[0x77] = legacy;
    assert!(!t.set_map(OpCodeMap::Vex0F, map));
    assert_eq!(t.map(OpCodeMap::Vex0F)[0x77], INVALID_HANDLER);
    let mut map = invalid_map();
    map[0x77] = vex;
    assert!(t.set_map(OpCodeMap::Vex0F, map));
    assert_eq!(t.map(OpCodeMap::Vex0F)[0x77], vex);
    assert_eq!(t.map(OpCodeMap::Vex0F38)[0x77], INVALID_HANDLER);
    assert!(!t.set_map(OpCodeMap::Xop9, vec![0; 255]));
}

#[test]
fn selector_by_prefix_shares_the_modrm_byte() {
    let mut t = HandlerTables::new();
    let without = add(&mut t, simple(10));
    let with = add(&mut t, vector(20));
    let uneven = OpCodeHandler::MandatoryPrefix(OpCodeHandler_MandatoryPrefix::new(true, with, with, without, with));
    assert_eq!(t.add(uneven), None);
    let wrong = OpCodeHandler::MandatoryPrefix(OpCodeHandler_MandatoryPrefix::new(false, with, with, with, with));
    assert_eq!(t.add(wrong), None);
    let even = OpCodeHandler::MandatoryPrefix(OpCodeHandler_MandatoryPrefix::new(true, with, with, with, with));
    assert!(t.add(even).is_some());
    let needs_modrm = OpCodeHandler::MandatoryPrefix3(OpCodeHandler_MandatoryPrefix3::new(
        with, with, with, with, with, without, with, with, 0,
    ));
    assert_eq!(t.add(needs_modrm), None);
}

#[test]
fn handler_with_a_register_out_of_range_is_refused() {
    let mut t = HandlerTables::new();
    let bad = OpCodeHandler::Simd(SimdHandler::VW(OpCodeHandler_VW::new(register::COUNT, 1)));
    assert!(!bad.is_wf());
    assert_eq!(t.add(bad), None);
    let bad = OpCodeHandler::Imm(ImmHandler::RegIb3(OpCodeHandler_RegIb3::new(8)));
    assert_eq!(t.add(bad), None);
    let short = OpCodeHandler::AnotherTable(OpCodeHandler_AnotherTable::new(vec![0; 10]));
    assert_eq!(t.add(short), None);
    let good = OpCodeHandler::Imm(ImmHandler::RegIb3(OpCodeHandler_RegIb3::new(7)));
    assert!(t.add(good).is_some());
}

#[test]
fn mandatory_prefix_selects_exactly_its_slot() {
    let selector = OpCodeHandler_MandatoryPrefix::new(true, 11, 12, 13, 14);
    assert!(selector.has_modrm);
    assert_eq!(selector.handlers, [11, 12, 13, 14]);
    let mut d = Decoder::new(32, vec![], DecoderOptions::NONE);
    d.start();
    let cases = [
        (MandatoryPrefixByte::PNone, 11),
        (MandatoryPrefixByte::P66, 12),
        (MandatoryPrefixByte::PF3, 13),
        (MandatoryPrefixByte::PF2, 14),
    ];
    for (prefix, expected) in cases {
        d.state.mandatory_prefix = prefix;
        let mut i = Instruction::new();
        i.has_repe_prefix = true;
        i.has_repne_prefix = true;
        i.has_lock_prefix = true;
        assert_eq!(selector.decode(&d, &mut i), expected);
        assert!(!i.has_repe_prefix);
        assert!(!i.has_repne_prefix);
        assert!(i.has_lock_prefix);
    }
}

#[test]
fn mandatory_prefix_in_a_table() {
    let mut t = HandlerTables::new();
    let none = add(&mut t, vector(100));
    let p66 = add(&mut t, vector(200));
    let f3 = add(&mut t, vector(300));
    let f2 = add(&mut t, vector(400));
    let selector = add(
        &mut t,
        OpCodeHandler::MandatoryPrefix(OpCodeHandler_MandatoryPrefix::new(true, none, p66, f3, f2)),
    );
    let mut map = vec![INVALID_HANDLER; 256];
    map[0x10] = selector;
    let two_byte = add(&mut t, OpCodeHandler::AnotherTable(OpCodeHandler_AnotherTable::new(map)));
    assert!(t.set_legacy(0x0F, two_byte));
    let cases: [(&[u8], u32); 6] = [
        (&[0x0F, 0x10, 0xC1], 100),
        (&[0x66, 0x0F, 0x10, 0xC1], 200),
        (&[0xF3, 0x0F, 0x10, 0xC1], 300),
        (&[0xF2, 0x0F, 0x10, 0xC1], 400),
        (&[0x66, 0xF2, 0x0F, 0x10, 0xC1], 400),
        (&[0xF3, 0x66, 0x0F, 0x10, 0xC1], 300),
    ];
    for (bytes, code) in cases {
        let mut d = Decoder::new(32, bytes.to_vec(), DecoderOptions::NONE);
        let i = d.decode(&t);
        assert_eq!(d.last_error(), DecoderError::NoError);
        assert_eq!(i.code, code);
        assert_eq!(i.op0_register, register::XMM0);
        assert_eq!(i.op1_register, register::XMM0 + 1);
        assert!(!i.has_repe_prefix);
        assert!(!i.has_repne_prefix);
        assert_eq!(i.len as usize, bytes.len());
    }
}

#[test]
fn selector_by_form_and_prefix() {
    let flags = LegacyHandlerFlags::HANDLER_F3_REG | LegacyHandlerFlags::HANDLER_MEM;
    let selector = OpCodeHandler_MandatoryPrefix3::new(1, 2, 3, 4, 5, 6, 7, 8, flags);
    assert!(selector.has_modrm);
    assert_eq!(selector.handlers_reg, [1, 3, 5, 7]);
    assert_eq!(selector.handlers_mem, [2, 4, 6, 8]);
    assert_eq!(selector.clear_reg, [true, true, false, true]);
    assert_eq!(selector.clear_mem, [false, true, true, true]);
    let mut d = Decoder::new(32, vec![0xC0], DecoderOptions::NONE);
    d.start();
    d.read_modrm();
    d.state.mandatory_prefix = MandatoryPrefixByte::PF3;
    let mut i = Instruction::new();
    i.has_repe_prefix = true;
    assert_eq!(selector.decode(&d, &mut i), 5);
    assert!(i.has_repe_prefix);
    d.state.mandatory_prefix = MandatoryPrefixByte::PF2;
    i.has_repne_prefix = true;
    assert_eq!(selector.decode(&d, &mut i), 7);
    assert!(!i.has_repne_prefix);
    assert!(!i.has_repe_prefix);
    let mut d = Decoder::new(32, vec![0x00], DecoderOptions::NONE);
    d.start();
    d.read_modrm();
    let mut i = Instruction::new();
    i.has_repe_prefix = true;
    assert_eq!(selector.decode(&d, &mut i), 2);
    assert!(i.has_repe_prefix);
    d.state.mandatory_prefix = MandatoryPrefixByte::P66;
    assert_eq!(selector.decode(&d, &mut i), 4);
    assert!(!i.has_repe_prefix);
}

#[test]
fn selector_for_f3_and_f2() {
    let selector = OpCodeHandler_MandatoryPrefix_F3_F2::new(1, 2, true, 3, false);
    assert!(!selector.has_modrm);
    let mut d = Decoder::new(32, vec![], DecoderOptions::NONE);
    d.start();
    let mut i = Instruction::new();
    i.has_repe_prefix = true;
    i.has_repne_prefix = true;
    d.state.mandatory_prefix = MandatoryPrefixByte::P66;
    assert_eq!(selector.decode(&d, &mut i), 1);
    assert!(i.has_repe_prefix && i.has_repne_prefix);
    d.state.mandatory_prefix = MandatoryPrefixByte::PF2;
    assert_eq!(selector.decode(&d, &mut i), 3);
    assert!(i.has_repe_prefix && i.has_repne_prefix);
    d.state.mandatory_prefix = MandatoryPrefixByte::PF3;
    assert_eq!(selector.decode(&d, &mut i), 2);
    assert!(!i.has_repe_prefix && i.has_repne_prefix);
}

#[test]
fn f3_f2_selector_reads_the_modrm_byte_of_its_handler() {
    let mut t = HandlerTables::new();
    let plain = add(&mut t, OpCodeHandler::Simple(SimpleHandler::Simple2(OpCodeHandler_Simple2::new(1, 2, 3))));
    let with_modrm = add(&mut t, OpCodeHandler::Ev(EvHandler::Ev(OpCodeHandler_Ev::new(4, 5, 6, 0))));
    let selector = add(
        &mut t,
        OpCodeHandler::MandatoryPrefix_F3_F2(OpCodeHandler_MandatoryPrefix_F3_F2::new(
            plain, with_modrm, true, plain, false,
        )),
    );
    assert!(t.set_legacy(0x50, selector));
    let mut d = Decoder::new(32, vec![0x50, 0xC3], DecoderOptions::NONE);
    let i = d.decode(&t);
    assert_eq!((i.code, i.len), (2, 1));
    let mut d = Decoder::new(32, vec![0xF3, 0x50, 0xC3], DecoderOptions::NONE);
    let i = d.decode(&t);
    assert_eq!((i.code, i.len, i.op0_register), (5, 3, register::EBX));
    assert!(!i.has_repe_prefix);
    let mut d = Decoder::new(32, vec![0xF2, 0x50, 0xC3], DecoderOptions::NONE);
    let i = d.decode(&t);
    assert_eq!((i.code, i.len), (2, 2));
    assert!(i.has_repne_prefix);
}

#[test]
fn reserved_nop_by_option() {
    let selector = OpCodeHandler_ReservedNop::new(7, 9);
    assert!(selector.has_modrm);
    let d = Decoder::new(32, vec![], DecoderOptions::NONE);
    assert_eq!(selector.decode(&d), 9);
    let d = Decoder::new(32, vec![], DecoderOptions::FORCE_RESERVED_NOP);
    assert_eq!(selector.decode(&d), 7);
    let mut t = HandlerTables::new();
    let nop = add(&mut t, OpCodeHandler::Ev(EvHandler::Ev(OpCodeHandler_Ev::new(1, 2, 3, 0))));
    let other = add(&mut t, OpCodeHandler::Simd(SimdHandler::WV(OpCodeHandler_WV::new(register::XMM0, 50))));
    let selector = add(&mut t, OpCodeHandler::ReservedNop(OpCodeHandler_ReservedNop::new(nop, other)));
    assert!(t.set_legacy(0x1A, selector));
    let mut d = Decoder::new(32, vec![0x1A, 0xC1], DecoderOptions::NONE);
    let i = d.decode(&t);
    assert_eq!((i.code, i.op0_register, i.op1_register), (50, register::XMM0 + 1, register::XMM0));
    let mut d = Decoder::new(32, vec![0x1A, 0xC1], DecoderOptions::FORCE_RESERVED_NOP);
    let i = d.decode(&t);
    assert_eq!((i.code, i.op0_register), (2, register::ECX));
}

#[test]
fn another_table_reads_one_byte() {
    let mut map = vec![INVALID_HANDLER; 256];
    map[0xAB] = 77;
    let table = OpCodeHandler_AnotherTable::new(map);
    assert!(!table.has_modrm);
    assert!(table.is_wf());
    let mut d = Decoder::new(32, vec![0xAB, 0x01], DecoderOptions::NONE);
    d.start();
    assert_eq!(table.decode(&mut d), 77);
    assert_eq!(d.position, 1);
    assert_eq!(table.decode(&mut d), INVALID_HANDLER);
    assert_eq!(d.position, 2);
}

#[test]
fn invalid_handler_flags_the_instruction() {
    let mut d = Decoder::new(32, vec![0x01], DecoderOptions::NO_INVALID_CHECK);
    d.start();
    let mut i = Instruction::new();
    let before = i;
    OpCodeHandler_Invalid::new(false).decode(&mut d, &mut i);
    assert!(d.state.flags.is_invalid);
    assert!(!d.state.flags.no_more_bytes);
    assert_eq!(i, before);
    assert_eq!(d.position, 0);
    assert_eq!(d.last_error(), DecoderError::InvalidInstruction);
}

#[test]
fn vector_length_selects_its_slot() {
    let selector = OpCodeHandler_VectorLength_VEX::new(true, 5, 6);
    assert_eq!(selector.handlers, [5, 6, INVALID_HANDLER, INVALID_HANDLER]);
    let mut d = Decoder::new(64, vec![], DecoderOptions::NONE);
    d.start();
    d.state.encoding = EncodingKind::VEX;
    assert_eq!(selector.decode(&d), 5);
    d.state.vector_length = VectorLength::L256;
    assert_eq!(selector.decode(&d), 6);
    d.state.vector_length = VectorLength::L512;
    assert_eq!(selector.decode(&d), INVALID_HANDLER);
    d.state.vector_length = VectorLength::Unknown;
    assert_eq!(selector.decode(&d), INVALID_HANDLER);
}

/// Tables with `VZEROUPPER`/`VZEROALL` at VEX `0F 77`, a three-operand
/// instruction at VEX `0F38 40` and at XOP map 9 opcode `01`, and the legacy
/// instructions that share the bytes of the prefixes.
fn vex_tables() -> HandlerTables {
    let mut t = HandlerTables::new();
    let upper = add(&mut t, vex_simple(1000));
    let all = add(&mut t, vex_simple(1001));
    let by_length = add(
        &mut t,
        OpCodeHandler::VectorLength_VEX(OpCodeHandler_VectorLength_VEX::new(false, upper, all)),
    );
    let mut map = invalid_map();
    map[0x77] = by_length;
    assert!(t.set_map(OpCodeMap::Vex0F, map));
    let three = add(
        &mut t,
        OpCodeHandler::VexVvvv(VexVvvvHandler::VEX_VHW(OpCodeHandler_VEX_VHW::new1(
            register::XMM0,
            register::XMM0,
            register::XMM0,
            2000,
        ))),
    );
    let mut map = invalid_map();
    map[0x40] = three;
    assert!(t.set_map(OpCodeMap::Vex0F38, map));
    let two = add(
        &mut t,
        OpCodeHandler::Vex(VexHandler::VEX_VW(OpCodeHandler_VEX_VW::new(register::XMM0, register::XMM0, 3000))),
    );
    let mut map = invalid_map();
    map[0x01] = two;
    assert!(t.set_map(OpCodeMap::Xop9, map));
    let les = add(&mut t, vector(4000));
    let pop = add(&mut t, OpCodeHandler::Ev(EvHandler::Ev(OpCodeHandler_Ev::new(5000, 5001, 5002, 0))));
    let vex2 = add(&mut t, OpCodeHandler::VEX2(OpCodeHandler_VEX2::new(les)));
    let vex3 = add(&mut t, OpCodeHandler::VEX3(OpCodeHandler_VEX3::new(les)));
    let xop = add(&mut t, OpCodeHandler::XOP(OpCodeHandler_XOP::new(pop)));
    assert!(t.set_legacy(0xC5, vex2));
    assert!(t.set_legacy(0xC4, vex3));
    assert!(t.set_legacy(0x8F, xop));
    let ib = add(&mut t, OpCodeHandler::Imm(ImmHandler::Ib(OpCodeHandler_Ib::new(6000))));
    assert!(t.set_legacy(0x6A, ib));
    t
}

#[test]
fn two_byte_vex_prefix() {
    let t = vex_tables();
    let mut d = Decoder::new(64, vec![0xC5, 0xF8, 0x77], DecoderOptions::NONE);
    let i = d.decode(&t);
    assert_eq!(d.last_error(), DecoderError::NoError);
    assert_eq!((i.code, i.len), (1000, 3));
    assert_eq!(d.state.encoding, EncodingKind::VEX);
    assert_eq!(d.state.vector_length, VectorLength::L128);
    let mut d = Decoder::new(64, vec![0xC5, 0xFC, 0x77], DecoderOptions::NONE);
    let i = d.decode(&t);
    assert_eq!((i.code, i.len), (1001, 3));
    assert_eq!(d.state.vector_length, VectorLength::L256);
    // The prefix works outside 64-bit mode too, where the byte is a register form.
    let mut d = Decoder::new(32, vec![0xC5, 0xF8, 0x77], DecoderOptions::NONE);
    let i = d.decode(&t);
    assert_eq!((i.code, d.last_error()), (1000, DecoderError::NoError));
    // A register in vvvv makes an instruction without that operand invalid.
    let mut d = Decoder::new(64, vec![0xC5, 0xB8, 0x77], DecoderOptions::NONE);
    let i = d.decode(&t);
    assert_eq!((i.code, i.len, d.last_error()), (code::INVALID, 3, DecoderError::InvalidInstruction));
    assert_eq!(d.state.vvvv, 8);
    // So does a prefix before the VEX prefix.
    let mut d = Decoder::new(64, vec![0x66, 0xC5, 0xF8, 0x77], DecoderOptions::NONE);
    let i = d.decode(&t);
    assert_eq!((i.len, d.last_error()), (4, DecoderError::InvalidInstruction));
    let mut d = Decoder::new(64, vec![0x66, 0xC5, 0xF8, 0x77], DecoderOptions::NO_INVALID_CHECK);
    let i = d.decode(&t);
    assert_eq!((i.code, i.len, d.last_error()), (1000, 4, DecoderError::NoError));
    // An opcode that the map does not have.
    let mut d = Decoder::new(64, vec![0xC5, 0xF8, 0x78, 0x00], DecoderOptions::NONE);
    let i = d.decode(&t);
    assert_eq!((i.len, d.last_error()), (4, DecoderError::InvalidInstruction));
}

#[test]
fn two_byte_vex_prefix_fields() {
    let t = vex_tables();
    // R is clear (inverted: set), vvvv is 5, L is set, pp is F2.
    let mut d = Decoder::new(64, vec![0xC5, 0x57, 0x77], DecoderOptions::NO_INVALID_CHECK);
    let i = d.decode(&t);
    assert_eq!(i.code, 1001);
    assert_eq!(d.state.extra_register_base, 8);
    assert_eq!(d.state.extra_index_register_base, 0);
    assert_eq!(d.state.extra_base_register_base, 0);
    assert_eq!(d.state.vvvv, 5);
    assert_eq!(d.state.vector_length, VectorLength::L256);
    assert_eq!(d.state.mandatory_prefix, MandatoryPrefixByte::PF2);
    assert!(!d.state.flags.w);
}

#[test]
fn three_byte_vex_prefix() {
    let t = vex_tables();
    let mut d = Decoder::new(64, vec![0xC4, 0xE1, 0x78, 0x77], DecoderOptions::NONE);
    let i = d.decode(&t);
    assert_eq!((i.code, i.len, d.last_error()), (1000, 4, DecoderError::NoError));
    // Map 0F38, R X B clear, W set, vvvv 2, register form xmm1, xmm2, xmm3.
    let mut d = Decoder::new(64, vec![0xC4, 0xE2, 0xE8, 0x40, 0xCB], DecoderOptions::NONE);
    let i = d.decode(&t);
    assert_eq!((i.code, i.len, d.last_error()), (2000, 5, DecoderError::NoError));
    assert_eq!((i.op0_register, i.op1_register, i.op2_register), (register::XMM0 + 1, register::XMM0 + 2, register::XMM0 + 3));
    assert!(d.state.flags.w);
    // All three extension bits and vvvv 15.
    let mut d = Decoder::new(64, vec![0xC4, 0x02, 0x00, 0x40, 0xCB], DecoderOptions::NONE);
    let i = d.decode(&t);
    assert_eq!((i.op0_register, i.op1_register, i.op2_register), (register::XMM0 + 9, register::XMM0 + 15, register::XMM0 + 11));
    assert_eq!(d.state.extra_index_register_base, 8);
    // Outside 64-bit mode there are eight registers.
    let mut d = Decoder::new(32, vec![0xC4, 0xC2, 0x00, 0x40, 0xCB], DecoderOptions::NONE);
    let i = d.decode(&t);
    assert_eq!((i.code, d.last_error()), (2000, DecoderError::NoError));
    assert_eq!((i.op0_register, i.op1_register, i.op2_register), (register::XMM0 + 1, register::XMM0 + 7, register::XMM0 + 3));
    // A map that does not exist.
    let mut d = Decoder::new(64, vec![0xC4, 0xE4, 0x78, 0x77], DecoderOptions::NONE);
    let i = d.decode(&t);
    assert_eq!((i.code, i.len, d.last_error()), (code::INVALID, 3, DecoderError::InvalidInstruction));
    // The byte is LES outside 64-bit mode if a memory form follows.
    let mut d = Decoder::new(32, vec![0xC4, 0x0A], DecoderOptions::NONE);
    let i = d.decode(&t);
    assert_eq!((i.code, i.len, d.last_error()), (4000, 2, DecoderError::NoError));
    assert_eq!((i.op0_register, i.op1_kind, i.memory_base), (register::XMM0 + 1, OpKind::Memory, register::EDX));
    assert_eq!(d.state.encoding, EncodingKind::Legacy);
}

#[test]
fn xop_prefix() {
    let t = vex_tables();
    // Map 9, vvvv 0, opcode 01, register form.
    let mut d = Decoder::new(64, vec![0x8F, 0xE9, 0x78, 0x01, 0xCA], DecoderOptions::NONE);
    let i = d.decode(&t);
    assert_eq!((i.code, i.len, d.last_error()), (3000, 5, DecoderError::NoError));
    assert_eq!((i.op0_register, i.op1_register), (register::XMM0 + 1, register::XMM0 + 2));
    assert_eq!(d.state.encoding, EncodingKind::XOP);
    // The prefix works outside 64-bit mode too, where the byte is a register form.
    let mut d = Decoder::new(32, vec![0x8F, 0xE9, 0x78, 0x01, 0xCA], DecoderOptions::NONE);
    let i = d.decode(&t);
    assert_eq!((i.code, i.len, d.last_error()), (3000, 5, DecoderError::NoError));
    assert_eq!(d.state.encoding, EncodingKind::XOP);
    // Outside 64-bit mode a memory form is the legacy POP, whatever its low bits.
    let mut d = Decoder::new(32, vec![0x8F, 0x01], DecoderOptions::NONE);
    let i = d.decode(&t);
    assert_eq!((i.code, i.len, d.last_error()), (5001, 2, DecoderError::NoError));
    assert_eq!((i.op0_kind, i.memory_base), (OpKind::Memory, register::ECX));
    assert_eq!(d.state.encoding, EncodingKind::Legacy);
    let mut d = Decoder::new(32, vec![0x8F, 0x29], DecoderOptions::NONE);
    let i = d.decode(&t);
    assert_eq!((i.code, i.len, d.last_error()), (5001, 2, DecoderError::NoError));
    assert_eq!(d.state.encoding, EncodingKind::Legacy);
    // A register form is the prefix: one that names a map below 8 is invalid.
    let mut d = Decoder::new(32, vec![0x8F, 0xC1, 0x78, 0x01], DecoderOptions::NONE);
    let i = d.decode(&t);
    assert_eq!((i.code, i.len, d.last_error()), (code::INVALID, 3, DecoderError::InvalidInstruction));
    assert_eq!(d.state.encoding, EncodingKind::XOP);
    // In 64-bit mode every form is the prefix.
    let mut d = Decoder::new(64, vec![0x8F, 0xC1, 0x78, 0x01], DecoderOptions::NONE);
    let i = d.decode(&t);
    assert_eq!((i.code, i.len, d.last_error()), (code::INVALID, 3, DecoderError::InvalidInstruction));
    let mut d = Decoder::new(64, vec![0x8F, 0x01, 0x78, 0x01], DecoderOptions::NONE);
    let i = d.decode(&t);
    assert_eq!((i.code, i.len, d.last_error()), (code::INVALID, 3, DecoderError::InvalidInstruction));
    assert_eq!(d.state.encoding, EncodingKind::XOP);
    let mut d = Decoder::new(64, vec![0x8F, 0x09, 0x78, 0x01, 0xCA], DecoderOptions::NONE);
    let i = d.decode(&t);
    assert_eq!((i.code, i.len, d.last_error()), (3000, 5, DecoderError::NoError));
    // A map above 10 does not exist.
    let mut d = Decoder::new(64, vec![0x8F, 0xEB, 0x78, 0x01], DecoderOptions::NONE);
    let i = d.decode(&t);
    assert_eq!((i.code, i.len, d.last_error()), (code::INVALID, 3, DecoderError::InvalidInstruction));
    // Map 8 exists and is empty here.
    let mut d = Decoder::new(64, vec![0x8F, 0xE8, 0x78, 0x01, 0xCA], DecoderOptions::NONE);
    let i = d.decode(&t);
    assert_eq!((i.code, i.len, d.last_error()), (code::INVALID, 5, DecoderError::InvalidInstruction));
}

#[test]
fn escape_handlers_name_what_runs_next() {
    let vex2 = OpCodeHandler_VEX2::new(9);
    assert!(vex2.has_modrm);
    let mut d = Decoder::new(32, vec![0x08], DecoderOptions::NONE);
    d.start();
    d.read_modrm();
    assert_eq!(vex2.decode(&mut d), Next::Handler(9));
    assert_eq!(d.state.encoding, EncodingKind::Legacy);
    let mut d = Decoder::new(64, vec![0x08], DecoderOptions::NONE);
    d.start();
    d.read_modrm();
    assert_eq!(vex2.decode(&mut d), Next::Lookup(OpCodeMap::Vex0F));
    assert_eq!(d.state.encoding, EncodingKind::VEX);
    let vex3 = OpCodeHandler_VEX3::new(9);
    for (byte, next) in [
        (0xE1u8, Next::Lookup(OpCodeMap::Vex0F)),
        (0xE2, Next::Lookup(OpCodeMap::Vex0F38)),
        (0xE3, Next::Lookup(OpCodeMap::Vex0F3A)),
        (0xE0, Next::Done),
        (0xFF, Next::Done),
    ] {
        let mut d = Decoder::new(32, vec![byte, 0x78], DecoderOptions::NONE);
        d.start();
        d.read_modrm();
        assert_eq!(vex3.decode(&mut d), next);
        assert_eq!(d.state.flags.is_invalid, next == Next::Done);
        assert_eq!(d.position, 2);
    }
    let xop = OpCodeHandler_XOP::new(9);
    assert!(xop.has_modrm);
    for (bitness, byte, next) in [
        (32u32, 0xE8u8, Next::Lookup(OpCodeMap::Xop8)),
        (32, 0xE9, Next::Lookup(OpCodeMap::Xop9)),
        (32, 0xEA, Next::Lookup(OpCodeMap::XopA)),
        (32, 0xEB, Next::Done),
        (32, 0xE7, Next::Done),
        (32, 0xC0, Next::Done),
        (32, 0x00, Next::Handler(9)),
        (32, 0x28, Next::Handler(9)),
        (32, 0xA9, Next::Handler(9)),
        (16, 0x69, Next::Handler(9)),
        (16, 0xE9, Next::Lookup(OpCodeMap::Xop9)),
        (64, 0x00, Next::Done),
        (64, 0x07, Next::Done),
        (64, 0x28, Next::Lookup(OpCodeMap::Xop8)),
        (64, 0x69, Next::Lookup(OpCodeMap::Xop9)),
        (64, 0xAA, Next::Lookup(OpCodeMap::XopA)),
        (64, 0x2B, Next::Done),
    ] {
        let mut d = Decoder::new(bitness, vec![byte, 0x78], DecoderOptions::NONE);
        d.start();
        d.read_modrm();
        assert_eq!(xop.decode(&mut d), next);
        match next {
            Next::Handler(_) => {
                assert_eq!(d.state.encoding, EncodingKind::Legacy);
                assert_eq!(d.position, 1);
                assert!(!d.state.flags.is_invalid);
            }
            _ => {
                assert_eq!(d.state.encoding, EncodingKind::XOP);
                assert_eq!(d.position, 2);
                assert_eq!(d.state.flags.is_invalid, next == Next::Done);
            }
        }
    }
}

#[test]
fn handler_kinds() {
    assert!(simple(1).accepts(true));
    assert!(!simple(1).accepts(false));
    assert!(vex_simple(1).accepts(false));
    assert!(!vex_simple(1).accepts(true));
    assert!(!simple(1).is_selector());
    assert!(!simple(1).has_modrm());
    assert!(vector(1).has_modrm());
    let selector = OpCodeHandler::VEX2(OpCodeHandler_VEX2::new(0));
    assert!(selector.is_selector());
    assert!(selector.accepts(true));
    assert!(selector.has_modrm());
    let invalid = OpCodeHandler::Invalid(OpCodeHandler_Invalid::new(false));
    assert!(invalid.accepts(true) && invalid.accepts(false));
    assert!(!invalid.has_modrm());
}

#[test]
fn run_follows_the_selectors_to_one_handler() {
    let mut t = HandlerTables::new();
    let a = add(&mut t, vector(10));
    let b = add(&mut t, vector(20));
    let inner = add(
        &mut t,
        OpCodeHandler::MandatoryPrefix(OpCodeHandler_MandatoryPrefix::new(true, a, a, b, a)),
    );
    let c = add(&mut t, vector(30));
    let outer = add(&mut t, OpCodeHandler::ReservedNop(OpCodeHandler_ReservedNop::new(inner, c)));
    let mut d = Decoder::new(32, vec![0xC0], DecoderOptions::NONE);
    d.start();
    d.read_modrm();
    let mut i = Instruction::new();
    t.run(true, outer, &mut d, &mut i);
    assert_eq!(i.code, 30);
    d.options = DecoderOptions::FORCE_RESERVED_NOP;
    let mut i = Instruction::new();
    t.run(true, outer, &mut d, &mut i);
    assert_eq!(i.code, 10);
    d.state.mandatory_prefix = MandatoryPrefixByte::PF3;
    let mut i = Instruction::new();
    i.has_repe_prefix = true;
    t.run(true, outer, &mut d, &mut i);
    assert_eq!(i.code, 20);
    assert!(!i.has_repe_prefix);
    assert_eq!(d.position, 1);
}

#[test]
fn tables_built_step_by_step_are_well_formed() {
    assert!(HandlerTables::new().is_wf());
    assert!(vex_tables().is_wf());
    let mut t = HandlerTables::new();
    let a = add(&mut t, vector(10));
    let b = add(&mut t, vector(20));
    let selector = add(
        &mut t,
        OpCodeHandler::MandatoryPrefix(OpCodeHandler_MandatoryPrefix::new(true, a, a, b, a)),
    );
    assert!(t.set_legacy(0x10, selector));
    assert!(t.is_wf());
    assert!(t.check_handlers());
}

#[test]
fn tables_written_by_hand_are_tested() {
    // An entry that names no handler.
    let mut t = vex_tables();
    t.legacy[0x33] = t.len();
    assert!(!t.is_wf());
    // A map that is too short.
    let mut t = vex_tables();
    t.xop9.pop();
    assert!(!t.is_wf());
    // A VEX handler in the table of one-byte opcodes.
    let mut t = vex_tables();
    t.legacy[0x33] = 1;
    assert!(!t.is_wf());
    // A legacy handler in a VEX map.
    let mut t = vex_tables();
    let legacy = add(&mut t, simple(1));
    t.vex_0f3a[0] = legacy;
    assert!(!t.is_wf());
    // No handler at all, and a first handler that is not the invalid one.
    let mut t = HandlerTables::new();
    t.handlers.clear();
    assert!(!t.is_wf());
    let mut t = HandlerTables::new();
    t.handlers[0] = simple(1);
    assert!(!t.is_wf());
    // A selector that names itself, and one that names a later handler.
    let mut t = HandlerTables::new();
    t.handlers.push(OpCodeHandler::ReservedNop(OpCodeHandler_ReservedNop::new(1, 0)));
    assert!(!t.check_handlers());
    assert!(!t.is_wf());
    let mut t = HandlerTables::new();
    t.handlers.push(OpCodeHandler::ReservedNop(OpCodeHandler_ReservedNop::new(2, 0)));
    t.handlers.push(simple(1));
    assert!(!t.is_wf());
    // The same two the other way round are in order.
    let mut t = HandlerTables::new();
    t.handlers.push(simple(1));
    t.handlers.push(OpCodeHandler::ReservedNop(OpCodeHandler_ReservedNop::new(1, 0)));
    assert!(t.is_wf());
    // A handler whose own parameters are out of range.
    let mut t = HandlerTables::new();
    t.handlers.push(vector(1));
    assert!(t.is_wf());
    t.handlers.push(OpCodeHandler::Simd(SimdHandler::VW(OpCodeHandler_VW::new(register::COUNT, 1))));
    assert!(!t.is_wf());
}

#[test]
fn fit_before_a_place() {
    let mut t = HandlerTables::new();
    let a = add(&mut t, simple(1));
    let b = add(&mut t, simple(2));
    let selector = OpCodeHandler::ReservedNop(OpCodeHandler_ReservedNop::new(a, b));
    assert!(t.check_fits(&selector));
    assert!(t.check_fits_before(&selector, 3));
    assert!(!t.check_fits_before(&selector, 2));
    assert!(!t.check_fits_before(&selector, 4));
    assert!(t.check_entry_before(a, true, 2));
    assert!(!t.check_entry_before(a, true, 1));
    assert!(!t.check_entry_before(a, false, 2));
    assert!(t.check_four_before(&[a, b, a, 0], true, 3));
    assert!(!t.check_four_before(&[a, b, a, 0], true, 2));
    let mut map = invalid_map();
    map[7] = b;
    assert!(t.check_map_before(&map, true, 3));
    assert!(!t.check_map_before(&map, true, 2));
    assert!(!t.check_map_before(&map, false, 3));
}
