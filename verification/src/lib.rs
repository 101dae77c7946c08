//! Decoding core of an x86 / x86-64 disassembler.
//!
//! A [`decoder::Decoder`] reads one instruction at a time from a buffer of
//! bytes into an [`instruction::Instruction`].  The opcode selects a handler
//! in the [`tables::HandlerTables`]; selectors lead from there, by mandatory
//! prefix, vector length or option, to the one handler that extracts the
//! operands.  The tables are data: the caller builds them with
//! [`tables::HandlerTables::add`].
//!
//! Every handler states, as a specification function, the decoder and the
//! record that it leaves behind.  The building blocks of these statements
//! are in [`operand`]; [`laws`] holds what follows for decoding as a whole.
#![allow(non_camel_case_types)]
#![allow(non_upper_case_globals)]

pub mod arith;
pub mod enums;
pub mod register;
pub mod code;
pub mod options;
pub mod instruction;
pub mod decoder;
pub mod memory;
pub mod operand;
pub mod legacy_imm;
pub mod legacy_simple;
pub mod legacy_branch;
pub mod legacy_string;
pub mod legacy_ev;
pub mod legacy_gv;
pub mod legacy_eb;
pub mod legacy_simd;
pub mod legacy_mpx;
pub mod vex_basic;
pub mod vex_vvvv;
pub mod vex_mask;
pub mod selectors;
pub mod handlers;
pub mod tables;
pub mod builder;
pub mod decode;
pub mod laws;
pub mod strings;
