//! Instruction identities that handlers name themselves.
//!
//! Most handlers are handed the identities they produce when the opcode table
//! is built.  The few below are fixed by the handler's own logic.
use vstd::prelude::*;

verus! {

/// The identity of an instruction that could not be decoded.
pub const INVALID: u32 = 0;
pub const Nopw: u32 = 0x1C0;
pub const Nopd: u32 = 0x1C1;
pub const Nopq: u32 = 0x1C2;
pub const Xchg_r16_AX: u32 = 0x1C3;
pub const Xchg_r32_EAX: u32 = 0x1C4;
pub const Xchg_r64_RAX: u32 = 0x1C5;
pub const Pause: u32 = 0x1C6;
pub const Mov_r8_imm8: u32 = 0x1EA;
pub const Mov_r16_imm16: u32 = 0x1EB;
pub const Mov_r32_imm32: u32 = 0x1EC;
pub const Mov_r64_imm64: u32 = 0x1ED;
pub const Wbinvd: u32 = 0x4B6;
pub const Wbnoinvd: u32 = 0x4B7;

} // verus!
