//! Legacy handlers of the bounds instructions.
//!
//! There are four bound registers: a reg or rm field above 3, and an
//! extension bit where invalid encodings are checked for, make the
//! instruction invalid.
use vstd::prelude::*;
use crate::decoder::{Decoder, State};
use crate::enums::{EncodingKind};
use crate::instruction::Instruction;
use crate::operand::{Decoded};
use crate::register;

verus! {

/// `bnd, mib`.  The opcode table uses the handler for the memory form
/// only.  A base of RIP is invalid, where invalid encodings are checked for.
#[derive(Clone, Copy, Debug, PartialEq, Eq, Structural)]
pub struct OpCodeHandler_B_MIB {
    pub has_modrm: bool,
    pub code: u32,
}

impl OpCodeHandler_B_MIB {
    /// A handler that yields `code`.
    pub fn new(code: u32) -> (handler: Self)
        ensures
            handler == (Self { has_modrm: true, code }),
    {
        Self { has_modrm: true, code }
    }

    /// Decoder and record as [`Self::decode`] leaves them.
    #[verifier::opaque]
    pub open spec fn spec_decode(&self, d: Decoder, i: Instruction) -> Decoded {
        let state = d.state;
        let check = d.invalid_check;
        Decoded::at(d, i)
            .invalid_if(state.reg > 3 || (check && state.extra_register_base != 0))
            .code(self.code)
            .op_register(0, register::offset(register::BND0, state.reg))
            .op_mem_mpx_any(1)
            .invalid_if_rip_base()
    }

    /// Decodes the operands of the instruction into `instruction`.
    pub fn decode(&self, decoder: &mut Decoder, instruction: &mut Instruction)
        requires
            old(decoder).wf(),
            old(decoder).state.encoding == EncodingKind::Legacy,
        ensures
            *final(decoder) == self.spec_decode(*old(decoder), *old(instruction)).decoder,
            *final(instruction) == self.spec_decode(
                *old(decoder),
                *old(instruction),
            ).instruction,
            final(decoder).wf(),
            final(decoder).frame() == old(decoder).frame(),
    {
        reveal(OpCodeHandler_B_MIB::spec_decode);
        let state: State = decoder.state;
        let check: bool = decoder.invalid_check;
        decoder.set_invalid_instruction_if(
            state.reg > 3 || (check && state.extra_register_base != 0),
        );
        instruction.set_code(self.code);
        instruction.set_op0_register(register::offset(register::BND0, state.reg));
        decoder.op_mem_mpx_any(instruction, 1);
        decoder.invalid_if_rip_base(instruction);
    }
}

/// `mib, bnd`.  The opcode table uses the handler for the memory form
/// only.  A base of RIP is invalid, where invalid encodings are checked for.
#[derive(Clone, Copy, Debug, PartialEq, Eq, Structural)]
pub struct OpCodeHandler_MIB_B {
    pub has_modrm: bool,
    pub code: u32,
}

impl OpCodeHandler_MIB_B {
    /// A handler that yields `code`.
    pub fn new(code: u32) -> (handler: Self)
        ensures
            handler == (Self { has_modrm: true, code }),
    {
        Self { has_modrm: true, code }
    }

    /// Decoder and record as [`Self::decode`] leaves them.
    #[verifier::opaque]
    pub open spec fn spec_decode(&self, d: Decoder, i: Instruction) -> Decoded {
        let state = d.state;
        let check = d.invalid_check;
        Decoded::at(d, i)
            .invalid_if(state.reg > 3 || (check && state.extra_register_base != 0))
            .code(self.code)
            .op_mem_mpx_any(0)
            .invalid_if_rip_base()
            .op_register(1, register::offset(register::BND0, state.reg))
    }

    /// Decodes the operands of the instruction into `instruction`.
    pub fn decode(&self, decoder: &mut Decoder, instruction: &mut Instruction)
        requires
            old(decoder).wf(),
            old(decoder).state.encoding == EncodingKind::Legacy,
        ensures
            *final(decoder) == self.spec_decode(*old(decoder), *old(instruction)).decoder,
            *final(instruction) == self.spec_decode(
                *old(decoder),
                *old(instruction),
            ).instruction,
            final(decoder).wf(),
            final(decoder).frame() == old(decoder).frame(),
    {
        reveal(OpCodeHandler_MIB_B::spec_decode);
        let state: State = decoder.state;
        let check: bool = decoder.invalid_check;
        decoder.set_invalid_instruction_if(
            state.reg > 3 || (check && state.extra_register_base != 0),
        );
        instruction.set_code(self.code);
        decoder.op_mem_mpx_any(instruction, 0);
        decoder.invalid_if_rip_base(instruction);
        instruction.set_op1_register(register::offset(register::BND0, state.reg));
    }
}

/// `bnd, bnd/m`.
#[derive(Clone, Copy, Debug, PartialEq, Eq, Structural)]
pub struct OpCodeHandler_B_BM {
    pub has_modrm: bool,
    pub code32: u32,
    pub code64: u32,
}

impl OpCodeHandler_B_BM {
    /// A handler that yields `code64` in 64-bit mode, else `code32`.
    pub fn new(code32: u32, code64: u32) -> (handler: Self)
        ensures
            handler == (Self { has_modrm: true, code32, code64 }),
    {
        Self { has_modrm: true, code32, code64 }
    }

    /// Decoder and record as [`Self::decode`] leaves them.
    #[verifier::opaque]
    pub open spec fn spec_decode(&self, d: Decoder, i: Instruction) -> Decoded {
        let state = d.state;
        let is64_mode = d.is64_mode;
        let check = d.invalid_check;
        Decoded::at(d, i)
            .invalid_if(
                state.reg > 3
                    || state.rm > 3
                    || (check && (state.extra_register_base != 0 || state.extra_base_register_base != 0)),
            )
            .code(if is64_mode { self.code64 } else { self.code32 })
            .op_register(0, register::offset(register::BND0, state.reg))
            .op_rm_mpx(1, register::offset(register::BND0, state.rm))
    }

    /// Decodes the operands of the instruction into `instruction`.
    pub fn decode(&self, decoder: &mut Decoder, instruction: &mut Instruction)
        requires
            old(decoder).wf(),
            old(decoder).state.encoding == EncodingKind::Legacy,
        ensures
            *final(decoder) == self.spec_decode(*old(decoder), *old(instruction)).decoder,
            *final(instruction) == self.spec_decode(
                *old(decoder),
                *old(instruction),
            ).instruction,
            final(decoder).wf(),
            final(decoder).frame() == old(decoder).frame(),
    {
        reveal(OpCodeHandler_B_BM::spec_decode);
        let state: State = decoder.state;
        let is64_mode: bool = decoder.is64_mode;
        let check: bool = decoder.invalid_check;
        decoder.set_invalid_instruction_if(
            state.reg > 3
                || state.rm > 3
                || (check && (state.extra_register_base != 0 || state.extra_base_register_base != 0)),
        );
        instruction.set_code(if is64_mode { self.code64 } else { self.code32 });
        instruction.set_op0_register(register::offset(register::BND0, state.reg));
        decoder.op_rm_mpx(instruction, 1, register::offset(register::BND0, state.rm));
    }
}

/// `bnd/m, bnd`.
#[derive(Clone, Copy, Debug, PartialEq, Eq, Structural)]
pub struct OpCodeHandler_BM_B {
    pub has_modrm: bool,
    pub code32: u32,
    pub code64: u32,
}

impl OpCodeHandler_BM_B {
    /// A handler that yields `code64` in 64-bit mode, else `code32`.
    pub fn new(code32: u32, code64: u32) -> (handler: Self)
        ensures
            handler == (Self { has_modrm: true, code32, code64 }),
    {
        Self { has_modrm: true, code32, code64 }
    }

    /// Decoder and record as [`Self::decode`] leaves them.
    #[verifier::opaque]
    pub open spec fn spec_decode(&self, d: Decoder, i: Instruction) -> Decoded {
        let state = d.state;
        let is64_mode = d.is64_mode;
        let check = d.invalid_check;
        Decoded::at(d, i)
            .invalid_if(
                state.reg > 3
                    || state.rm > 3
                    || (check && (state.extra_register_base != 0 || state.extra_base_register_base != 0)),
            )
            .code(if is64_mode { self.code64 } else { self.code32 })
            .op_rm_mpx(0, register::offset(register::BND0, state.rm))
            .op_register(1, register::offset(register::BND0, state.reg))
    }

    /// Decodes the operands of the instruction into `instruction`.
    pub fn decode(&self, decoder: &mut Decoder, instruction: &mut Instruction)
        requires
            old(decoder).wf(),
            old(decoder).state.encoding == EncodingKind::Legacy,
        ensures
            *final(decoder) == self.spec_decode(*old(decoder), *old(instruction)).decoder,
            *final(instruction) == self.spec_decode(
                *old(decoder),
                *old(instruction),
            ).instruction,
            final(decoder).wf(),
            final(decoder).frame() == old(decoder).frame(),
    {
        reveal(OpCodeHandler_BM_B::spec_decode);
        let state: State = decoder.state;
        let is64_mode: bool = decoder.is64_mode;
        let check: bool = decoder.invalid_check;
        decoder.set_invalid_instruction_if(
            state.reg > 3
                || state.rm > 3
                || (check && (state.extra_register_base != 0 || state.extra_base_register_base != 0)),
        );
        instruction.set_code(if is64_mode { self.code64 } else { self.code32 });
        decoder.op_rm_mpx(instruction, 0, register::offset(register::BND0, state.rm));
        instruction.set_op1_register(register::offset(register::BND0, state.reg));
    }
}

/// `bnd, r/m`, the second operand 64 bits wide in 64-bit mode, else 32.
#[derive(Clone, Copy, Debug, PartialEq, Eq, Structural)]
pub struct OpCodeHandler_B_Ev {
    pub has_modrm: bool,
    pub code32: u32,
    pub code64: u32,
}

impl OpCodeHandler_B_Ev {
    /// A handler that yields `code64` in 64-bit mode, else `code32`.
    pub fn new(code32: u32, code64: u32) -> (handler: Self)
        ensures
            handler == (Self { has_modrm: true, code32, code64 }),
    {
        Self { has_modrm: true, code32, code64 }
    }

    /// Decoder and record as [`Self::decode`] leaves them.
    #[verifier::opaque]
    pub open spec fn spec_decode(&self, d: Decoder, i: Instruction) -> Decoded {
        let state = d.state;
        let is64_mode = d.is64_mode;
        let check = d.invalid_check;
        Decoded::at(d, i)
            .invalid_if(state.reg > 3 || (check && state.extra_register_base != 0))
            .code(if is64_mode { self.code64 } else { self.code32 })
            .op_register(0, register::offset(register::BND0, state.reg))
            .op_rm_mpx(1, state.rm_register(register::gpr32_or_64(is64_mode)))
    }

    /// Decodes the operands of the instruction into `instruction`.
    pub fn decode(&self, decoder: &mut Decoder, instruction: &mut Instruction)
        requires
            old(decoder).wf(),
            old(decoder).state.encoding == EncodingKind::Legacy,
        ensures
            *final(decoder) == self.spec_decode(*old(decoder), *old(instruction)).decoder,
            *final(instruction) == self.spec_decode(
                *old(decoder),
                *old(instruction),
            ).instruction,
            final(decoder).wf(),
            final(decoder).frame() == old(decoder).frame(),
    {
        reveal(OpCodeHandler_B_Ev::spec_decode);
        let state: State = decoder.state;
        let is64_mode: bool = decoder.is64_mode;
        let check: bool = decoder.invalid_check;
        decoder.set_invalid_instruction_if(
            state.reg > 3 || (check && state.extra_register_base != 0),
        );
        instruction.set_code(if is64_mode { self.code64 } else { self.code32 });
        instruction.set_op0_register(register::offset(register::BND0, state.reg));
        decoder.op_rm_mpx(instruction, 1, state.rm_register(register::gpr32_or_64(is64_mode)));
    }
}

/// A handler of a bounds instruction.
#[derive(Clone, Copy, Debug, PartialEq, Eq, Structural)]
pub enum MpxHandler {
    B_MIB(OpCodeHandler_B_MIB),
    MIB_B(OpCodeHandler_MIB_B),
    B_BM(OpCodeHandler_B_BM),
    BM_B(OpCodeHandler_BM_B),
    B_Ev(OpCodeHandler_B_Ev),
}

impl MpxHandler {
    /// Whether a ModRM byte follows the opcode.
    pub open spec fn spec_has_modrm(&self) -> bool {
        match self {
            MpxHandler::B_MIB(h) => h.has_modrm,
            MpxHandler::MIB_B(h) => h.has_modrm,
            MpxHandler::B_BM(h) => h.has_modrm,
            MpxHandler::BM_B(h) => h.has_modrm,
            MpxHandler::B_Ev(h) => h.has_modrm,
        }
    }

    /// Whether a ModRM byte follows the opcode.
    #[verifier::when_used_as_spec(spec_has_modrm)]
    pub fn has_modrm(&self) -> (b: bool)
        ensures
            b == self.spec_has_modrm(),
    {
        match self {
            MpxHandler::B_MIB(h) => h.has_modrm,
            MpxHandler::MIB_B(h) => h.has_modrm,
            MpxHandler::B_BM(h) => h.has_modrm,
            MpxHandler::BM_B(h) => h.has_modrm,
            MpxHandler::B_Ev(h) => h.has_modrm,
        }
    }

    /// The handler is well-formed.
    pub open spec fn wf(&self) -> bool {
        match self {
            MpxHandler::B_MIB(_) => true,
            MpxHandler::MIB_B(_) => true,
            MpxHandler::B_BM(_) => true,
            MpxHandler::BM_B(_) => true,
            MpxHandler::B_Ev(_) => true,
        }
    }

    /// Whether the handler is well-formed.
    #[verifier::when_used_as_spec(wf)]
    pub fn is_wf(&self) -> (b: bool)
        ensures
            b == self.wf(),
    {
        match self {
            MpxHandler::B_MIB(_) => true,
            MpxHandler::MIB_B(_) => true,
            MpxHandler::B_BM(_) => true,
            MpxHandler::BM_B(_) => true,
            MpxHandler::B_Ev(_) => true,
        }
    }

    /// Decoder and record as [`Self::decode`] leaves them.
    #[verifier::opaque]
    pub open spec fn spec_decode(&self, d: Decoder, i: Instruction) -> Decoded {
        match self {
            MpxHandler::B_MIB(h) => h.spec_decode(d, i),
            MpxHandler::MIB_B(h) => h.spec_decode(d, i),
            MpxHandler::B_BM(h) => h.spec_decode(d, i),
            MpxHandler::BM_B(h) => h.spec_decode(d, i),
            MpxHandler::B_Ev(h) => h.spec_decode(d, i),
        }
    }

    /// Decodes the operands of the instruction with the handler that `self` holds.
    pub fn decode(&self, decoder: &mut Decoder, instruction: &mut Instruction)
        requires
            old(decoder).wf(),
            self.wf(),
            old(decoder).state.encoding == EncodingKind::Legacy,
        ensures
            *final(decoder) == self.spec_decode(*old(decoder), *old(instruction)).decoder,
            *final(instruction) == self.spec_decode(
                *old(decoder),
                *old(instruction),
            ).instruction,
            final(decoder).wf(),
            final(decoder).frame() == old(decoder).frame(),
    {
        reveal(MpxHandler::spec_decode);
        match self {
            MpxHandler::B_MIB(h) => h.decode(decoder, instruction),
            MpxHandler::MIB_B(h) => h.decode(decoder, instruction),
            MpxHandler::B_BM(h) => h.decode(decoder, instruction),
            MpxHandler::BM_B(h) => h.decode(decoder, instruction),
            MpxHandler::B_Ev(h) => h.decode(decoder, instruction),
        }
    }
}

} // verus!
