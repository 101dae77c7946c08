//! Legacy handlers of 8-bit operands and of memory-only operands.
use vstd::prelude::*;
use crate::decoder::{Decoder, State};
use crate::enums::{EncodingKind, OpKind};
use crate::instruction::Instruction;
use crate::operand::{Decoded};
use crate::register;

verus! {

/// `r/m8, imm8`.  The memory form may be locked.
#[derive(Clone, Copy, Debug, PartialEq, Eq, Structural)]
pub struct OpCodeHandler_Eb_Ib {
    pub has_modrm: bool,
    pub flags: u32,
    pub code: u32,
}

impl OpCodeHandler_Eb_Ib {
    /// A handler that yields `code`, with the lock flags `flags`.
    pub fn new(code: u32, flags: u32) -> (handler: Self)
        ensures
            handler == (Self { has_modrm: true, flags, code }),
    {
        Self { has_modrm: true, flags, code }
    }

    /// Decoder and record as [`Self::decode`] leaves them.
    #[verifier::opaque]
    pub open spec fn spec_decode(&self, d: Decoder, i: Instruction) -> Decoded {
        let state = d.state;
        Decoded::at(d, i)
            .code(self.code)
            .op_rm_lock(0, state.rm_byte_register(), self.flags)
            .imm8(1, OpKind::Immediate8)
    }

    /// Decodes the operands of the instruction into `instruction`.
    pub fn decode(&self, decoder: &mut Decoder, instruction: &mut Instruction)
        requires
            old(decoder).wf(),
            old(decoder).state.encoding == EncodingKind::Legacy,
        ensures
            *final(decoder) == self.spec_decode(*old(decoder), *old(instruction)).decoder,
            *final(instruction) == self.spec_decode(
                *old(decoder),
                *old(instruction),
            ).instruction,
            final(decoder).wf(),
            final(decoder).frame() == old(decoder).frame(),
    {
        reveal(OpCodeHandler_Eb_Ib::spec_decode);
        let state: State = decoder.state;
        instruction.set_code(self.code);
        decoder.op_rm_lock(instruction, 0, state.rm_byte_register(), self.flags);
        decoder.op_imm8(instruction, 1, OpKind::Immediate8);
    }
}

/// `r/m8, 1`: the shifts by one.  The immediate is part of the opcode and
/// takes no byte of its own.
#[derive(Clone, Copy, Debug, PartialEq, Eq, Structural)]
pub struct OpCodeHandler_Eb_1 {
    pub has_modrm: bool,
    pub code: u32,
}

impl OpCodeHandler_Eb_1 {
    /// A handler that yields `code`.
    pub fn new(code: u32) -> (handler: Self)
        ensures
            handler == (Self { has_modrm: true, code }),
    {
        Self { has_modrm: true, code }
    }

    /// Decoder and record as [`Self::decode`] leaves them.
    #[verifier::opaque]
    pub open spec fn spec_decode(&self, d: Decoder, i: Instruction) -> Decoded {
        let state = d.state;
        Decoded::at(d, i)
            .code(self.code)
            .op_rm(0, state.rm_byte_register())
            .op_kind(1, OpKind::Immediate8)
            .immediate(1)
            .no_imm()
    }

    /// Decodes the operands of the instruction into `instruction`.
    pub fn decode(&self, decoder: &mut Decoder, instruction: &mut Instruction)
        requires
            old(decoder).wf(),
            old(decoder).state.encoding == EncodingKind::Legacy,
        ensures
            *final(decoder) == self.spec_decode(*old(decoder), *old(instruction)).decoder,
            *final(instruction) == self.spec_decode(
                *old(decoder),
                *old(instruction),
            ).instruction,
            final(decoder).wf(),
            final(decoder).frame() == old(decoder).frame(),
    {
        reveal(OpCodeHandler_Eb_1::spec_decode);
        let state: State = decoder.state;
        instruction.set_code(self.code);
        decoder.op_rm(instruction, 0, state.rm_byte_register());
        instruction.set_op1_kind(OpKind::Immediate8);
        instruction.set_immediate8(1);
        decoder.set_no_imm();
    }
}

/// `r/m8, CL`.
#[derive(Clone, Copy, Debug, PartialEq, Eq, Structural)]
pub struct OpCodeHandler_Eb_CL {
    pub has_modrm: bool,
    pub code: u32,
}

impl OpCodeHandler_Eb_CL {
    /// A handler that yields `code`.
    pub fn new(code: u32) -> (handler: Self)
        ensures
            handler == (Self { has_modrm: true, code }),
    {
        Self { has_modrm: true, code }
    }

    /// Decoder and record as [`Self::decode`] leaves them.
    #[verifier::opaque]
    pub open spec fn spec_decode(&self, d: Decoder, i: Instruction) -> Decoded {
        let state = d.state;
        Decoded::at(d, i)
            .code(self.code)
            .op_rm(0, state.rm_byte_register())
            .op_register(1, register::CL)
    }

    /// Decodes the operands of the instruction into `instruction`.
    pub fn decode(&self, decoder: &mut Decoder, instruction: &mut Instruction)
        requires
            old(decoder).wf(),
            old(decoder).state.encoding == EncodingKind::Legacy,
        ensures
            *final(decoder) == self.spec_decode(*old(decoder), *old(instruction)).decoder,
            *final(instruction) == self.spec_decode(
                *old(decoder),
                *old(instruction),
            ).instruction,
            final(decoder).wf(),
            final(decoder).frame() == old(decoder).frame(),
    {
        reveal(OpCodeHandler_Eb_CL::spec_decode);
        let state: State = decoder.state;
        instruction.set_code(self.code);
        decoder.op_rm(instruction, 0, state.rm_byte_register());
        instruction.set_op1_register(register::CL);
    }
}

/// `r/m8`.  The memory form may be locked.
#[derive(Clone, Copy, Debug, PartialEq, Eq, Structural)]
pub struct OpCodeHandler_Eb {
    pub has_modrm: bool,
    pub flags: u32,
    pub code: u32,
}

impl OpCodeHandler_Eb {
    /// A handler that yields `code`, with the lock flags `flags`.
    pub fn new(code: u32, flags: u32) -> (handler: Self)
        ensures
            handler == (Self { has_modrm: true, flags, code }),
    {
        Self { has_modrm: true, flags, code }
    }

    /// Decoder and record as [`Self::decode`] leaves them.
    #[verifier::opaque]
    pub open spec fn spec_decode(&self, d: Decoder, i: Instruction) -> Decoded {
        let state = d.state;
        Decoded::at(d, i)
            .code(self.code)
            .op_rm_lock(0, state.rm_byte_register(), self.flags)
    }

    /// Decodes the operands of the instruction into `instruction`.
    pub fn decode(&self, decoder: &mut Decoder, instruction: &mut Instruction)
        requires
            old(decoder).wf(),
            old(decoder).state.encoding == EncodingKind::Legacy,
        ensures
            *final(decoder) == self.spec_decode(*old(decoder), *old(instruction)).decoder,
            *final(instruction) == self.spec_decode(
                *old(decoder),
                *old(instruction),
            ).instruction,
            final(decoder).wf(),
            final(decoder).frame() == old(decoder).frame(),
    {
        reveal(OpCodeHandler_Eb::spec_decode);
        let state: State = decoder.state;
        instruction.set_code(self.code);
        decoder.op_rm_lock(instruction, 0, state.rm_byte_register(), self.flags);
    }
}

/// `r/m8, r8`.  The memory form may be locked.
#[derive(Clone, Copy, Debug, PartialEq, Eq, Structural)]
pub struct OpCodeHandler_Eb_Gb {
    pub has_modrm: bool,
    pub flags: u32,
    pub code: u32,
}

impl OpCodeHandler_Eb_Gb {
    /// A handler that yields `code`, with the lock flags `flags`.
    pub fn new(code: u32, flags: u32) -> (handler: Self)
        ensures
            handler == (Self { has_modrm: true, flags, code }),
    {
        Self { has_modrm: true, flags, code }
    }

    /// Decoder and record as [`Self::decode`] leaves them.
    #[verifier::opaque]
    pub open spec fn spec_decode(&self, d: Decoder, i: Instruction) -> Decoded {
        let state = d.state;
        Decoded::at(d, i)
            .code(self.code)
            .op_rm_lock(0, state.rm_byte_register(), self.flags)
            .op_register(1, state.reg_byte_register())
    }

    /// Decodes the operands of the instruction into `instruction`.
    pub fn decode(&self, decoder: &mut Decoder, instruction: &mut Instruction)
        requires
            old(decoder).wf(),
            old(decoder).state.encoding == EncodingKind::Legacy,
        ensures
            *final(decoder) == self.spec_decode(*old(decoder), *old(instruction)).decoder,
            *final(instruction) == self.spec_decode(
                *old(decoder),
                *old(instruction),
            ).instruction,
            final(decoder).wf(),
            final(decoder).frame() == old(decoder).frame(),
    {
        reveal(OpCodeHandler_Eb_Gb::spec_decode);
        let state: State = decoder.state;
        instruction.set_code(self.code);
        decoder.op_rm_lock(instruction, 0, state.rm_byte_register(), self.flags);
        instruction.set_op1_register(state.reg_byte_register());
    }
}

/// `r8, r/m8`.
#[derive(Clone, Copy, Debug, PartialEq, Eq, Structural)]
pub struct OpCodeHandler_Gb_Eb {
    pub has_modrm: bool,
    pub code: u32,
}

impl OpCodeHandler_Gb_Eb {
    /// A handler that yields `code`.
    pub fn new(code: u32) -> (handler: Self)
        ensures
            handler == (Self { has_modrm: true, code }),
    {
        Self { has_modrm: true, code }
    }

    /// Decoder and record as [`Self::decode`] leaves them.
    #[verifier::opaque]
    pub open spec fn spec_decode(&self, d: Decoder, i: Instruction) -> Decoded {
        let state = d.state;
        Decoded::at(d, i)
            .code(self.code)
            .op_register(0, state.reg_byte_register())
            .op_rm(1, state.rm_byte_register())
    }

    /// Decodes the operands of the instruction into `instruction`.
    pub fn decode(&self, decoder: &mut Decoder, instruction: &mut Instruction)
        requires
            old(decoder).wf(),
            old(decoder).state.encoding == EncodingKind::Legacy,
        ensures
            *final(decoder) == self.spec_decode(*old(decoder), *old(instruction)).decoder,
            *final(instruction) == self.spec_decode(
                *old(decoder),
                *old(instruction),
            ).instruction,
            final(decoder).wf(),
            final(decoder).frame() == old(decoder).frame(),
    {
        reveal(OpCodeHandler_Gb_Eb::spec_decode);
        let state: State = decoder.state;
        instruction.set_code(self.code);
        instruction.set_op0_register(state.reg_byte_register());
        decoder.op_rm(instruction, 1, state.rm_byte_register());
    }
}

/// A memory operand; the register form is invalid.  The code may go by the W bit.
#[derive(Clone, Copy, Debug, PartialEq, Eq, Structural)]
pub struct OpCodeHandler_M {
    pub has_modrm: bool,
    pub code_w0: u32,
    pub code_w1: u32,
}

impl OpCodeHandler_M {
    /// A handler that yields `code`.
    pub fn new(code: u32) -> (handler: Self)
        ensures
            handler == (Self { has_modrm: true, code_w0: code, code_w1: code }),
    {
        Self { has_modrm: true, code_w0: code, code_w1: code }
    }

    /// A handler that yields `code_w1` under W, else `code_w0`.
    pub fn new1(code_w0: u32, code_w1: u32) -> (handler: Self)
        ensures
            handler == (Self { has_modrm: true, code_w0, code_w1 }),
    {
        Self { has_modrm: true, code_w0, code_w1 }
    }

    /// Decoder and record as [`Self::decode`] leaves them.
    #[verifier::opaque]
    pub open spec fn spec_decode(&self, d: Decoder, i: Instruction) -> Decoded {
        let state = d.state;
        Decoded::at(d, i)
            .code(if state.flags.w { self.code_w1 } else { self.code_w0 })
            .op_mem(0)
    }

    /// Decodes the operands of the instruction into `instruction`.
    pub fn decode(&self, decoder: &mut Decoder, instruction: &mut Instruction)
        requires
            old(decoder).wf(),
            old(decoder).state.encoding == EncodingKind::Legacy,
        ensures
            *final(decoder) == self.spec_decode(*old(decoder), *old(instruction)).decoder,
            *final(instruction) == self.spec_decode(
                *old(decoder),
                *old(instruction),
            ).instruction,
            final(decoder).wf(),
            final(decoder).frame() == old(decoder).frame(),
    {
        reveal(OpCodeHandler_M::spec_decode);
        let state: State = decoder.state;
        instruction.set_code(if state.flags.w { self.code_w1 } else { self.code_w0 });
        decoder.op_mem(instruction, 0);
    }
}

/// A memory operand that may be locked; the register form is invalid.
/// Code and lock flags go by the W bit.
#[derive(Clone, Copy, Debug, PartialEq, Eq, Structural)]
pub struct OpCodeHandler_M_REXW {
    pub has_modrm: bool,
    pub flags32: u32,
    pub flags64: u32,
    pub code32: u32,
    pub code64: u32,
}

impl OpCodeHandler_M_REXW {
    /// A handler that yields `code64` with `flags64` under W, else `code32` with `flags32`.
    pub fn new(code32: u32, code64: u32, flags32: u32, flags64: u32) -> (handler: Self)
        ensures
            handler == (Self { has_modrm: true, flags32, flags64, code32, code64 }),
    {
        Self { has_modrm: true, flags32, flags64, code32, code64 }
    }

    /// Decoder and record as [`Self::decode`] leaves them.
    #[verifier::opaque]
    pub open spec fn spec_decode(&self, d: Decoder, i: Instruction) -> Decoded {
        let state = d.state;
        Decoded::at(d, i)
            .code(if state.flags.w { self.code64 } else { self.code32 })
            .op_mem_lock(0, if state.flags.w { self.flags64 } else { self.flags32 })
    }

    /// Decodes the operands of the instruction into `instruction`.
    pub fn decode(&self, decoder: &mut Decoder, instruction: &mut Instruction)
        requires
            old(decoder).wf(),
            old(decoder).state.encoding == EncodingKind::Legacy,
        ensures
            *final(decoder) == self.spec_decode(*old(decoder), *old(instruction)).decoder,
            *final(instruction) == self.spec_decode(
                *old(decoder),
                *old(instruction),
            ).instruction,
            final(decoder).wf(),
            final(decoder).frame() == old(decoder).frame(),
    {
        reveal(OpCodeHandler_M_REXW::spec_decode);
        let state: State = decoder.state;
        instruction.set_code(if state.flags.w { self.code64 } else { self.code32 });
        decoder.op_mem_lock(
            instruction,
            0,
            if state.flags.w { self.flags64 } else { self.flags32 },
        );
    }
}

/// A handler of 8-bit or memory-only operands.
#[derive(Clone, Copy, Debug, PartialEq, Eq, Structural)]
pub enum EbHandler {
    Eb_Ib(OpCodeHandler_Eb_Ib),
    Eb_1(OpCodeHandler_Eb_1),
    Eb_CL(OpCodeHandler_Eb_CL),
    Eb(OpCodeHandler_Eb),
    Eb_Gb(OpCodeHandler_Eb_Gb),
    Gb_Eb(OpCodeHandler_Gb_Eb),
    M(OpCodeHandler_M),
    M_REXW(OpCodeHandler_M_REXW),
}

impl EbHandler {
    /// Whether a ModRM byte follows the opcode.
    pub open spec fn spec_has_modrm(&self) -> bool {
        match self {
            EbHandler::Eb_Ib(h) => h.has_modrm,
            EbHandler::Eb_1(h) => h.has_modrm,
            EbHandler::Eb_CL(h) => h.has_modrm,
            EbHandler::Eb(h) => h.has_modrm,
            EbHandler::Eb_Gb(h) => h.has_modrm,
            EbHandler::Gb_Eb(h) => h.has_modrm,
            EbHandler::M(h) => h.has_modrm,
            EbHandler::M_REXW(h) => h.has_modrm,
        }
    }

    /// Whether a ModRM byte follows the opcode.
    #[verifier::when_used_as_spec(spec_has_modrm)]
    pub fn has_modrm(&self) -> (b: bool)
        ensures
            b == self.spec_has_modrm(),
    {
        match self {
            EbHandler::Eb_Ib(h) => h.has_modrm,
            EbHandler::Eb_1(h) => h.has_modrm,
            EbHandler::Eb_CL(h) => h.has_modrm,
            EbHandler::Eb(h) => h.has_modrm,
            EbHandler::Eb_Gb(h) => h.has_modrm,
            EbHandler::Gb_Eb(h) => h.has_modrm,
            EbHandler::M(h) => h.has_modrm,
            EbHandler::M_REXW(h) => h.has_modrm,
        }
    }

    /// The handler is well-formed.
    pub open spec fn wf(&self) -> bool {
        match self {
            EbHandler::Eb_Ib(_) => true,
            EbHandler::Eb_1(_) => true,
            EbHandler::Eb_CL(_) => true,
            EbHandler::Eb(_) => true,
            EbHandler::Eb_Gb(_) => true,
            EbHandler::Gb_Eb(_) => true,
            EbHandler::M(_) => true,
            EbHandler::M_REXW(_) => true,
        }
    }

    /// Whether the handler is well-formed.
    #[verifier::when_used_as_spec(wf)]
    pub fn is_wf(&self) -> (b: bool)
        ensures
            b == self.wf(),
    {
        match self {
            EbHandler::Eb_Ib(_) => true,
            EbHandler::Eb_1(_) => true,
            EbHandler::Eb_CL(_) => true,
            EbHandler::Eb(_) => true,
            EbHandler::Eb_Gb(_) => true,
            EbHandler::Gb_Eb(_) => true,
            EbHandler::M(_) => true,
            EbHandler::M_REXW(_) => true,
        }
    }

    /// Decoder and record as [`Self::decode`] leaves them.
    #[verifier::opaque]
    pub open spec fn spec_decode(&self, d: Decoder, i: Instruction) -> Decoded {
        match self {
            EbHandler::Eb_Ib(h) => h.spec_decode(d, i),
            EbHandler::Eb_1(h) => h.spec_decode(d, i),
            EbHandler::Eb_CL(h) => h.spec_decode(d, i),
            EbHandler::Eb(h) => h.spec_decode(d, i),
            EbHandler::Eb_Gb(h) => h.spec_decode(d, i),
            EbHandler::Gb_Eb(h) => h.spec_decode(d, i),
            EbHandler::M(h) => h.spec_decode(d, i),
            EbHandler::M_REXW(h) => h.spec_decode(d, i),
        }
    }

    /// Decodes the operands of the instruction with the handler that `self` holds.
    pub fn decode(&self, decoder: &mut Decoder, instruction: &mut Instruction)
        requires
            old(decoder).wf(),
            self.wf(),
            old(decoder).state.encoding == EncodingKind::Legacy,
        ensures
            *final(decoder) == self.spec_decode(*old(decoder), *old(instruction)).decoder,
            *final(instruction) == self.spec_decode(
                *old(decoder),
                *old(instruction),
            ).instruction,
            final(decoder).wf(),
            final(decoder).frame() == old(decoder).frame(),
    {
        reveal(EbHandler::spec_decode);
        match self {
            EbHandler::Eb_Ib(h) => h.decode(decoder, instruction),
            EbHandler::Eb_1(h) => h.decode(decoder, instruction),
            EbHandler::Eb_CL(h) => h.decode(decoder, instruction),
            EbHandler::Eb(h) => h.decode(decoder, instruction),
            EbHandler::Eb_Gb(h) => h.decode(decoder, instruction),
            EbHandler::Gb_Eb(h) => h.decode(decoder, instruction),
            EbHandler::M(h) => h.decode(decoder, instruction),
            EbHandler::M_REXW(h) => h.decode(decoder, instruction),
        }
    }
}

} // verus!
