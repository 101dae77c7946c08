//! VEX handlers of the instructions on mask registers.
//!
//! There are eight mask registers.  Where invalid encodings are checked
//! for, an extension bit on reg makes the instruction invalid, and so does a
//! vvvv field that the instruction has no use for.
use vstd::prelude::*;
use crate::decoder::{Decoder, State};
use crate::enums::{EncodingKind, OpKind};
use crate::instruction::Instruction;
use crate::operand::{Decoded};
use crate::register;

verus! {

/// `k, k, k`: reg, the prefix and rm select the operands; the memory form is invalid.
#[derive(Clone, Copy, Debug, PartialEq, Eq, Structural)]
pub struct OpCodeHandler_VEX_VK_HK_RK {
    pub has_modrm: bool,
    pub code: u32,
}

impl OpCodeHandler_VEX_VK_HK_RK {
    /// A handler that yields `code`.
    pub fn new(code: u32) -> (handler: Self)
        ensures
            handler == (Self { has_modrm: true, code }),
    {
        Self { has_modrm: true, code }
    }

    /// Decoder and record as [`Self::decode`] leaves them.
    #[verifier::opaque]
    pub open spec fn spec_decode(&self, d: Decoder, i: Instruction) -> Decoded {
        let state = d.state;
        let check = d.invalid_check;
        Decoded::at(d, i)
            .invalid_if(check && (state.vvvv > 7 || state.extra_register_base != 0))
            .code(self.code)
            .op_register(0, register::offset(register::K0, state.reg))
            .op_register(1, register::offset(register::K0, state.vvvv % 8))
            .op_reg(2, register::offset(register::K0, state.rm))
    }

    /// Decodes the operands of the instruction into `instruction`.
    pub fn decode(&self, decoder: &mut Decoder, instruction: &mut Instruction)
        requires
            old(decoder).wf(),
            old(decoder).state.encoding == EncodingKind::VEX || old(decoder).state.encoding
                == EncodingKind::XOP,
        ensures
            *final(decoder) == self.spec_decode(*old(decoder), *old(instruction)).decoder,
            *final(instruction) == self.spec_decode(
                *old(decoder),
                *old(instruction),
            ).instruction,
            final(decoder).wf(),
            final(decoder).frame() == old(decoder).frame(),
    {
        reveal(OpCodeHandler_VEX_VK_HK_RK::spec_decode);
        let state: State = decoder.state;
        let check: bool = decoder.invalid_check;
        decoder.set_invalid_instruction_if(
            check && (state.vvvv > 7 || state.extra_register_base != 0),
        );
        instruction.set_code(self.code);
        instruction.set_op0_register(register::offset(register::K0, state.reg));
        instruction.set_op1_register(register::offset(register::K0, state.vvvv % 8));
        decoder.op_reg(instruction, 2, register::offset(register::K0, state.rm));
    }
}

/// `k, k`; the memory form is invalid.
#[derive(Clone, Copy, Debug, PartialEq, Eq, Structural)]
pub struct OpCodeHandler_VEX_VK_RK {
    pub has_modrm: bool,
    pub code: u32,
}

impl OpCodeHandler_VEX_VK_RK {
    /// A handler that yields `code`.
    pub fn new(code: u32) -> (handler: Self)
        ensures
            handler == (Self { has_modrm: true, code }),
    {
        Self { has_modrm: true, code }
    }

    /// Decoder and record as [`Self::decode`] leaves them.
    #[verifier::opaque]
    pub open spec fn spec_decode(&self, d: Decoder, i: Instruction) -> Decoded {
        let state = d.state;
        let check = d.invalid_check;
        Decoded::at(d, i)
            .invalid_if(check && (state.vvvv != 0 || state.extra_register_base != 0))
            .code(self.code)
            .op_register(0, register::offset(register::K0, state.reg))
            .op_reg(1, register::offset(register::K0, state.rm))
    }

    /// Decodes the operands of the instruction into `instruction`.
    pub fn decode(&self, decoder: &mut Decoder, instruction: &mut Instruction)
        requires
            old(decoder).wf(),
            old(decoder).state.encoding == EncodingKind::VEX || old(decoder).state.encoding
                == EncodingKind::XOP,
        ensures
            *final(decoder) == self.spec_decode(*old(decoder), *old(instruction)).decoder,
            *final(instruction) == self.spec_decode(
                *old(decoder),
                *old(instruction),
            ).instruction,
            final(decoder).wf(),
            final(decoder).frame() == old(decoder).frame(),
    {
        reveal(OpCodeHandler_VEX_VK_RK::spec_decode);
        let state: State = decoder.state;
        let check: bool = decoder.invalid_check;
        decoder.set_invalid_instruction_if(
            check && (state.vvvv != 0 || state.extra_register_base != 0),
        );
        instruction.set_code(self.code);
        instruction.set_op0_register(register::offset(register::K0, state.reg));
        decoder.op_reg(instruction, 1, register::offset(register::K0, state.rm));
    }
}

/// `k, k, imm8`; the memory form is invalid.
#[derive(Clone, Copy, Debug, PartialEq, Eq, Structural)]
pub struct OpCodeHandler_VEX_VK_RK_Ib {
    pub has_modrm: bool,
    pub code: u32,
}

impl OpCodeHandler_VEX_VK_RK_Ib {
    /// A handler that yields `code`.
    pub fn new(code: u32) -> (handler: Self)
        ensures
            handler == (Self { has_modrm: true, code }),
    {
        Self { has_modrm: true, code }
    }

    /// Decoder and record as [`Self::decode`] leaves them.
    #[verifier::opaque]
    pub open spec fn spec_decode(&self, d: Decoder, i: Instruction) -> Decoded {
        let state = d.state;
        let check = d.invalid_check;
        Decoded::at(d, i)
            .invalid_if(check && (state.vvvv != 0 || state.extra_register_base != 0))
            .code(self.code)
            .op_register(0, register::offset(register::K0, state.reg))
            .op_reg(1, register::offset(register::K0, state.rm))
            .imm8(2, OpKind::Immediate8)
    }

    /// Decodes the operands of the instruction into `instruction`.
    pub fn decode(&self, decoder: &mut Decoder, instruction: &mut Instruction)
        requires
            old(decoder).wf(),
            old(decoder).state.encoding == EncodingKind::VEX || old(decoder).state.encoding
                == EncodingKind::XOP,
        ensures
            *final(decoder) == self.spec_decode(*old(decoder), *old(instruction)).decoder,
            *final(instruction) == self.spec_decode(
                *old(decoder),
                *old(instruction),
            ).instruction,
            final(decoder).wf(),
            final(decoder).frame() == old(decoder).frame(),
    {
        reveal(OpCodeHandler_VEX_VK_RK_Ib::spec_decode);
        let state: State = decoder.state;
        let check: bool = decoder.invalid_check;
        decoder.set_invalid_instruction_if(
            check && (state.vvvv != 0 || state.extra_register_base != 0),
        );
        instruction.set_code(self.code);
        instruction.set_op0_register(register::offset(register::K0, state.reg));
        decoder.op_reg(instruction, 1, register::offset(register::K0, state.rm));
        decoder.op_imm8(instruction, 2, OpKind::Immediate8);
    }
}

/// `k, k/m`.
#[derive(Clone, Copy, Debug, PartialEq, Eq, Structural)]
pub struct OpCodeHandler_VEX_VK_WK {
    pub has_modrm: bool,
    pub code: u32,
}

impl OpCodeHandler_VEX_VK_WK {
    /// A handler that yields `code`.
    pub fn new(code: u32) -> (handler: Self)
        ensures
            handler == (Self { has_modrm: true, code }),
    {
        Self { has_modrm: true, code }
    }

    /// Decoder and record as [`Self::decode`] leaves them.
    #[verifier::opaque]
    pub open spec fn spec_decode(&self, d: Decoder, i: Instruction) -> Decoded {
        let state = d.state;
        let check = d.invalid_check;
        Decoded::at(d, i)
            .invalid_if(check && (state.vvvv != 0 || state.extra_register_base != 0))
            .code(self.code)
            .op_register(0, register::offset(register::K0, state.reg))
            .op_rm(1, register::offset(register::K0, state.rm))
    }

    /// Decodes the operands of the instruction into `instruction`.
    pub fn decode(&self, decoder: &mut Decoder, instruction: &mut Instruction)
        requires
            old(decoder).wf(),
            old(decoder).state.encoding == EncodingKind::VEX || old(decoder).state.encoding
                == EncodingKind::XOP,
        ensures
            *final(decoder) == self.spec_decode(*old(decoder), *old(instruction)).decoder,
            *final(instruction) == self.spec_decode(
                *old(decoder),
                *old(instruction),
            ).instruction,
            final(decoder).wf(),
            final(decoder).frame() == old(decoder).frame(),
    {
        reveal(OpCodeHandler_VEX_VK_WK::spec_decode);
        let state: State = decoder.state;
        let check: bool = decoder.invalid_check;
        decoder.set_invalid_instruction_if(
            check && (state.vvvv != 0 || state.extra_register_base != 0),
        );
        instruction.set_code(self.code);
        instruction.set_op0_register(register::offset(register::K0, state.reg));
        decoder.op_rm(instruction, 1, register::offset(register::K0, state.rm));
    }
}

/// `m, k`; the register form is invalid.
#[derive(Clone, Copy, Debug, PartialEq, Eq, Structural)]
pub struct OpCodeHandler_VEX_M_VK {
    pub has_modrm: bool,
    pub code: u32,
}

impl OpCodeHandler_VEX_M_VK {
    /// A handler that yields `code`.
    pub fn new(code: u32) -> (handler: Self)
        ensures
            handler == (Self { has_modrm: true, code }),
    {
        Self { has_modrm: true, code }
    }

    /// Decoder and record as [`Self::decode`] leaves them.
    #[verifier::opaque]
    pub open spec fn spec_decode(&self, d: Decoder, i: Instruction) -> Decoded {
        let state = d.state;
        let check = d.invalid_check;
        Decoded::at(d, i)
            .invalid_if(check && (state.vvvv != 0 || state.extra_register_base != 0))
            .code(self.code)
            .op_mem(0)
            .op_register(1, register::offset(register::K0, state.reg))
    }

    /// Decodes the operands of the instruction into `instruction`.
    pub fn decode(&self, decoder: &mut Decoder, instruction: &mut Instruction)
        requires
            old(decoder).wf(),
            old(decoder).state.encoding == EncodingKind::VEX || old(decoder).state.encoding
                == EncodingKind::XOP,
        ensures
            *final(decoder) == self.spec_decode(*old(decoder), *old(instruction)).decoder,
            *final(instruction) == self.spec_decode(
                *old(decoder),
                *old(instruction),
            ).instruction,
            final(decoder).wf(),
            final(decoder).frame() == old(decoder).frame(),
    {
        reveal(OpCodeHandler_VEX_M_VK::spec_decode);
        let state: State = decoder.state;
        let check: bool = decoder.invalid_check;
        decoder.set_invalid_instruction_if(
            check && (state.vvvv != 0 || state.extra_register_base != 0),
        );
        instruction.set_code(self.code);
        decoder.op_mem(instruction, 0);
        instruction.set_op1_register(register::offset(register::K0, state.reg));
    }
}

/// `k, r`; the memory form is invalid.
#[derive(Clone, Copy, Debug, PartialEq, Eq, Structural)]
pub struct OpCodeHandler_VEX_VK_R {
    pub has_modrm: bool,
    pub code: u32,
    pub gpr: u32,
}

impl OpCodeHandler_VEX_VK_R {
    /// A handler that yields `code` with the second operand in the class that starts at `gpr`.
    pub fn new(code: u32, gpr: u32) -> (handler: Self)
        ensures
            handler == (Self { has_modrm: true, code, gpr }),
    {
        Self { has_modrm: true, code, gpr }
    }

    /// The handler's registers are register numbers.
    pub open spec fn wf(&self) -> bool {
        self.gpr < register::COUNT
    }

    /// Whether the handler is well-formed.
    #[verifier::when_used_as_spec(wf)]
    pub fn is_wf(&self) -> (b: bool)
        ensures
            b == self.wf(),
    {
        self.gpr < register::COUNT
    }

    /// Decoder and record as [`Self::decode`] leaves them.
    #[verifier::opaque]
    pub open spec fn spec_decode(&self, d: Decoder, i: Instruction) -> Decoded {
        let state = d.state;
        let check = d.invalid_check;
        Decoded::at(d, i)
            .invalid_if(check && (state.vvvv != 0 || state.extra_register_base != 0))
            .code(self.code)
            .op_register(0, register::offset(register::K0, state.reg))
            .op_reg(1, state.rm_register(self.gpr))
    }

    /// Decodes the operands of the instruction into `instruction`.
    pub fn decode(&self, decoder: &mut Decoder, instruction: &mut Instruction)
        requires
            old(decoder).wf(),
            self.wf(),
            old(decoder).state.encoding == EncodingKind::VEX || old(decoder).state.encoding
                == EncodingKind::XOP,
        ensures
            *final(decoder) == self.spec_decode(*old(decoder), *old(instruction)).decoder,
            *final(instruction) == self.spec_decode(
                *old(decoder),
                *old(instruction),
            ).instruction,
            final(decoder).wf(),
            final(decoder).frame() == old(decoder).frame(),
    {
        reveal(OpCodeHandler_VEX_VK_R::spec_decode);
        let state: State = decoder.state;
        let check: bool = decoder.invalid_check;
        decoder.set_invalid_instruction_if(
            check && (state.vvvv != 0 || state.extra_register_base != 0),
        );
        instruction.set_code(self.code);
        instruction.set_op0_register(register::offset(register::K0, state.reg));
        decoder.op_reg(instruction, 1, state.rm_register(self.gpr));
    }
}

/// `r, k`; the memory form is invalid.
#[derive(Clone, Copy, Debug, PartialEq, Eq, Structural)]
pub struct OpCodeHandler_VEX_G_VK {
    pub has_modrm: bool,
    pub code: u32,
    pub gpr: u32,
}

impl OpCodeHandler_VEX_G_VK {
    /// A handler that yields `code` with the first operand in the class that starts at `gpr`.
    pub fn new(code: u32, gpr: u32) -> (handler: Self)
        ensures
            handler == (Self { has_modrm: true, code, gpr }),
    {
        Self { has_modrm: true, code, gpr }
    }

    /// The handler's registers are register numbers.
    pub open spec fn wf(&self) -> bool {
        self.gpr < register::COUNT
    }

    /// Whether the handler is well-formed.
    #[verifier::when_used_as_spec(wf)]
    pub fn is_wf(&self) -> (b: bool)
        ensures
            b == self.wf(),
    {
        self.gpr < register::COUNT
    }

    /// Decoder and record as [`Self::decode`] leaves them.
    #[verifier::opaque]
    pub open spec fn spec_decode(&self, d: Decoder, i: Instruction) -> Decoded {
        let state = d.state;
        let check = d.invalid_check;
        Decoded::at(d, i)
            .invalid_if(check && state.vvvv != 0)
            .code(self.code)
            .op_register(0, state.reg_register(self.gpr))
            .op_reg(1, register::offset(register::K0, state.rm))
    }

    /// Decodes the operands of the instruction into `instruction`.
    pub fn decode(&self, decoder: &mut Decoder, instruction: &mut Instruction)
        requires
            old(decoder).wf(),
            self.wf(),
            old(decoder).state.encoding == EncodingKind::VEX || old(decoder).state.encoding
                == EncodingKind::XOP,
        ensures
            *final(decoder) == self.spec_decode(*old(decoder), *old(instruction)).decoder,
            *final(instruction) == self.spec_decode(
                *old(decoder),
                *old(instruction),
            ).instruction,
            final(decoder).wf(),
            final(decoder).frame() == old(decoder).frame(),
    {
        reveal(OpCodeHandler_VEX_G_VK::spec_decode);
        let state: State = decoder.state;
        let check: bool = decoder.invalid_check;
        decoder.set_invalid_instruction_if(check && state.vvvv != 0);
        instruction.set_code(self.code);
        instruction.set_op0_register(state.reg_register(self.gpr));
        decoder.op_reg(instruction, 1, register::offset(register::K0, state.rm));
    }
}

/// A VEX handler of an instruction on mask registers.
#[derive(Clone, Copy, Debug, PartialEq, Eq, Structural)]
pub enum VexMaskHandler {
    VEX_VK_HK_RK(OpCodeHandler_VEX_VK_HK_RK),
    VEX_VK_RK(OpCodeHandler_VEX_VK_RK),
    VEX_VK_RK_Ib(OpCodeHandler_VEX_VK_RK_Ib),
    VEX_VK_WK(OpCodeHandler_VEX_VK_WK),
    VEX_M_VK(OpCodeHandler_VEX_M_VK),
    VEX_VK_R(OpCodeHandler_VEX_VK_R),
    VEX_G_VK(OpCodeHandler_VEX_G_VK),
}

impl VexMaskHandler {
    /// Whether a ModRM byte follows the opcode.
    pub open spec fn spec_has_modrm(&self) -> bool {
        match self {
            VexMaskHandler::VEX_VK_HK_RK(h) => h.has_modrm,
            VexMaskHandler::VEX_VK_RK(h) => h.has_modrm,
            VexMaskHandler::VEX_VK_RK_Ib(h) => h.has_modrm,
            VexMaskHandler::VEX_VK_WK(h) => h.has_modrm,
            VexMaskHandler::VEX_M_VK(h) => h.has_modrm,
            VexMaskHandler::VEX_VK_R(h) => h.has_modrm,
            VexMaskHandler::VEX_G_VK(h) => h.has_modrm,
        }
    }

    /// Whether a ModRM byte follows the opcode.
    #[verifier::when_used_as_spec(spec_has_modrm)]
    pub fn has_modrm(&self) -> (b: bool)
        ensures
            b == self.spec_has_modrm(),
    {
        match self {
            VexMaskHandler::VEX_VK_HK_RK(h) => h.has_modrm,
            VexMaskHandler::VEX_VK_RK(h) => h.has_modrm,
            VexMaskHandler::VEX_VK_RK_Ib(h) => h.has_modrm,
            VexMaskHandler::VEX_VK_WK(h) => h.has_modrm,
            VexMaskHandler::VEX_M_VK(h) => h.has_modrm,
            VexMaskHandler::VEX_VK_R(h) => h.has_modrm,
            VexMaskHandler::VEX_G_VK(h) => h.has_modrm,
        }
    }

    /// The handler is well-formed.
    pub open spec fn wf(&self) -> bool {
        match self {
            VexMaskHandler::VEX_VK_HK_RK(_) => true,
            VexMaskHandler::VEX_VK_RK(_) => true,
            VexMaskHandler::VEX_VK_RK_Ib(_) => true,
            VexMaskHandler::VEX_VK_WK(_) => true,
            VexMaskHandler::VEX_M_VK(_) => true,
            VexMaskHandler::VEX_VK_R(h) => h.wf(),
            VexMaskHandler::VEX_G_VK(h) => h.wf(),
        }
    }

    /// Whether the handler is well-formed.
    #[verifier::when_used_as_spec(wf)]
    pub fn is_wf(&self) -> (b: bool)
        ensures
            b == self.wf(),
    {
        match self {
            VexMaskHandler::VEX_VK_HK_RK(_) => true,
            VexMaskHandler::VEX_VK_RK(_) => true,
            VexMaskHandler::VEX_VK_RK_Ib(_) => true,
            VexMaskHandler::VEX_VK_WK(_) => true,
            VexMaskHandler::VEX_M_VK(_) => true,
            VexMaskHandler::VEX_VK_R(h) => h.is_wf(),
            VexMaskHandler::VEX_G_VK(h) => h.is_wf(),
        }
    }

    /// Decoder and record as [`Self::decode`] leaves them.
    #[verifier::opaque]
    pub open spec fn spec_decode(&self, d: Decoder, i: Instruction) -> Decoded {
        match self {
            VexMaskHandler::VEX_VK_HK_RK(h) => h.spec_decode(d, i),
            VexMaskHandler::VEX_VK_RK(h) => h.spec_decode(d, i),
            VexMaskHandler::VEX_VK_RK_Ib(h) => h.spec_decode(d, i),
            VexMaskHandler::VEX_VK_WK(h) => h.spec_decode(d, i),
            VexMaskHandler::VEX_M_VK(h) => h.spec_decode(d, i),
            VexMaskHandler::VEX_VK_R(h) => h.spec_decode(d, i),
            VexMaskHandler::VEX_G_VK(h) => h.spec_decode(d, i),
        }
    }

    /// Decodes the operands of the instruction with the handler that `self` holds.
    pub fn decode(&self, decoder: &mut Decoder, instruction: &mut Instruction)
        requires
            old(decoder).wf(),
            self.wf(),
            old(decoder).state.encoding == EncodingKind::VEX || old(decoder).state.encoding
                == EncodingKind::XOP,
        ensures
            *final(decoder) == self.spec_decode(*old(decoder), *old(instruction)).decoder,
            *final(instruction) == self.spec_decode(
                *old(decoder),
                *old(instruction),
            ).instruction,
            final(decoder).wf(),
            final(decoder).frame() == old(decoder).frame(),
    {
        reveal(VexMaskHandler::spec_decode);
        match self {
            VexMaskHandler::VEX_VK_HK_RK(h) => h.decode(decoder, instruction),
            VexMaskHandler::VEX_VK_RK(h) => h.decode(decoder, instruction),
            VexMaskHandler::VEX_VK_RK_Ib(h) => h.decode(decoder, instruction),
            VexMaskHandler::VEX_VK_WK(h) => h.decode(decoder, instruction),
            VexMaskHandler::VEX_M_VK(h) => h.decode(decoder, instruction),
            VexMaskHandler::VEX_VK_R(h) => h.decode(decoder, instruction),
            VexMaskHandler::VEX_G_VK(h) => h.decode(decoder, instruction),
        }
    }
}

} // verus!
