//! VEX and XOP handlers with at most two encoded operands.
//!
//! These instructions have no use for the register that the prefix
//! selects: a vvvv field that is not zero makes them invalid, where invalid
//! encodings are checked for.  A 64-bit general purpose operand needs W
//! and 64-bit mode.
use vstd::prelude::*;
use crate::decoder::{Decoder, State};
use crate::enums::{EncodingKind, OpKind};
use crate::instruction::Instruction;
use crate::operand::{seg_rdi_kind, Decoded};
use crate::register;

verus! {

/// No operand.
#[derive(Clone, Copy, Debug, PartialEq, Eq, Structural)]
pub struct OpCodeHandler_VEX_Simple {
    pub has_modrm: bool,
    pub code: u32,
}

impl OpCodeHandler_VEX_Simple {
    /// A handler that yields `code`.
    pub fn new(code: u32) -> (handler: Self)
        ensures
            handler == (Self { has_modrm: false, code }),
    {
        Self { has_modrm: false, code }
    }

    /// Decoder and record as [`Self::decode`] leaves them.
    #[verifier::opaque]
    pub open spec fn spec_decode(&self, d: Decoder, i: Instruction) -> Decoded {
        let state = d.state;
        let check = d.invalid_check;
        Decoded::at(d, i).invalid_if(check && state.vvvv != 0).code(self.code)
    }

    /// Decodes the operands of the instruction into `instruction`.
    pub fn decode(&self, decoder: &mut Decoder, instruction: &mut Instruction)
        requires
            old(decoder).wf(),
            old(decoder).state.encoding == EncodingKind::VEX || old(decoder).state.encoding
                == EncodingKind::XOP,
        ensures
            *final(decoder) == self.spec_decode(*old(decoder), *old(instruction)).decoder,
            *final(instruction) == self.spec_decode(
                *old(decoder),
                *old(instruction),
            ).instruction,
            final(decoder).wf(),
            final(decoder).frame() == old(decoder).frame(),
    {
        reveal(OpCodeHandler_VEX_Simple::spec_decode);
        let state: State = decoder.state;
        let check: bool = decoder.invalid_check;
        decoder.set_invalid_instruction_if(check && state.vvvv != 0);
        instruction.set_code(self.code);
    }
}

/// `v, v/m`, the two operands each in a class of its own.
#[derive(Clone, Copy, Debug, PartialEq, Eq, Structural)]
pub struct OpCodeHandler_VEX_VW {
    pub has_modrm: bool,
    pub base_reg1: u32,
    pub base_reg2: u32,
    pub code: u32,
}

impl OpCodeHandler_VEX_VW {
    /// A handler that yields `code` with operands in the classes that start at `base_reg1` and `base_reg2`.
    pub fn new(base_reg1: u32, base_reg2: u32, code: u32) -> (handler: Self)
        ensures
            handler == (Self { has_modrm: true, base_reg1, base_reg2, code }),
    {
        Self { has_modrm: true, base_reg1, base_reg2, code }
    }

    /// The handler's registers are register numbers.
    pub open spec fn wf(&self) -> bool {
        &&& self.base_reg1 < register::COUNT
        &&& self.base_reg2 < register::COUNT
    }

    /// Whether the handler is well-formed.
    #[verifier::when_used_as_spec(wf)]
    pub fn is_wf(&self) -> (b: bool)
        ensures
            b == self.wf(),
    {
        self.base_reg1 < register::COUNT && self.base_reg2 < register::COUNT
    }

    /// Decoder and record as [`Self::decode`] leaves them.
    #[verifier::opaque]
    pub open spec fn spec_decode(&self, d: Decoder, i: Instruction) -> Decoded {
        let state = d.state;
        let check = d.invalid_check;
        Decoded::at(d, i)
            .invalid_if(check && state.vvvv != 0)
            .code(self.code)
            .op_register(0, state.reg_register(self.base_reg1))
            .op_rm(1, state.rm_register(self.base_reg2))
    }

    /// Decodes the operands of the instruction into `instruction`.
    pub fn decode(&self, decoder: &mut Decoder, instruction: &mut Instruction)
        requires
            old(decoder).wf(),
            self.wf(),
            old(decoder).state.encoding == EncodingKind::VEX || old(decoder).state.encoding
                == EncodingKind::XOP,
        ensures
            *final(decoder) == self.spec_decode(*old(decoder), *old(instruction)).decoder,
            *final(instruction) == self.spec_decode(
                *old(decoder),
                *old(instruction),
            ).instruction,
            final(decoder).wf(),
            final(decoder).frame() == old(decoder).frame(),
    {
        reveal(OpCodeHandler_VEX_VW::spec_decode);
        let state: State = decoder.state;
        let check: bool = decoder.invalid_check;
        decoder.set_invalid_instruction_if(check && state.vvvv != 0);
        instruction.set_code(self.code);
        instruction.set_op0_register(state.reg_register(self.base_reg1));
        decoder.op_rm(instruction, 1, state.rm_register(self.base_reg2));
    }
}

/// `xmm, r/m`.
#[derive(Clone, Copy, Debug, PartialEq, Eq, Structural)]
pub struct OpCodeHandler_VEX_VX_Ev {
    pub has_modrm: bool,
    pub code32: u32,
    pub code64: u32,
}

impl OpCodeHandler_VEX_VX_Ev {
    /// A handler that yields `code64` for a 64-bit second operand, else `code32`.
    pub fn new(code32: u32, code64: u32) -> (handler: Self)
        ensures
            handler == (Self { has_modrm: true, code32, code64 }),
    {
        Self { has_modrm: true, code32, code64 }
    }

    /// Decoder and record as [`Self::decode`] leaves them.
    #[verifier::opaque]
    pub open spec fn spec_decode(&self, d: Decoder, i: Instruction) -> Decoded {
        let state = d.state;
        let is64_mode = d.is64_mode;
        let check = d.invalid_check;
        Decoded::at(d, i)
            .invalid_if(check && state.vvvv != 0)
            .code(if is64_mode && state.flags.w { self.code64 } else { self.code32 })
            .op_register(0, state.reg_register(register::XMM0))
            .op_rm(1, state.rm_register(register::gpr32_or_64(is64_mode && state.flags.w)))
    }

    /// Decodes the operands of the instruction into `instruction`.
    pub fn decode(&self, decoder: &mut Decoder, instruction: &mut Instruction)
        requires
            old(decoder).wf(),
            old(decoder).state.encoding == EncodingKind::VEX || old(decoder).state.encoding
                == EncodingKind::XOP,
        ensures
            *final(decoder) == self.spec_decode(*old(decoder), *old(instruction)).decoder,
            *final(instruction) == self.spec_decode(
                *old(decoder),
                *old(instruction),
            ).instruction,
            final(decoder).wf(),
            final(decoder).frame() == old(decoder).frame(),
    {
        reveal(OpCodeHandler_VEX_VX_Ev::spec_decode);
        let state: State = decoder.state;
        let is64_mode: bool = decoder.is64_mode;
        let check: bool = decoder.invalid_check;
        decoder.set_invalid_instruction_if(check && state.vvvv != 0);
        instruction.set_code(if is64_mode && state.flags.w { self.code64 } else { self.code32 });
        instruction.set_op0_register(state.reg_register(register::XMM0));
        decoder.op_rm(
            instruction,
            1,
            state.rm_register(register::gpr32_or_64(is64_mode && state.flags.w)),
        );
    }
}

/// `r/m, xmm`.
#[derive(Clone, Copy, Debug, PartialEq, Eq, Structural)]
pub struct OpCodeHandler_VEX_Ev_VX {
    pub has_modrm: bool,
    pub code32: u32,
    pub code64: u32,
}

impl OpCodeHandler_VEX_Ev_VX {
    /// A handler that yields `code64` for a 64-bit first operand, else `code32`.
    pub fn new(code32: u32, code64: u32) -> (handler: Self)
        ensures
            handler == (Self { has_modrm: true, code32, code64 }),
    {
        Self { has_modrm: true, code32, code64 }
    }

    /// Decoder and record as [`Self::decode`] leaves them.
    #[verifier::opaque]
    pub open spec fn spec_decode(&self, d: Decoder, i: Instruction) -> Decoded {
        let state = d.state;
        let is64_mode = d.is64_mode;
        let check = d.invalid_check;
        Decoded::at(d, i)
            .invalid_if(check && state.vvvv != 0)
            .code(if is64_mode && state.flags.w { self.code64 } else { self.code32 })
            .op_rm(0, state.rm_register(register::gpr32_or_64(is64_mode && state.flags.w)))
            .op_register(1, state.reg_register(register::XMM0))
    }

    /// Decodes the operands of the instruction into `instruction`.
    pub fn decode(&self, decoder: &mut Decoder, instruction: &mut Instruction)
        requires
            old(decoder).wf(),
            old(decoder).state.encoding == EncodingKind::VEX || old(decoder).state.encoding
                == EncodingKind::XOP,
        ensures
            *final(decoder) == self.spec_decode(*old(decoder), *old(instruction)).decoder,
            *final(instruction) == self.spec_decode(
                *old(decoder),
                *old(instruction),
            ).instruction,
            final(decoder).wf(),
            final(decoder).frame() == old(decoder).frame(),
    {
        reveal(OpCodeHandler_VEX_Ev_VX::spec_decode);
        let state: State = decoder.state;
        let is64_mode: bool = decoder.is64_mode;
        let check: bool = decoder.invalid_check;
        decoder.set_invalid_instruction_if(check && state.vvvv != 0);
        instruction.set_code(if is64_mode && state.flags.w { self.code64 } else { self.code32 });
        decoder.op_rm(
            instruction,
            0,
            state.rm_register(register::gpr32_or_64(is64_mode && state.flags.w)),
        );
        instruction.set_op1_register(state.reg_register(register::XMM0));
    }
}

/// `v/m, v`.
#[derive(Clone, Copy, Debug, PartialEq, Eq, Structural)]
pub struct OpCodeHandler_VEX_WV {
    pub has_modrm: bool,
    pub base_reg1: u32,
    pub base_reg2: u32,
    pub code: u32,
}

impl OpCodeHandler_VEX_WV {
    /// A handler that yields `code` in the class that starts at `reg`.
    pub fn new(reg: u32, code: u32) -> (handler: Self)
        ensures
            handler == (Self { has_modrm: true, base_reg1: reg, base_reg2: reg, code }),
    {
        Self { has_modrm: true, base_reg1: reg, base_reg2: reg, code }
    }

    /// The handler's registers are register numbers.
    pub open spec fn wf(&self) -> bool {
        &&& self.base_reg1 < register::COUNT
        &&& self.base_reg2 < register::COUNT
    }

    /// Whether the handler is well-formed.
    #[verifier::when_used_as_spec(wf)]
    pub fn is_wf(&self) -> (b: bool)
        ensures
            b == self.wf(),
    {
        self.base_reg1 < register::COUNT && self.base_reg2 < register::COUNT
    }

    /// Decoder and record as [`Self::decode`] leaves them.
    #[verifier::opaque]
    pub open spec fn spec_decode(&self, d: Decoder, i: Instruction) -> Decoded {
        let state = d.state;
        let check = d.invalid_check;
        Decoded::at(d, i)
            .invalid_if(check && state.vvvv != 0)
            .code(self.code)
            .op_rm(0, state.rm_register(self.base_reg2))
            .op_register(1, state.reg_register(self.base_reg1))
    }

    /// Decodes the operands of the instruction into `instruction`.
    pub fn decode(&self, decoder: &mut Decoder, instruction: &mut Instruction)
        requires
            old(decoder).wf(),
            self.wf(),
            old(decoder).state.encoding == EncodingKind::VEX || old(decoder).state.encoding
                == EncodingKind::XOP,
        ensures
            *final(decoder) == self.spec_decode(*old(decoder), *old(instruction)).decoder,
            *final(instruction) == self.spec_decode(
                *old(decoder),
                *old(instruction),
            ).instruction,
            final(decoder).wf(),
            final(decoder).frame() == old(decoder).frame(),
    {
        reveal(OpCodeHandler_VEX_WV::spec_decode);
        let state: State = decoder.state;
        let check: bool = decoder.invalid_check;
        decoder.set_invalid_instruction_if(check && state.vvvv != 0);
        instruction.set_code(self.code);
        decoder.op_rm(instruction, 0, state.rm_register(self.base_reg2));
        instruction.set_op1_register(state.reg_register(self.base_reg1));
    }
}

/// `v, m`; the register form is invalid.
#[derive(Clone, Copy, Debug, PartialEq, Eq, Structural)]
pub struct OpCodeHandler_VEX_VM {
    pub has_modrm: bool,
    pub base_reg: u32,
    pub code: u32,
}

impl OpCodeHandler_VEX_VM {
    /// A handler that yields `code` in the class that starts at `base_reg`.
    pub fn new(base_reg: u32, code: u32) -> (handler: Self)
        ensures
            handler == (Self { has_modrm: true, base_reg, code }),
    {
        Self { has_modrm: true, base_reg, code }
    }

    /// The handler's registers are register numbers.
    pub open spec fn wf(&self) -> bool {
        self.base_reg < register::COUNT
    }

    /// Whether the handler is well-formed.
    #[verifier::when_used_as_spec(wf)]
    pub fn is_wf(&self) -> (b: bool)
        ensures
            b == self.wf(),
    {
        self.base_reg < register::COUNT
    }

    /// Decoder and record as [`Self::decode`] leaves them.
    #[verifier::opaque]
    pub open spec fn spec_decode(&self, d: Decoder, i: Instruction) -> Decoded {
        let state = d.state;
        let check = d.invalid_check;
        Decoded::at(d, i)
            .invalid_if(check && state.vvvv != 0)
            .code(self.code)
            .op_register(0, state.reg_register(self.base_reg))
            .op_mem(1)
    }

    /// Decodes the operands of the instruction into `instruction`.
    pub fn decode(&self, decoder: &mut Decoder, instruction: &mut Instruction)
        requires
            old(decoder).wf(),
            self.wf(),
            old(decoder).state.encoding == EncodingKind::VEX || old(decoder).state.encoding
                == EncodingKind::XOP,
        ensures
            *final(decoder) == self.spec_decode(*old(decoder), *old(instruction)).decoder,
            *final(instruction) == self.spec_decode(
                *old(decoder),
                *old(instruction),
            ).instruction,
            final(decoder).wf(),
            final(decoder).frame() == old(decoder).frame(),
    {
        reveal(OpCodeHandler_VEX_VM::spec_decode);
        let state: State = decoder.state;
        let check: bool = decoder.invalid_check;
        decoder.set_invalid_instruction_if(check && state.vvvv != 0);
        instruction.set_code(self.code);
        instruction.set_op0_register(state.reg_register(self.base_reg));
        decoder.op_mem(instruction, 1);
    }
}

/// `m, v`; the register form is invalid.
#[derive(Clone, Copy, Debug, PartialEq, Eq, Structural)]
pub struct OpCodeHandler_VEX_MV {
    pub has_modrm: bool,
    pub base_reg: u32,
    pub code: u32,
}

impl OpCodeHandler_VEX_MV {
    /// A handler that yields `code` in the class that starts at `base_reg`.
    pub fn new(base_reg: u32, code: u32) -> (handler: Self)
        ensures
            handler == (Self { has_modrm: true, base_reg, code }),
    {
        Self { has_modrm: true, base_reg, code }
    }

    /// The handler's registers are register numbers.
    pub open spec fn wf(&self) -> bool {
        self.base_reg < register::COUNT
    }

    /// Whether the handler is well-formed.
    #[verifier::when_used_as_spec(wf)]
    pub fn is_wf(&self) -> (b: bool)
        ensures
            b == self.wf(),
    {
        self.base_reg < register::COUNT
    }

    /// Decoder and record as [`Self::decode`] leaves them.
    #[verifier::opaque]
    pub open spec fn spec_decode(&self, d: Decoder, i: Instruction) -> Decoded {
        let state = d.state;
        let check = d.invalid_check;
        Decoded::at(d, i)
            .invalid_if(check && state.vvvv != 0)
            .code(self.code)
            .op_mem(0)
            .op_register(1, state.reg_register(self.base_reg))
    }

    /// Decodes the operands of the instruction into `instruction`.
    pub fn decode(&self, decoder: &mut Decoder, instruction: &mut Instruction)
        requires
            old(decoder).wf(),
            self.wf(),
            old(decoder).state.encoding == EncodingKind::VEX || old(decoder).state.encoding
                == EncodingKind::XOP,
        ensures
            *final(decoder) == self.spec_decode(*old(decoder), *old(instruction)).decoder,
            *final(instruction) == self.spec_decode(
                *old(decoder),
                *old(instruction),
            ).instruction,
            final(decoder).wf(),
            final(decoder).frame() == old(decoder).frame(),
    {
        reveal(OpCodeHandler_VEX_MV::spec_decode);
        let state: State = decoder.state;
        let check: bool = decoder.invalid_check;
        decoder.set_invalid_instruction_if(check && state.vvvv != 0);
        instruction.set_code(self.code);
        decoder.op_mem(instruction, 0);
        instruction.set_op1_register(state.reg_register(self.base_reg));
    }
}

/// `m`; the register form is invalid.
#[derive(Clone, Copy, Debug, PartialEq, Eq, Structural)]
pub struct OpCodeHandler_VEX_M {
    pub has_modrm: bool,
    pub code: u32,
}

impl OpCodeHandler_VEX_M {
    /// A handler that yields `code`.
    pub fn new(code: u32) -> (handler: Self)
        ensures
            handler == (Self { has_modrm: true, code }),
    {
        Self { has_modrm: true, code }
    }

    /// Decoder and record as [`Self::decode`] leaves them.
    #[verifier::opaque]
    pub open spec fn spec_decode(&self, d: Decoder, i: Instruction) -> Decoded {
        let state = d.state;
        let check = d.invalid_check;
        Decoded::at(d, i).invalid_if(check && state.vvvv != 0).code(self.code).op_mem(0)
    }

    /// Decodes the operands of the instruction into `instruction`.
    pub fn decode(&self, decoder: &mut Decoder, instruction: &mut Instruction)
        requires
            old(decoder).wf(),
            old(decoder).state.encoding == EncodingKind::VEX || old(decoder).state.encoding
                == EncodingKind::XOP,
        ensures
            *final(decoder) == self.spec_decode(*old(decoder), *old(instruction)).decoder,
            *final(instruction) == self.spec_decode(
                *old(decoder),
                *old(instruction),
            ).instruction,
            final(decoder).wf(),
            final(decoder).frame() == old(decoder).frame(),
    {
        reveal(OpCodeHandler_VEX_M::spec_decode);
        let state: State = decoder.state;
        let check: bool = decoder.invalid_check;
        decoder.set_invalid_instruction_if(check && state.vvvv != 0);
        instruction.set_code(self.code);
        decoder.op_mem(instruction, 0);
    }
}

/// A general purpose register that rm selects; the memory form is invalid.
#[derive(Clone, Copy, Debug, PartialEq, Eq, Structural)]
pub struct OpCodeHandler_VEX_RdRq {
    pub has_modrm: bool,
    pub code32: u32,
    pub code64: u32,
}

impl OpCodeHandler_VEX_RdRq {
    /// A handler that yields `code64` for a 64-bit operand, else `code32`.
    pub fn new(code32: u32, code64: u32) -> (handler: Self)
        ensures
            handler == (Self { has_modrm: true, code32, code64 }),
    {
        Self { has_modrm: true, code32, code64 }
    }

    /// Decoder and record as [`Self::decode`] leaves them.
    #[verifier::opaque]
    pub open spec fn spec_decode(&self, d: Decoder, i: Instruction) -> Decoded {
        let state = d.state;
        let is64_mode = d.is64_mode;
        let check = d.invalid_check;
        Decoded::at(d, i)
            .invalid_if(check && state.vvvv != 0)
            .code(if is64_mode && state.flags.w { self.code64 } else { self.code32 })
            .op_register(0, state.rm_register(register::gpr32_or_64(is64_mode && state.flags.w)))
            .invalid_if(state.mod_ != 3)
    }

    /// Decodes the operands of the instruction into `instruction`.
    pub fn decode(&self, decoder: &mut Decoder, instruction: &mut Instruction)
        requires
            old(decoder).wf(),
            old(decoder).state.encoding == EncodingKind::VEX || old(decoder).state.encoding
                == EncodingKind::XOP,
        ensures
            *final(decoder) == self.spec_decode(*old(decoder), *old(instruction)).decoder,
            *final(instruction) == self.spec_decode(
                *old(decoder),
                *old(instruction),
            ).instruction,
            final(decoder).wf(),
            final(decoder).frame() == old(decoder).frame(),
    {
        reveal(OpCodeHandler_VEX_RdRq::spec_decode);
        let state: State = decoder.state;
        let is64_mode: bool = decoder.is64_mode;
        let check: bool = decoder.invalid_check;
        decoder.set_invalid_instruction_if(check && state.vvvv != 0);
        instruction.set_code(if is64_mode && state.flags.w { self.code64 } else { self.code32 });
        instruction.set_op0_register(
            state.rm_register(register::gpr32_or_64(is64_mode && state.flags.w)),
        );
        decoder.set_invalid_instruction_if(state.mod_ != 3);
    }
}

/// `seg:[rDI], v, v`; the memory form of the last operand is invalid.
#[derive(Clone, Copy, Debug, PartialEq, Eq, Structural)]
pub struct OpCodeHandler_VEX_rDI_VX_RX {
    pub has_modrm: bool,
    pub base_reg: u32,
    pub code: u32,
}

impl OpCodeHandler_VEX_rDI_VX_RX {
    /// A handler that yields `code` in the class that starts at `base_reg`.
    pub fn new(base_reg: u32, code: u32) -> (handler: Self)
        ensures
            handler == (Self { has_modrm: true, base_reg, code }),
    {
        Self { has_modrm: true, base_reg, code }
    }

    /// The handler's registers are register numbers.
    pub open spec fn wf(&self) -> bool {
        self.base_reg < register::COUNT
    }

    /// Whether the handler is well-formed.
    #[verifier::when_used_as_spec(wf)]
    pub fn is_wf(&self) -> (b: bool)
        ensures
            b == self.wf(),
    {
        self.base_reg < register::COUNT
    }

    /// Decoder and record as [`Self::decode`] leaves them.
    #[verifier::opaque]
    pub open spec fn spec_decode(&self, d: Decoder, i: Instruction) -> Decoded {
        let state = d.state;
        let check = d.invalid_check;
        Decoded::at(d, i)
            .invalid_if(check && state.vvvv != 0)
            .code(self.code)
            .op_kind(0, seg_rdi_kind(state.address_size))
            .op_register(1, state.reg_register(self.base_reg))
            .op_reg(2, state.rm_register(self.base_reg))
    }

    /// Decodes the operands of the instruction into `instruction`.
    pub fn decode(&self, decoder: &mut Decoder, instruction: &mut Instruction)
        requires
            old(decoder).wf(),
            self.wf(),
            old(decoder).state.encoding == EncodingKind::VEX || old(decoder).state.encoding
                == EncodingKind::XOP,
        ensures
            *final(decoder) == self.spec_decode(*old(decoder), *old(instruction)).decoder,
            *final(instruction) == self.spec_decode(
                *old(decoder),
                *old(instruction),
            ).instruction,
            final(decoder).wf(),
            final(decoder).frame() == old(decoder).frame(),
    {
        reveal(OpCodeHandler_VEX_rDI_VX_RX::spec_decode);
        let state: State = decoder.state;
        let check: bool = decoder.invalid_check;
        decoder.set_invalid_instruction_if(check && state.vvvv != 0);
        instruction.set_code(self.code);
        instruction.set_op0_kind(seg_rdi_kind(state.address_size));
        instruction.set_op1_register(state.reg_register(self.base_reg));
        decoder.op_reg(instruction, 2, state.rm_register(self.base_reg));
    }
}

/// `v, v/m, imm8`, the two operands each in a class of its own.
#[derive(Clone, Copy, Debug, PartialEq, Eq, Structural)]
pub struct OpCodeHandler_VEX_VWIb {
    pub has_modrm: bool,
    pub base_reg1: u32,
    pub base_reg2: u32,
    pub code_w0: u32,
    pub code_w1: u32,
}

impl OpCodeHandler_VEX_VWIb {
    /// A handler that yields `code_w1` under W in 64-bit mode, else `code_w0`.
    pub fn new(base_reg1: u32, base_reg2: u32, code_w0: u32, code_w1: u32) -> (handler: Self)
        ensures
            handler == (Self { has_modrm: true, base_reg1, base_reg2, code_w0, code_w1 }),
    {
        Self { has_modrm: true, base_reg1, base_reg2, code_w0, code_w1 }
    }

    /// The handler's registers are register numbers.
    pub open spec fn wf(&self) -> bool {
        &&& self.base_reg1 < register::COUNT
        &&& self.base_reg2 < register::COUNT
    }

    /// Whether the handler is well-formed.
    #[verifier::when_used_as_spec(wf)]
    pub fn is_wf(&self) -> (b: bool)
        ensures
            b == self.wf(),
    {
        self.base_reg1 < register::COUNT && self.base_reg2 < register::COUNT
    }

    /// Decoder and record as [`Self::decode`] leaves them.
    #[verifier::opaque]
    pub open spec fn spec_decode(&self, d: Decoder, i: Instruction) -> Decoded {
        let state = d.state;
        let is64_mode = d.is64_mode;
        let check = d.invalid_check;
        Decoded::at(d, i)
            .invalid_if(check && state.vvvv != 0)
            .code(if is64_mode && state.flags.w { self.code_w1 } else { self.code_w0 })
            .op_register(0, state.reg_register(self.base_reg1))
            .op_rm(1, state.rm_register(self.base_reg2))
            .imm8(2, OpKind::Immediate8)
    }

    /// Decodes the operands of the instruction into `instruction`.
    pub fn decode(&self, decoder: &mut Decoder, instruction: &mut Instruction)
        requires
            old(decoder).wf(),
            self.wf(),
            old(decoder).state.encoding == EncodingKind::VEX || old(decoder).state.encoding
                == EncodingKind::XOP,
        ensures
            *final(decoder) == self.spec_decode(*old(decoder), *old(instruction)).decoder,
            *final(instruction) == self.spec_decode(
                *old(decoder),
                *old(instruction),
            ).instruction,
            final(decoder).wf(),
            final(decoder).frame() == old(decoder).frame(),
    {
        reveal(OpCodeHandler_VEX_VWIb::spec_decode);
        let state: State = decoder.state;
        let is64_mode: bool = decoder.is64_mode;
        let check: bool = decoder.invalid_check;
        decoder.set_invalid_instruction_if(check && state.vvvv != 0);
        instruction.set_code(if is64_mode && state.flags.w { self.code_w1 } else { self.code_w0 });
        instruction.set_op0_register(state.reg_register(self.base_reg1));
        decoder.op_rm(instruction, 1, state.rm_register(self.base_reg2));
        decoder.op_imm8(instruction, 2, OpKind::Immediate8);
    }
}

/// `v/m, v, imm8`, the two operands each in a class of its own.
#[derive(Clone, Copy, Debug, PartialEq, Eq, Structural)]
pub struct OpCodeHandler_VEX_WVIb {
    pub has_modrm: bool,
    pub base_reg1: u32,
    pub base_reg2: u32,
    pub code: u32,
}

impl OpCodeHandler_VEX_WVIb {
    /// A handler that yields `code` with operands in the classes that start at `base_reg1` and `base_reg2`.
    pub fn new(base_reg1: u32, base_reg2: u32, code: u32) -> (handler: Self)
        ensures
            handler == (Self { has_modrm: true, base_reg1, base_reg2, code }),
    {
        Self { has_modrm: true, base_reg1, base_reg2, code }
    }

    /// The handler's registers are register numbers.
    pub open spec fn wf(&self) -> bool {
        &&& self.base_reg1 < register::COUNT
        &&& self.base_reg2 < register::COUNT
    }

    /// Whether the handler is well-formed.
    #[verifier::when_used_as_spec(wf)]
    pub fn is_wf(&self) -> (b: bool)
        ensures
            b == self.wf(),
    {
        self.base_reg1 < register::COUNT && self.base_reg2 < register::COUNT
    }

    /// Decoder and record as [`Self::decode`] leaves them.
    #[verifier::opaque]
    pub open spec fn spec_decode(&self, d: Decoder, i: Instruction) -> Decoded {
        let state = d.state;
        let check = d.invalid_check;
        Decoded::at(d, i)
            .invalid_if(check && state.vvvv != 0)
            .code(self.code)
            .op_rm(0, state.rm_register(self.base_reg1))
            .op_register(1, state.reg_register(self.base_reg2))
            .imm8(2, OpKind::Immediate8)
    }

    /// Decodes the operands of the instruction into `instruction`.
    pub fn decode(&self, decoder: &mut Decoder, instruction: &mut Instruction)
        requires
            old(decoder).wf(),
            self.wf(),
            old(decoder).state.encoding == EncodingKind::VEX || old(decoder).state.encoding
                == EncodingKind::XOP,
        ensures
            *final(decoder) == self.spec_decode(*old(decoder), *old(instruction)).decoder,
            *final(instruction) == self.spec_decode(
                *old(decoder),
                *old(instruction),
            ).instruction,
            final(decoder).wf(),
            final(decoder).frame() == old(decoder).frame(),
    {
        reveal(OpCodeHandler_VEX_WVIb::spec_decode);
        let state: State = decoder.state;
        let check: bool = decoder.invalid_check;
        decoder.set_invalid_instruction_if(check && state.vvvv != 0);
        instruction.set_code(self.code);
        decoder.op_rm(instruction, 0, state.rm_register(self.base_reg1));
        instruction.set_op1_register(state.reg_register(self.base_reg2));
        decoder.op_imm8(instruction, 2, OpKind::Immediate8);
    }
}

/// `r/m, v, imm8`.
#[derive(Clone, Copy, Debug, PartialEq, Eq, Structural)]
pub struct OpCodeHandler_VEX_Ed_V_Ib {
    pub has_modrm: bool,
    pub base_reg: u32,
    pub code32: u32,
    pub code64: u32,
}

impl OpCodeHandler_VEX_Ed_V_Ib {
    /// A handler that yields `code64` for a 64-bit first operand, else `code32`.
    pub fn new(base_reg: u32, code32: u32, code64: u32) -> (handler: Self)
        ensures
            handler == (Self { has_modrm: true, base_reg, code32, code64 }),
    {
        Self { has_modrm: true, base_reg, code32, code64 }
    }

    /// The handler's registers are register numbers.
    pub open spec fn wf(&self) -> bool {
        self.base_reg < register::COUNT
    }

    /// Whether the handler is well-formed.
    #[verifier::when_used_as_spec(wf)]
    pub fn is_wf(&self) -> (b: bool)
        ensures
            b == self.wf(),
    {
        self.base_reg < register::COUNT
    }

    /// Decoder and record as [`Self::decode`] leaves them.
    #[verifier::opaque]
    pub open spec fn spec_decode(&self, d: Decoder, i: Instruction) -> Decoded {
        let state = d.state;
        let is64_mode = d.is64_mode;
        let check = d.invalid_check;
        Decoded::at(d, i)
            .invalid_if(check && state.vvvv != 0)
            .code(if is64_mode && state.flags.w { self.code64 } else { self.code32 })
            .op_rm(0, state.rm_register(register::gpr32_or_64(is64_mode && state.flags.w)))
            .op_register(1, state.reg_register(self.base_reg))
            .imm8(2, OpKind::Immediate8)
    }

    /// Decodes the operands of the instruction into `instruction`.
    pub fn decode(&self, decoder: &mut Decoder, instruction: &mut Instruction)
        requires
            old(decoder).wf(),
            self.wf(),
            old(decoder).state.encoding == EncodingKind::VEX || old(decoder).state.encoding
                == EncodingKind::XOP,
        ensures
            *final(decoder) == self.spec_decode(*old(decoder), *old(instruction)).decoder,
            *final(instruction) == self.spec_decode(
                *old(decoder),
                *old(instruction),
            ).instruction,
            final(decoder).wf(),
            final(decoder).frame() == old(decoder).frame(),
    {
        reveal(OpCodeHandler_VEX_Ed_V_Ib::spec_decode);
        let state: State = decoder.state;
        let is64_mode: bool = decoder.is64_mode;
        let check: bool = decoder.invalid_check;
        decoder.set_invalid_instruction_if(check && state.vvvv != 0);
        instruction.set_code(if is64_mode && state.flags.w { self.code64 } else { self.code32 });
        decoder.op_rm(
            instruction,
            0,
            state.rm_register(register::gpr32_or_64(is64_mode && state.flags.w)),
        );
        instruction.set_op1_register(state.reg_register(self.base_reg));
        decoder.op_imm8(instruction, 2, OpKind::Immediate8);
    }
}

/// `r, v/m`.
#[derive(Clone, Copy, Debug, PartialEq, Eq, Structural)]
pub struct OpCodeHandler_VEX_Gv_W {
    pub has_modrm: bool,
    pub base_reg: u32,
    pub code_w0: u32,
    pub code_w1: u32,
}

impl OpCodeHandler_VEX_Gv_W {
    /// A handler that yields `code_w1` for a 64-bit first operand, else `code_w0`.
    pub fn new(base_reg: u32, code_w0: u32, code_w1: u32) -> (handler: Self)
        ensures
            handler == (Self { has_modrm: true, base_reg, code_w0, code_w1 }),
    {
        Self { has_modrm: true, base_reg, code_w0, code_w1 }
    }

    /// The handler's registers are register numbers.
    pub open spec fn wf(&self) -> bool {
        self.base_reg < register::COUNT
    }

    /// Whether the handler is well-formed.
    #[verifier::when_used_as_spec(wf)]
    pub fn is_wf(&self) -> (b: bool)
        ensures
            b == self.wf(),
    {
        self.base_reg < register::COUNT
    }

    /// Decoder and record as [`Self::decode`] leaves them.
    #[verifier::opaque]
    pub open spec fn spec_decode(&self, d: Decoder, i: Instruction) -> Decoded {
        let state = d.state;
        let is64_mode = d.is64_mode;
        let check = d.invalid_check;
        Decoded::at(d, i)
            .invalid_if(check && state.vvvv != 0)
            .code(if is64_mode && state.flags.w { self.code_w1 } else { self.code_w0 })
            .op_register(0, state.reg_register(register::gpr32_or_64(is64_mode && state.flags.w)))
            .op_rm(1, state.rm_register(self.base_reg))
    }

    /// Decodes the operands of the instruction into `instruction`.
    pub fn decode(&self, decoder: &mut Decoder, instruction: &mut Instruction)
        requires
            old(decoder).wf(),
            self.wf(),
            old(decoder).state.encoding == EncodingKind::VEX || old(decoder).state.encoding
                == EncodingKind::XOP,
        ensures
            *final(decoder) == self.spec_decode(*old(decoder), *old(instruction)).decoder,
            *final(instruction) == self.spec_decode(
                *old(decoder),
                *old(instruction),
            ).instruction,
            final(decoder).wf(),
            final(decoder).frame() == old(decoder).frame(),
    {
        reveal(OpCodeHandler_VEX_Gv_W::spec_decode);
        let state: State = decoder.state;
        let is64_mode: bool = decoder.is64_mode;
        let check: bool = decoder.invalid_check;
        decoder.set_invalid_instruction_if(check && state.vvvv != 0);
        instruction.set_code(if is64_mode && state.flags.w { self.code_w1 } else { self.code_w0 });
        instruction.set_op0_register(
            state.reg_register(register::gpr32_or_64(is64_mode && state.flags.w)),
        );
        decoder.op_rm(instruction, 1, state.rm_register(self.base_reg));
    }
}

/// `r, v`; the memory form is invalid.
#[derive(Clone, Copy, Debug, PartialEq, Eq, Structural)]
pub struct OpCodeHandler_VEX_Gv_RX {
    pub has_modrm: bool,
    pub base_reg: u32,
    pub code32: u32,
    pub code64: u32,
}

impl OpCodeHandler_VEX_Gv_RX {
    /// A handler that yields `code64` for a 64-bit first operand, else `code32`.
    pub fn new(base_reg: u32, code32: u32, code64: u32) -> (handler: Self)
        ensures
            handler == (Self { has_modrm: true, base_reg, code32, code64 }),
    {
        Self { has_modrm: true, base_reg, code32, code64 }
    }

    /// The handler's registers are register numbers.
    pub open spec fn wf(&self) -> bool {
        self.base_reg < register::COUNT
    }

    /// Whether the handler is well-formed.
    #[verifier::when_used_as_spec(wf)]
    pub fn is_wf(&self) -> (b: bool)
        ensures
            b == self.wf(),
    {
        self.base_reg < register::COUNT
    }

    /// Decoder and record as [`Self::decode`] leaves them.
    #[verifier::opaque]
    pub open spec fn spec_decode(&self, d: Decoder, i: Instruction) -> Decoded {
        let state = d.state;
        let is64_mode = d.is64_mode;
        let check = d.invalid_check;
        Decoded::at(d, i)
            .invalid_if(check && state.vvvv != 0)
            .code(if is64_mode && state.flags.w { self.code64 } else { self.code32 })
            .op_register(0, state.reg_register(register::gpr32_or_64(is64_mode && state.flags.w)))
            .op_reg(1, state.rm_register(self.base_reg))
    }

    /// Decodes the operands of the instruction into `instruction`.
    pub fn decode(&self, decoder: &mut Decoder, instruction: &mut Instruction)
        requires
            old(decoder).wf(),
            self.wf(),
            old(decoder).state.encoding == EncodingKind::VEX || old(decoder).state.encoding
                == EncodingKind::XOP,
        ensures
            *final(decoder) == self.spec_decode(*old(decoder), *old(instruction)).decoder,
            *final(instruction) == self.spec_decode(
                *old(decoder),
                *old(instruction),
            ).instruction,
            final(decoder).wf(),
            final(decoder).frame() == old(decoder).frame(),
    {
        reveal(OpCodeHandler_VEX_Gv_RX::spec_decode);
        let state: State = decoder.state;
        let is64_mode: bool = decoder.is64_mode;
        let check: bool = decoder.invalid_check;
        decoder.set_invalid_instruction_if(check && state.vvvv != 0);
        instruction.set_code(if is64_mode && state.flags.w { self.code64 } else { self.code32 });
        instruction.set_op0_register(
            state.reg_register(register::gpr32_or_64(is64_mode && state.flags.w)),
        );
        decoder.op_reg(instruction, 1, state.rm_register(self.base_reg));
    }
}

/// `r, v, imm8`; the memory form is invalid.
#[derive(Clone, Copy, Debug, PartialEq, Eq, Structural)]
pub struct OpCodeHandler_VEX_Gv_GPR_Ib {
    pub has_modrm: bool,
    pub base_reg: u32,
    pub code32: u32,
    pub code64: u32,
}

impl OpCodeHandler_VEX_Gv_GPR_Ib {
    /// A handler that yields `code64` for a 64-bit first operand, else `code32`.
    pub fn new(base_reg: u32, code32: u32, code64: u32) -> (handler: Self)
        ensures
            handler == (Self { has_modrm: true, base_reg, code32, code64 }),
    {
        Self { has_modrm: true, base_reg, code32, code64 }
    }

    /// The handler's registers are register numbers.
    pub open spec fn wf(&self) -> bool {
        self.base_reg < register::COUNT
    }

    /// Whether the handler is well-formed.
    #[verifier::when_used_as_spec(wf)]
    pub fn is_wf(&self) -> (b: bool)
        ensures
            b == self.wf(),
    {
        self.base_reg < register::COUNT
    }

    /// Decoder and record as [`Self::decode`] leaves them.
    #[verifier::opaque]
    pub open spec fn spec_decode(&self, d: Decoder, i: Instruction) -> Decoded {
        let state = d.state;
        let is64_mode = d.is64_mode;
        let check = d.invalid_check;
        Decoded::at(d, i)
            .invalid_if(check && state.vvvv != 0)
            .code(if is64_mode && state.flags.w { self.code64 } else { self.code32 })
            .op_register(0, state.reg_register(register::gpr32_or_64(is64_mode && state.flags.w)))
            .op_reg(1, state.rm_register(self.base_reg))
            .imm8(2, OpKind::Immediate8)
    }

    /// Decodes the operands of the instruction into `instruction`.
    pub fn decode(&self, decoder: &mut Decoder, instruction: &mut Instruction)
        requires
            old(decoder).wf(),
            self.wf(),
            old(decoder).state.encoding == EncodingKind::VEX || old(decoder).state.encoding
                == EncodingKind::XOP,
        ensures
            *final(decoder) == self.spec_decode(*old(decoder), *old(instruction)).decoder,
            *final(instruction) == self.spec_decode(
                *old(decoder),
                *old(instruction),
            ).instruction,
            final(decoder).wf(),
            final(decoder).frame() == old(decoder).frame(),
    {
        reveal(OpCodeHandler_VEX_Gv_GPR_Ib::spec_decode);
        let state: State = decoder.state;
        let is64_mode: bool = decoder.is64_mode;
        let check: bool = decoder.invalid_check;
        decoder.set_invalid_instruction_if(check && state.vvvv != 0);
        instruction.set_code(if is64_mode && state.flags.w { self.code64 } else { self.code32 });
        instruction.set_op0_register(
            state.reg_register(register::gpr32_or_64(is64_mode && state.flags.w)),
        );
        decoder.op_reg(instruction, 1, state.rm_register(self.base_reg));
        decoder.op_imm8(instruction, 2, OpKind::Immediate8);
    }
}

/// `r/m, v, imm8`.
#[derive(Clone, Copy, Debug, PartialEq, Eq, Structural)]
pub struct OpCodeHandler_VEX_GvM_VX_Ib {
    pub has_modrm: bool,
    pub base_reg: u32,
    pub code32: u32,
    pub code64: u32,
}

impl OpCodeHandler_VEX_GvM_VX_Ib {
    /// A handler that yields `code64` for a 64-bit first operand, else `code32`.
    pub fn new(base_reg: u32, code32: u32, code64: u32) -> (handler: Self)
        ensures
            handler == (Self { has_modrm: true, base_reg, code32, code64 }),
    {
        Self { has_modrm: true, base_reg, code32, code64 }
    }

    /// The handler's registers are register numbers.
    pub open spec fn wf(&self) -> bool {
        self.base_reg < register::COUNT
    }

    /// Whether the handler is well-formed.
    #[verifier::when_used_as_spec(wf)]
    pub fn is_wf(&self) -> (b: bool)
        ensures
            b == self.wf(),
    {
        self.base_reg < register::COUNT
    }

    /// Decoder and record as [`Self::decode`] leaves them.
    #[verifier::opaque]
    pub open spec fn spec_decode(&self, d: Decoder, i: Instruction) -> Decoded {
        let state = d.state;
        let is64_mode = d.is64_mode;
        let check = d.invalid_check;
        Decoded::at(d, i)
            .invalid_if(check && state.vvvv != 0)
            .code(if is64_mode && state.flags.w { self.code64 } else { self.code32 })
            .op_rm(0, state.rm_register(register::gpr32_or_64(is64_mode && state.flags.w)))
            .op_register(1, state.reg_register(self.base_reg))
            .imm8(2, OpKind::Immediate8)
    }

    /// Decodes the operands of the instruction into `instruction`.
    pub fn decode(&self, decoder: &mut Decoder, instruction: &mut Instruction)
        requires
            old(decoder).wf(),
            self.wf(),
            old(decoder).state.encoding == EncodingKind::VEX || old(decoder).state.encoding
                == EncodingKind::XOP,
        ensures
            *final(decoder) == self.spec_decode(*old(decoder), *old(instruction)).decoder,
            *final(instruction) == self.spec_decode(
                *old(decoder),
                *old(instruction),
            ).instruction,
            final(decoder).wf(),
            final(decoder).frame() == old(decoder).frame(),
    {
        reveal(OpCodeHandler_VEX_GvM_VX_Ib::spec_decode);
        let state: State = decoder.state;
        let is64_mode: bool = decoder.is64_mode;
        let check: bool = decoder.invalid_check;
        decoder.set_invalid_instruction_if(check && state.vvvv != 0);
        instruction.set_code(if is64_mode && state.flags.w { self.code64 } else { self.code32 });
        decoder.op_rm(
            instruction,
            0,
            state.rm_register(register::gpr32_or_64(is64_mode && state.flags.w)),
        );
        instruction.set_op1_register(state.reg_register(self.base_reg));
        decoder.op_imm8(instruction, 2, OpKind::Immediate8);
    }
}

/// `r, r/m, imm8`.
#[derive(Clone, Copy, Debug, PartialEq, Eq, Structural)]
pub struct OpCodeHandler_VEX_Gv_Ev_Ib {
    pub has_modrm: bool,
    pub code32: u32,
    pub code64: u32,
}

impl OpCodeHandler_VEX_Gv_Ev_Ib {
    /// A handler that yields `code64` for 64-bit operands, else `code32`.
    pub fn new(code32: u32, code64: u32) -> (handler: Self)
        ensures
            handler == (Self { has_modrm: true, code32, code64 }),
    {
        Self { has_modrm: true, code32, code64 }
    }

    /// Decoder and record as [`Self::decode`] leaves them.
    #[verifier::opaque]
    pub open spec fn spec_decode(&self, d: Decoder, i: Instruction) -> Decoded {
        let state = d.state;
        let is64_mode = d.is64_mode;
        let check = d.invalid_check;
        Decoded::at(d, i)
            .invalid_if(check && state.vvvv != 0)
            .code(if is64_mode && state.flags.w { self.code64 } else { self.code32 })
            .op_register(0, state.reg_register(register::gpr32_or_64(is64_mode && state.flags.w)))
            .op_rm(1, state.rm_register(register::gpr32_or_64(is64_mode && state.flags.w)))
            .imm8(2, OpKind::Immediate8)
    }

    /// Decodes the operands of the instruction into `instruction`.
    pub fn decode(&self, decoder: &mut Decoder, instruction: &mut Instruction)
        requires
            old(decoder).wf(),
            old(decoder).state.encoding == EncodingKind::VEX || old(decoder).state.encoding
                == EncodingKind::XOP,
        ensures
            *final(decoder) == self.spec_decode(*old(decoder), *old(instruction)).decoder,
            *final(instruction) == self.spec_decode(
                *old(decoder),
                *old(instruction),
            ).instruction,
            final(decoder).wf(),
            final(decoder).frame() == old(decoder).frame(),
    {
        reveal(OpCodeHandler_VEX_Gv_Ev_Ib::spec_decode);
        let state: State = decoder.state;
        let is64_mode: bool = decoder.is64_mode;
        let check: bool = decoder.invalid_check;
        decoder.set_invalid_instruction_if(check && state.vvvv != 0);
        instruction.set_code(if is64_mode && state.flags.w { self.code64 } else { self.code32 });
        instruction.set_op0_register(
            state.reg_register(register::gpr32_or_64(is64_mode && state.flags.w)),
        );
        decoder.op_rm(
            instruction,
            1,
            state.rm_register(register::gpr32_or_64(is64_mode && state.flags.w)),
        );
        decoder.op_imm8(instruction, 2, OpKind::Immediate8);
    }
}

/// `r, r/m, imm32`.
#[derive(Clone, Copy, Debug, PartialEq, Eq, Structural)]
pub struct OpCodeHandler_VEX_Gv_Ev_Id {
    pub has_modrm: bool,
    pub code32: u32,
    pub code64: u32,
}

impl OpCodeHandler_VEX_Gv_Ev_Id {
    /// A handler that yields `code64` for 64-bit operands, else `code32`.
    pub fn new(code32: u32, code64: u32) -> (handler: Self)
        ensures
            handler == (Self { has_modrm: true, code32, code64 }),
    {
        Self { has_modrm: true, code32, code64 }
    }

    /// Decoder and record as [`Self::decode`] leaves them.
    #[verifier::opaque]
    pub open spec fn spec_decode(&self, d: Decoder, i: Instruction) -> Decoded {
        let state = d.state;
        let is64_mode = d.is64_mode;
        let check = d.invalid_check;
        Decoded::at(d, i)
            .invalid_if(check && state.vvvv != 0)
            .code(if is64_mode && state.flags.w { self.code64 } else { self.code32 })
            .op_register(0, state.reg_register(register::gpr32_or_64(is64_mode && state.flags.w)))
            .op_rm(1, state.rm_register(register::gpr32_or_64(is64_mode && state.flags.w)))
            .imm32(2, OpKind::Immediate32)
    }

    /// Decodes the operands of the instruction into `instruction`.
    pub fn decode(&self, decoder: &mut Decoder, instruction: &mut Instruction)
        requires
            old(decoder).wf(),
            old(decoder).state.encoding == EncodingKind::VEX || old(decoder).state.encoding
                == EncodingKind::XOP,
        ensures
            *final(decoder) == self.spec_decode(*old(decoder), *old(instruction)).decoder,
            *final(instruction) == self.spec_decode(
                *old(decoder),
                *old(instruction),
            ).instruction,
            final(decoder).wf(),
            final(decoder).frame() == old(decoder).frame(),
    {
        reveal(OpCodeHandler_VEX_Gv_Ev_Id::spec_decode);
        let state: State = decoder.state;
        let is64_mode: bool = decoder.is64_mode;
        let check: bool = decoder.invalid_check;
        decoder.set_invalid_instruction_if(check && state.vvvv != 0);
        instruction.set_code(if is64_mode && state.flags.w { self.code64 } else { self.code32 });
        instruction.set_op0_register(
            state.reg_register(register::gpr32_or_64(is64_mode && state.flags.w)),
        );
        decoder.op_rm(
            instruction,
            1,
            state.rm_register(register::gpr32_or_64(is64_mode && state.flags.w)),
        );
        decoder.op_imm32(instruction, 2, OpKind::Immediate32);
    }
}

/// A VEX or XOP handler with at most two encoded operands.
#[derive(Clone, Copy, Debug, PartialEq, Eq, Structural)]
pub enum VexHandler {
    VEX_Simple(OpCodeHandler_VEX_Simple),
    VEX_VW(OpCodeHandler_VEX_VW),
    VEX_VX_Ev(OpCodeHandler_VEX_VX_Ev),
    VEX_Ev_VX(OpCodeHandler_VEX_Ev_VX),
    VEX_WV(OpCodeHandler_VEX_WV),
    VEX_VM(OpCodeHandler_VEX_VM),
    VEX_MV(OpCodeHandler_VEX_MV),
    VEX_M(OpCodeHandler_VEX_M),
    VEX_RdRq(OpCodeHandler_VEX_RdRq),
    VEX_rDI_VX_RX(OpCodeHandler_VEX_rDI_VX_RX),
    VEX_VWIb(OpCodeHandler_VEX_VWIb),
    VEX_WVIb(OpCodeHandler_VEX_WVIb),
    VEX_Ed_V_Ib(OpCodeHandler_VEX_Ed_V_Ib),
    VEX_Gv_W(OpCodeHandler_VEX_Gv_W),
    VEX_Gv_RX(OpCodeHandler_VEX_Gv_RX),
    VEX_Gv_GPR_Ib(OpCodeHandler_VEX_Gv_GPR_Ib),
    VEX_GvM_VX_Ib(OpCodeHandler_VEX_GvM_VX_Ib),
    VEX_Gv_Ev_Ib(OpCodeHandler_VEX_Gv_Ev_Ib),
    VEX_Gv_Ev_Id(OpCodeHandler_VEX_Gv_Ev_Id),
}

impl VexHandler {
    /// Whether a ModRM byte follows the opcode.
    pub open spec fn spec_has_modrm(&self) -> bool {
        match self {
            VexHandler::VEX_Simple(h) => h.has_modrm,
            VexHandler::VEX_VW(h) => h.has_modrm,
            VexHandler::VEX_VX_Ev(h) => h.has_modrm,
            VexHandler::VEX_Ev_VX(h) => h.has_modrm,
            VexHandler::VEX_WV(h) => h.has_modrm,
            VexHandler::VEX_VM(h) => h.has_modrm,
            VexHandler::VEX_MV(h) => h.has_modrm,
            VexHandler::VEX_M(h) => h.has_modrm,
            VexHandler::VEX_RdRq(h) => h.has_modrm,
            VexHandler::VEX_rDI_VX_RX(h) => h.has_modrm,
            VexHandler::VEX_VWIb(h) => h.has_modrm,
            VexHandler::VEX_WVIb(h) => h.has_modrm,
            VexHandler::VEX_Ed_V_Ib(h) => h.has_modrm,
            VexHandler::VEX_Gv_W(h) => h.has_modrm,
            VexHandler::VEX_Gv_RX(h) => h.has_modrm,
            VexHandler::VEX_Gv_GPR_Ib(h) => h.has_modrm,
            VexHandler::VEX_GvM_VX_Ib(h) => h.has_modrm,
            VexHandler::VEX_Gv_Ev_Ib(h) => h.has_modrm,
            VexHandler::VEX_Gv_Ev_Id(h) => h.has_modrm,
        }
    }

    /// Whether a ModRM byte follows the opcode.
    #[verifier::when_used_as_spec(spec_has_modrm)]
    pub fn has_modrm(&self) -> (b: bool)
        ensures
            b == self.spec_has_modrm(),
    {
        match self {
            VexHandler::VEX_Simple(h) => h.has_modrm,
            VexHandler::VEX_VW(h) => h.has_modrm,
            VexHandler::VEX_VX_Ev(h) => h.has_modrm,
            VexHandler::VEX_Ev_VX(h) => h.has_modrm,
            VexHandler::VEX_WV(h) => h.has_modrm,
            VexHandler::VEX_VM(h) => h.has_modrm,
            VexHandler::VEX_MV(h) => h.has_modrm,
            VexHandler::VEX_M(h) => h.has_modrm,
            VexHandler::VEX_RdRq(h) => h.has_modrm,
            VexHandler::VEX_rDI_VX_RX(h) => h.has_modrm,
            VexHandler::VEX_VWIb(h) => h.has_modrm,
            VexHandler::VEX_WVIb(h) => h.has_modrm,
            VexHandler::VEX_Ed_V_Ib(h) => h.has_modrm,
            VexHandler::VEX_Gv_W(h) => h.has_modrm,
            VexHandler::VEX_Gv_RX(h) => h.has_modrm,
            VexHandler::VEX_Gv_GPR_Ib(h) => h.has_modrm,
            VexHandler::VEX_GvM_VX_Ib(h) => h.has_modrm,
            VexHandler::VEX_Gv_Ev_Ib(h) => h.has_modrm,
            VexHandler::VEX_Gv_Ev_Id(h) => h.has_modrm,
        }
    }

    /// The handler is well-formed.
    pub open spec fn wf(&self) -> bool {
        match self {
            VexHandler::VEX_Simple(_) => true,
            VexHandler::VEX_VW(h) => h.wf(),
            VexHandler::VEX_VX_Ev(_) => true,
            VexHandler::VEX_Ev_VX(_) => true,
            VexHandler::VEX_WV(h) => h.wf(),
            VexHandler::VEX_VM(h) => h.wf(),
            VexHandler::VEX_MV(h) => h.wf(),
            VexHandler::VEX_M(_) => true,
            VexHandler::VEX_RdRq(_) => true,
            VexHandler::VEX_rDI_VX_RX(h) => h.wf(),
            VexHandler::VEX_VWIb(h) => h.wf(),
            VexHandler::VEX_WVIb(h) => h.wf(),
            VexHandler::VEX_Ed_V_Ib(h) => h.wf(),
            VexHandler::VEX_Gv_W(h) => h.wf(),
            VexHandler::VEX_Gv_RX(h) => h.wf(),
            VexHandler::VEX_Gv_GPR_Ib(h) => h.wf(),
            VexHandler::VEX_GvM_VX_Ib(h) => h.wf(),
            VexHandler::VEX_Gv_Ev_Ib(_) => true,
            VexHandler::VEX_Gv_Ev_Id(_) => true,
        }
    }

    /// Whether the handler is well-formed.
    #[verifier::when_used_as_spec(wf)]
    pub fn is_wf(&self) -> (b: bool)
        ensures
            b == self.wf(),
    {
        match self {
            VexHandler::VEX_Simple(_) => true,
            VexHandler::VEX_VW(h) => h.is_wf(),
            VexHandler::VEX_VX_Ev(_) => true,
            VexHandler::VEX_Ev_VX(_) => true,
            VexHandler::VEX_WV(h) => h.is_wf(),
            VexHandler::VEX_VM(h) => h.is_wf(),
            VexHandler::VEX_MV(h) => h.is_wf(),
            VexHandler::VEX_M(_) => true,
            VexHandler::VEX_RdRq(_) => true,
            VexHandler::VEX_rDI_VX_RX(h) => h.is_wf(),
            VexHandler::VEX_VWIb(h) => h.is_wf(),
            VexHandler::VEX_WVIb(h) => h.is_wf(),
            VexHandler::VEX_Ed_V_Ib(h) => h.is_wf(),
            VexHandler::VEX_Gv_W(h) => h.is_wf(),
            VexHandler::VEX_Gv_RX(h) => h.is_wf(),
            VexHandler::VEX_Gv_GPR_Ib(h) => h.is_wf(),
            VexHandler::VEX_GvM_VX_Ib(h) => h.is_wf(),
            VexHandler::VEX_Gv_Ev_Ib(_) => true,
            VexHandler::VEX_Gv_Ev_Id(_) => true,
        }
    }

    /// Decoder and record as [`Self::decode`] leaves them.
    #[verifier::opaque]
    pub open spec fn spec_decode(&self, d: Decoder, i: Instruction) -> Decoded {
        match self {
            VexHandler::VEX_Simple(h) => h.spec_decode(d, i),
            VexHandler::VEX_VW(h) => h.spec_decode(d, i),
            VexHandler::VEX_VX_Ev(h) => h.spec_decode(d, i),
            VexHandler::VEX_Ev_VX(h) => h.spec_decode(d, i),
            VexHandler::VEX_WV(h) => h.spec_decode(d, i),
            VexHandler::VEX_VM(h) => h.spec_decode(d, i),
            VexHandler::VEX_MV(h) => h.spec_decode(d, i),
            VexHandler::VEX_M(h) => h.spec_decode(d, i),
            VexHandler::VEX_RdRq(h) => h.spec_decode(d, i),
            VexHandler::VEX_rDI_VX_RX(h) => h.spec_decode(d, i),
            VexHandler::VEX_VWIb(h) => h.spec_decode(d, i),
            VexHandler::VEX_WVIb(h) => h.spec_decode(d, i),
            VexHandler::VEX_Ed_V_Ib(h) => h.spec_decode(d, i),
            VexHandler::VEX_Gv_W(h) => h.spec_decode(d, i),
            VexHandler::VEX_Gv_RX(h) => h.spec_decode(d, i),
            VexHandler::VEX_Gv_GPR_Ib(h) => h.spec_decode(d, i),
            VexHandler::VEX_GvM_VX_Ib(h) => h.spec_decode(d, i),
            VexHandler::VEX_Gv_Ev_Ib(h) => h.spec_decode(d, i),
            VexHandler::VEX_Gv_Ev_Id(h) => h.spec_decode(d, i),
        }
    }

    /// Decodes the operands of the instruction with the handler that `self` holds.
    pub fn decode(&self, decoder: &mut Decoder, instruction: &mut Instruction)
        requires
            old(decoder).wf(),
            self.wf(),
            old(decoder).state.encoding == EncodingKind::VEX || old(decoder).state.encoding
                == EncodingKind::XOP,
        ensures
            *final(decoder) == self.spec_decode(*old(decoder), *old(instruction)).decoder,
            *final(instruction) == self.spec_decode(
                *old(decoder),
                *old(instruction),
            ).instruction,
            final(decoder).wf(),
            final(decoder).frame() == old(decoder).frame(),
    {
        reveal(VexHandler::spec_decode);
        match self {
            VexHandler::VEX_Simple(h) => h.decode(decoder, instruction),
            VexHandler::VEX_VW(h) => h.decode(decoder, instruction),
            VexHandler::VEX_VX_Ev(h) => h.decode(decoder, instruction),
            VexHandler::VEX_Ev_VX(h) => h.decode(decoder, instruction),
            VexHandler::VEX_WV(h) => h.decode(decoder, instruction),
            VexHandler::VEX_VM(h) => h.decode(decoder, instruction),
            VexHandler::VEX_MV(h) => h.decode(decoder, instruction),
            VexHandler::VEX_M(h) => h.decode(decoder, instruction),
            VexHandler::VEX_RdRq(h) => h.decode(decoder, instruction),
            VexHandler::VEX_rDI_VX_RX(h) => h.decode(decoder, instruction),
            VexHandler::VEX_VWIb(h) => h.decode(decoder, instruction),
            VexHandler::VEX_WVIb(h) => h.decode(decoder, instruction),
            VexHandler::VEX_Ed_V_Ib(h) => h.decode(decoder, instruction),
            VexHandler::VEX_Gv_W(h) => h.decode(decoder, instruction),
            VexHandler::VEX_Gv_RX(h) => h.decode(decoder, instruction),
            VexHandler::VEX_Gv_GPR_Ib(h) => h.decode(decoder, instruction),
            VexHandler::VEX_GvM_VX_Ib(h) => h.decode(decoder, instruction),
            VexHandler::VEX_Gv_Ev_Ib(h) => h.decode(decoder, instruction),
            VexHandler::VEX_Gv_Ev_Id(h) => h.decode(decoder, instruction),
        }
    }
}

} // verus!
