//! VEX and XOP handlers with an operand that the prefix selects.
//!
//! The vvvv field of the prefix names a register of its own.  A 64-bit
//! general purpose operand needs W and 64-bit mode.
use vstd::prelude::*;
use crate::decoder::{Decoder, State};
use crate::enums::{EncodingKind, OpKind};
use crate::instruction::Instruction;
use crate::operand::{Decoded};
use crate::register;

verus! {

/// `v, v, r/m`: the second operand is the one the prefix selects.
#[derive(Clone, Copy, Debug, PartialEq, Eq, Structural)]
pub struct OpCodeHandler_VEX_VHEv {
    pub has_modrm: bool,
    pub base_reg: u32,
    pub code_w0: u32,
    pub code_w1: u32,
}

impl OpCodeHandler_VEX_VHEv {
    /// A handler that yields `code_w1` for a 64-bit last operand, else `code_w0`.
    pub fn new(base_reg: u32, code_w0: u32, code_w1: u32) -> (handler: Self)
        ensures
            handler == (Self { has_modrm: true, base_reg, code_w0, code_w1 }),
    {
        Self { has_modrm: true, base_reg, code_w0, code_w1 }
    }

    /// The handler's registers are register numbers.
    pub open spec fn wf(&self) -> bool {
        self.base_reg < register::COUNT
    }

    /// Whether the handler is well-formed.
    #[verifier::when_used_as_spec(wf)]
    pub fn is_wf(&self) -> (b: bool)
        ensures
            b == self.wf(),
    {
        self.base_reg < register::COUNT
    }

    /// Decoder and record as [`Self::decode`] leaves them.
    #[verifier::opaque]
    pub open spec fn spec_decode(&self, d: Decoder, i: Instruction) -> Decoded {
        let state = d.state;
        let is64_mode = d.is64_mode;
        Decoded::at(d, i)
            .code(if is64_mode && state.flags.w { self.code_w1 } else { self.code_w0 })
            .op_register(0, state.reg_register(self.base_reg))
            .op_register(1, state.vvvv_register(self.base_reg))
            .op_rm(2, state.rm_register(register::gpr32_or_64(is64_mode && state.flags.w)))
    }

    /// Decodes the operands of the instruction into `instruction`.
    pub fn decode(&self, decoder: &mut Decoder, instruction: &mut Instruction)
        requires
            old(decoder).wf(),
            self.wf(),
            old(decoder).state.encoding == EncodingKind::VEX || old(decoder).state.encoding
                == EncodingKind::XOP,
        ensures
            *final(decoder) == self.spec_decode(*old(decoder), *old(instruction)).decoder,
            *final(instruction) == self.spec_decode(
                *old(decoder),
                *old(instruction),
            ).instruction,
            final(decoder).wf(),
            final(decoder).frame() == old(decoder).frame(),
    {
        reveal(OpCodeHandler_VEX_VHEv::spec_decode);
        let state: State = decoder.state;
        let is64_mode: bool = decoder.is64_mode;
        instruction.set_code(if is64_mode && state.flags.w { self.code_w1 } else { self.code_w0 });
        instruction.set_op0_register(state.reg_register(self.base_reg));
        instruction.set_op1_register(state.vvvv_register(self.base_reg));
        decoder.op_rm(
            instruction,
            2,
            state.rm_register(register::gpr32_or_64(is64_mode && state.flags.w)),
        );
    }
}

/// `v, v, r/m, imm8`: the second operand is the one the prefix selects.
#[derive(Clone, Copy, Debug, PartialEq, Eq, Structural)]
pub struct OpCodeHandler_VEX_VHEvIb {
    pub has_modrm: bool,
    pub base_reg: u32,
    pub code_w0: u32,
    pub code_w1: u32,
}

impl OpCodeHandler_VEX_VHEvIb {
    /// A handler that yields `code_w1` for a 64-bit third operand, else `code_w0`.
    pub fn new(base_reg: u32, code_w0: u32, code_w1: u32) -> (handler: Self)
        ensures
            handler == (Self { has_modrm: true, base_reg, code_w0, code_w1 }),
    {
        Self { has_modrm: true, base_reg, code_w0, code_w1 }
    }

    /// The handler's registers are register numbers.
    pub open spec fn wf(&self) -> bool {
        self.base_reg < register::COUNT
    }

    /// Whether the handler is well-formed.
    #[verifier::when_used_as_spec(wf)]
    pub fn is_wf(&self) -> (b: bool)
        ensures
            b == self.wf(),
    {
        self.base_reg < register::COUNT
    }

    /// Decoder and record as [`Self::decode`] leaves them.
    #[verifier::opaque]
    pub open spec fn spec_decode(&self, d: Decoder, i: Instruction) -> Decoded {
        let state = d.state;
        let is64_mode = d.is64_mode;
        Decoded::at(d, i)
            .code(if is64_mode && state.flags.w { self.code_w1 } else { self.code_w0 })
            .op_register(0, state.reg_register(self.base_reg))
            .op_register(1, state.vvvv_register(self.base_reg))
            .op_rm(2, state.rm_register(register::gpr32_or_64(is64_mode && state.flags.w)))
            .imm8(3, OpKind::Immediate8)
    }

    /// Decodes the operands of the instruction into `instruction`.
    pub fn decode(&self, decoder: &mut Decoder, instruction: &mut Instruction)
        requires
            old(decoder).wf(),
            self.wf(),
            old(decoder).state.encoding == EncodingKind::VEX || old(decoder).state.encoding
                == EncodingKind::XOP,
        ensures
            *final(decoder) == self.spec_decode(*old(decoder), *old(instruction)).decoder,
            *final(instruction) == self.spec_decode(
                *old(decoder),
                *old(instruction),
            ).instruction,
            final(decoder).wf(),
            final(decoder).frame() == old(decoder).frame(),
    {
        reveal(OpCodeHandler_VEX_VHEvIb::spec_decode);
        let state: State = decoder.state;
        let is64_mode: bool = decoder.is64_mode;
        instruction.set_code(if is64_mode && state.flags.w { self.code_w1 } else { self.code_w0 });
        instruction.set_op0_register(state.reg_register(self.base_reg));
        instruction.set_op1_register(state.vvvv_register(self.base_reg));
        decoder.op_rm(
            instruction,
            2,
            state.rm_register(register::gpr32_or_64(is64_mode && state.flags.w)),
        );
        decoder.op_imm8(instruction, 3, OpKind::Immediate8);
    }
}

/// `v, v, v/m`, the three operands each in a class of its own.  The
/// register form and the memory form may have codes of their own.
#[derive(Clone, Copy, Debug, PartialEq, Eq, Structural)]
pub struct OpCodeHandler_VEX_VHW {
    pub has_modrm: bool,
    pub base_reg1: u32,
    pub base_reg2: u32,
    pub base_reg3: u32,
    pub code_r: u32,
    pub code_m: u32,
}

impl OpCodeHandler_VEX_VHW {
    /// A handler that yields `code_r` in the register form and `code_m` in the memory form.
    pub fn new(
        base_reg1: u32,
        base_reg2: u32,
        base_reg3: u32,
        code_r: u32,
        code_m: u32,
    ) -> (handler: Self)
        ensures
            handler == (Self {
                has_modrm: true,
                base_reg1,
                base_reg2,
                base_reg3,
                code_r,
                code_m,
            }),
    {
        Self {
            has_modrm: true,
            base_reg1,
            base_reg2,
            base_reg3,
            code_r,
            code_m,
        }
    }

    /// A handler that yields `code`.
    pub fn new1(base_reg1: u32, base_reg2: u32, base_reg3: u32, code: u32) -> (handler: Self)
        ensures
            handler == (Self {
                has_modrm: true,
                base_reg1,
                base_reg2,
                base_reg3,
                code_r: code,
                code_m: code,
            }),
    {
        Self {
            has_modrm: true,
            base_reg1,
            base_reg2,
            base_reg3,
            code_r: code,
            code_m: code,
        }
    }

    /// The handler's registers are register numbers.
    pub open spec fn wf(&self) -> bool {
        &&& self.base_reg1 < register::COUNT
        &&& self.base_reg2 < register::COUNT
        &&& self.base_reg3 < register::COUNT
    }

    /// Whether the handler is well-formed.
    #[verifier::when_used_as_spec(wf)]
    pub fn is_wf(&self) -> (b: bool)
        ensures
            b == self.wf(),
    {
        self.base_reg1 < register::COUNT
            && self.base_reg2 < register::COUNT
            && self.base_reg3 < register::COUNT
    }

    /// Decoder and record as [`Self::decode`] leaves them.
    #[verifier::opaque]
    pub open spec fn spec_decode(&self, d: Decoder, i: Instruction) -> Decoded {
        let state = d.state;
        Decoded::at(d, i)
            .op_register(0, state.reg_register(self.base_reg1))
            .op_register(1, state.vvvv_register(self.base_reg2))
            .code(if state.mod_ == 3 { self.code_r } else { self.code_m })
            .op_rm(2, state.rm_register(self.base_reg3))
    }

    /// Decodes the operands of the instruction into `instruction`.
    pub fn decode(&self, decoder: &mut Decoder, instruction: &mut Instruction)
        requires
            old(decoder).wf(),
            self.wf(),
            old(decoder).state.encoding == EncodingKind::VEX || old(decoder).state.encoding
                == EncodingKind::XOP,
        ensures
            *final(decoder) == self.spec_decode(*old(decoder), *old(instruction)).decoder,
            *final(instruction) == self.spec_decode(
                *old(decoder),
                *old(instruction),
            ).instruction,
            final(decoder).wf(),
            final(decoder).frame() == old(decoder).frame(),
    {
        reveal(OpCodeHandler_VEX_VHW::spec_decode);
        let state: State = decoder.state;
        instruction.set_op0_register(state.reg_register(self.base_reg1));
        instruction.set_op1_register(state.vvvv_register(self.base_reg2));
        instruction.set_code(if state.mod_ == 3 { self.code_r } else { self.code_m });
        decoder.op_rm(instruction, 2, state.rm_register(self.base_reg3));
    }
}

/// `v, v/m, v`: the last operand is the one the prefix selects.
#[derive(Clone, Copy, Debug, PartialEq, Eq, Structural)]
pub struct OpCodeHandler_VEX_VWH {
    pub has_modrm: bool,
    pub base_reg: u32,
    pub code: u32,
}

impl OpCodeHandler_VEX_VWH {
    /// A handler that yields `code` in the class that starts at `base_reg`.
    pub fn new(base_reg: u32, code: u32) -> (handler: Self)
        ensures
            handler == (Self { has_modrm: true, base_reg, code }),
    {
        Self { has_modrm: true, base_reg, code }
    }

    /// The handler's registers are register numbers.
    pub open spec fn wf(&self) -> bool {
        self.base_reg < register::COUNT
    }

    /// Whether the handler is well-formed.
    #[verifier::when_used_as_spec(wf)]
    pub fn is_wf(&self) -> (b: bool)
        ensures
            b == self.wf(),
    {
        self.base_reg < register::COUNT
    }

    /// Decoder and record as [`Self::decode`] leaves them.
    #[verifier::opaque]
    pub open spec fn spec_decode(&self, d: Decoder, i: Instruction) -> Decoded {
        let state = d.state;
        Decoded::at(d, i)
            .code(self.code)
            .op_register(0, state.reg_register(self.base_reg))
            .op_rm(1, state.rm_register(self.base_reg))
            .op_register(2, state.vvvv_register(self.base_reg))
    }

    /// Decodes the operands of the instruction into `instruction`.
    pub fn decode(&self, decoder: &mut Decoder, instruction: &mut Instruction)
        requires
            old(decoder).wf(),
            self.wf(),
            old(decoder).state.encoding == EncodingKind::VEX || old(decoder).state.encoding
                == EncodingKind::XOP,
        ensures
            *final(decoder) == self.spec_decode(*old(decoder), *old(instruction)).decoder,
            *final(instruction) == self.spec_decode(
                *old(decoder),
                *old(instruction),
            ).instruction,
            final(decoder).wf(),
            final(decoder).frame() == old(decoder).frame(),
    {
        reveal(OpCodeHandler_VEX_VWH::spec_decode);
        let state: State = decoder.state;
        instruction.set_code(self.code);
        instruction.set_op0_register(state.reg_register(self.base_reg));
        decoder.op_rm(instruction, 1, state.rm_register(self.base_reg));
        instruction.set_op2_register(state.vvvv_register(self.base_reg));
    }
}

/// `v, v, v`: rm, the prefix and reg select the operands, in that order.
/// The opcode table uses the handler for the register form only.
#[derive(Clone, Copy, Debug, PartialEq, Eq, Structural)]
pub struct OpCodeHandler_VEX_WHV {
    pub has_modrm: bool,
    pub base_reg: u32,
    pub code_r: u32,
    pub code_m: u32,
}

impl OpCodeHandler_VEX_WHV {
    /// A handler that yields `code` in the class that starts at `base_reg`.
    pub fn new(base_reg: u32, code: u32) -> (handler: Self)
        ensures
            handler == (Self { has_modrm: true, base_reg, code_r: code, code_m: code }),
    {
        Self { has_modrm: true, base_reg, code_r: code, code_m: code }
    }

    /// The handler's registers are register numbers.
    pub open spec fn wf(&self) -> bool {
        self.base_reg < register::COUNT
    }

    /// Whether the handler is well-formed.
    #[verifier::when_used_as_spec(wf)]
    pub fn is_wf(&self) -> (b: bool)
        ensures
            b == self.wf(),
    {
        self.base_reg < register::COUNT
    }

    /// Decoder and record as [`Self::decode`] leaves them.
    #[verifier::opaque]
    pub open spec fn spec_decode(&self, d: Decoder, i: Instruction) -> Decoded {
        let state = d.state;
        Decoded::at(d, i)
            .code(self.code_r)
            .op_register(0, state.rm_register(self.base_reg))
            .op_register(1, state.vvvv_register(self.base_reg))
            .op_register(2, state.reg_register(self.base_reg))
    }

    /// Decodes the operands of the instruction into `instruction`.
    pub fn decode(&self, decoder: &mut Decoder, instruction: &mut Instruction)
        requires
            old(decoder).wf(),
            self.wf(),
            old(decoder).state.encoding == EncodingKind::VEX || old(decoder).state.encoding
                == EncodingKind::XOP,
        ensures
            *final(decoder) == self.spec_decode(*old(decoder), *old(instruction)).decoder,
            *final(instruction) == self.spec_decode(
                *old(decoder),
                *old(instruction),
            ).instruction,
            final(decoder).wf(),
            final(decoder).frame() == old(decoder).frame(),
    {
        reveal(OpCodeHandler_VEX_WHV::spec_decode);
        let state: State = decoder.state;
        instruction.set_code(self.code_r);
        instruction.set_op0_register(state.rm_register(self.base_reg));
        instruction.set_op1_register(state.vvvv_register(self.base_reg));
        instruction.set_op2_register(state.reg_register(self.base_reg));
    }
}

/// `v, v, m`; the register form is invalid.
#[derive(Clone, Copy, Debug, PartialEq, Eq, Structural)]
pub struct OpCodeHandler_VEX_VHM {
    pub has_modrm: bool,
    pub base_reg: u32,
    pub code: u32,
}

impl OpCodeHandler_VEX_VHM {
    /// A handler that yields `code` in the class that starts at `base_reg`.
    pub fn new(base_reg: u32, code: u32) -> (handler: Self)
        ensures
            handler == (Self { has_modrm: true, base_reg, code }),
    {
        Self { has_modrm: true, base_reg, code }
    }

    /// The handler's registers are register numbers.
    pub open spec fn wf(&self) -> bool {
        self.base_reg < register::COUNT
    }

    /// Whether the handler is well-formed.
    #[verifier::when_used_as_spec(wf)]
    pub fn is_wf(&self) -> (b: bool)
        ensures
            b == self.wf(),
    {
        self.base_reg < register::COUNT
    }

    /// Decoder and record as [`Self::decode`] leaves them.
    #[verifier::opaque]
    pub open spec fn spec_decode(&self, d: Decoder, i: Instruction) -> Decoded {
        let state = d.state;
        Decoded::at(d, i)
            .code(self.code)
            .op_register(0, state.reg_register(self.base_reg))
            .op_register(1, state.vvvv_register(self.base_reg))
            .op_mem(2)
    }

    /// Decodes the operands of the instruction into `instruction`.
    pub fn decode(&self, decoder: &mut Decoder, instruction: &mut Instruction)
        requires
            old(decoder).wf(),
            self.wf(),
            old(decoder).state.encoding == EncodingKind::VEX || old(decoder).state.encoding
                == EncodingKind::XOP,
        ensures
            *final(decoder) == self.spec_decode(*old(decoder), *old(instruction)).decoder,
            *final(instruction) == self.spec_decode(
                *old(decoder),
                *old(instruction),
            ).instruction,
            final(decoder).wf(),
            final(decoder).frame() == old(decoder).frame(),
    {
        reveal(OpCodeHandler_VEX_VHM::spec_decode);
        let state: State = decoder.state;
        instruction.set_code(self.code);
        instruction.set_op0_register(state.reg_register(self.base_reg));
        instruction.set_op1_register(state.vvvv_register(self.base_reg));
        decoder.op_mem(instruction, 2);
    }
}

/// `m, v, v`; the register form is invalid.
#[derive(Clone, Copy, Debug, PartialEq, Eq, Structural)]
pub struct OpCodeHandler_VEX_MHV {
    pub has_modrm: bool,
    pub base_reg: u32,
    pub code: u32,
}

impl OpCodeHandler_VEX_MHV {
    /// A handler that yields `code` in the class that starts at `base_reg`.
    pub fn new(base_reg: u32, code: u32) -> (handler: Self)
        ensures
            handler == (Self { has_modrm: true, base_reg, code }),
    {
        Self { has_modrm: true, base_reg, code }
    }

    /// The handler's registers are register numbers.
    pub open spec fn wf(&self) -> bool {
        self.base_reg < register::COUNT
    }

    /// Whether the handler is well-formed.
    #[verifier::when_used_as_spec(wf)]
    pub fn is_wf(&self) -> (b: bool)
        ensures
            b == self.wf(),
    {
        self.base_reg < register::COUNT
    }

    /// Decoder and record as [`Self::decode`] leaves them.
    #[verifier::opaque]
    pub open spec fn spec_decode(&self, d: Decoder, i: Instruction) -> Decoded {
        let state = d.state;
        Decoded::at(d, i)
            .code(self.code)
            .op_mem(0)
            .op_register(1, state.vvvv_register(self.base_reg))
            .op_register(2, state.reg_register(self.base_reg))
    }

    /// Decodes the operands of the instruction into `instruction`.
    pub fn decode(&self, decoder: &mut Decoder, instruction: &mut Instruction)
        requires
            old(decoder).wf(),
            self.wf(),
            old(decoder).state.encoding == EncodingKind::VEX || old(decoder).state.encoding
                == EncodingKind::XOP,
        ensures
            *final(decoder) == self.spec_decode(*old(decoder), *old(instruction)).decoder,
            *final(instruction) == self.spec_decode(
                *old(decoder),
                *old(instruction),
            ).instruction,
            final(decoder).wf(),
            final(decoder).frame() == old(decoder).frame(),
    {
        reveal(OpCodeHandler_VEX_MHV::spec_decode);
        let state: State = decoder.state;
        instruction.set_code(self.code);
        decoder.op_mem(instruction, 0);
        instruction.set_op1_register(state.vvvv_register(self.base_reg));
        instruction.set_op2_register(state.reg_register(self.base_reg));
    }
}

/// `v, v, v/m, imm8`, the three operands each in a class of its own.
#[derive(Clone, Copy, Debug, PartialEq, Eq, Structural)]
pub struct OpCodeHandler_VEX_VHWIb {
    pub has_modrm: bool,
    pub base_reg1: u32,
    pub base_reg2: u32,
    pub base_reg3: u32,
    pub code: u32,
}

impl OpCodeHandler_VEX_VHWIb {
    /// A handler that yields `code`.
    pub fn new(base_reg1: u32, base_reg2: u32, base_reg3: u32, code: u32) -> (handler: Self)
        ensures
            handler == (Self { has_modrm: true, base_reg1, base_reg2, base_reg3, code }),
    {
        Self { has_modrm: true, base_reg1, base_reg2, base_reg3, code }
    }

    /// The handler's registers are register numbers.
    pub open spec fn wf(&self) -> bool {
        &&& self.base_reg1 < register::COUNT
        &&& self.base_reg2 < register::COUNT
        &&& self.base_reg3 < register::COUNT
    }

    /// Whether the handler is well-formed.
    #[verifier::when_used_as_spec(wf)]
    pub fn is_wf(&self) -> (b: bool)
        ensures
            b == self.wf(),
    {
        self.base_reg1 < register::COUNT
            && self.base_reg2 < register::COUNT
            && self.base_reg3 < register::COUNT
    }

    /// Decoder and record as [`Self::decode`] leaves them.
    #[verifier::opaque]
    pub open spec fn spec_decode(&self, d: Decoder, i: Instruction) -> Decoded {
        let state = d.state;
        Decoded::at(d, i)
            .code(self.code)
            .op_register(0, state.reg_register(self.base_reg1))
            .op_register(1, state.vvvv_register(self.base_reg2))
            .op_rm(2, state.rm_register(self.base_reg3))
            .imm8(3, OpKind::Immediate8)
    }

    /// Decodes the operands of the instruction into `instruction`.
    pub fn decode(&self, decoder: &mut Decoder, instruction: &mut Instruction)
        requires
            old(decoder).wf(),
            self.wf(),
            old(decoder).state.encoding == EncodingKind::VEX || old(decoder).state.encoding
                == EncodingKind::XOP,
        ensures
            *final(decoder) == self.spec_decode(*old(decoder), *old(instruction)).decoder,
            *final(instruction) == self.spec_decode(
                *old(decoder),
                *old(instruction),
            ).instruction,
            final(decoder).wf(),
            final(decoder).frame() == old(decoder).frame(),
    {
        reveal(OpCodeHandler_VEX_VHWIb::spec_decode);
        let state: State = decoder.state;
        instruction.set_code(self.code);
        instruction.set_op0_register(state.reg_register(self.base_reg1));
        instruction.set_op1_register(state.vvvv_register(self.base_reg2));
        decoder.op_rm(instruction, 2, state.rm_register(self.base_reg3));
        decoder.op_imm8(instruction, 3, OpKind::Immediate8);
    }
}

/// `v, v, imm8`: the prefix and rm select the operands; the memory form is invalid.
#[derive(Clone, Copy, Debug, PartialEq, Eq, Structural)]
pub struct OpCodeHandler_VEX_HRIb {
    pub has_modrm: bool,
    pub base_reg: u32,
    pub code: u32,
}

impl OpCodeHandler_VEX_HRIb {
    /// A handler that yields `code` in the class that starts at `base_reg`.
    pub fn new(base_reg: u32, code: u32) -> (handler: Self)
        ensures
            handler == (Self { has_modrm: true, base_reg, code }),
    {
        Self { has_modrm: true, base_reg, code }
    }

    /// The handler's registers are register numbers.
    pub open spec fn wf(&self) -> bool {
        self.base_reg < register::COUNT
    }

    /// Whether the handler is well-formed.
    #[verifier::when_used_as_spec(wf)]
    pub fn is_wf(&self) -> (b: bool)
        ensures
            b == self.wf(),
    {
        self.base_reg < register::COUNT
    }

    /// Decoder and record as [`Self::decode`] leaves them.
    #[verifier::opaque]
    pub open spec fn spec_decode(&self, d: Decoder, i: Instruction) -> Decoded {
        let state = d.state;
        Decoded::at(d, i)
            .code(self.code)
            .op_register(0, state.vvvv_register(self.base_reg))
            .op_reg(1, state.rm_register(self.base_reg))
            .imm8(2, OpKind::Immediate8)
    }

    /// Decodes the operands of the instruction into `instruction`.
    pub fn decode(&self, decoder: &mut Decoder, instruction: &mut Instruction)
        requires
            old(decoder).wf(),
            self.wf(),
            old(decoder).state.encoding == EncodingKind::VEX || old(decoder).state.encoding
                == EncodingKind::XOP,
        ensures
            *final(decoder) == self.spec_decode(*old(decoder), *old(instruction)).decoder,
            *final(instruction) == self.spec_decode(
                *old(decoder),
                *old(instruction),
            ).instruction,
            final(decoder).wf(),
            final(decoder).frame() == old(decoder).frame(),
    {
        reveal(OpCodeHandler_VEX_HRIb::spec_decode);
        let state: State = decoder.state;
        instruction.set_code(self.code);
        instruction.set_op0_register(state.vvvv_register(self.base_reg));
        decoder.op_reg(instruction, 1, state.rm_register(self.base_reg));
        decoder.op_imm8(instruction, 2, OpKind::Immediate8);
    }
}

/// `v, v, v/m, v`: the high four bits of a last byte select the fourth operand.
#[derive(Clone, Copy, Debug, PartialEq, Eq, Structural)]
pub struct OpCodeHandler_VEX_VHWIs4 {
    pub has_modrm: bool,
    pub base_reg: u32,
    pub code: u32,
}

impl OpCodeHandler_VEX_VHWIs4 {
    /// A handler that yields `code` in the class that starts at `base_reg`.
    pub fn new(base_reg: u32, code: u32) -> (handler: Self)
        ensures
            handler == (Self { has_modrm: true, base_reg, code }),
    {
        Self { has_modrm: true, base_reg, code }
    }

    /// The handler's registers are register numbers.
    pub open spec fn wf(&self) -> bool {
        self.base_reg < register::COUNT
    }

    /// Whether the handler is well-formed.
    #[verifier::when_used_as_spec(wf)]
    pub fn is_wf(&self) -> (b: bool)
        ensures
            b == self.wf(),
    {
        self.base_reg < register::COUNT
    }

    /// Decoder and record as [`Self::decode`] leaves them.
    #[verifier::opaque]
    pub open spec fn spec_decode(&self, d: Decoder, i: Instruction) -> Decoded {
        let state = d.state;
        Decoded::at(d, i)
            .code(self.code)
            .op_register(0, state.reg_register(self.base_reg))
            .op_register(1, state.vvvv_register(self.base_reg))
            .op_rm(2, state.rm_register(self.base_reg))
            .imm8_is4(3, self.base_reg)
    }

    /// Decodes the operands of the instruction into `instruction`.
    pub fn decode(&self, decoder: &mut Decoder, instruction: &mut Instruction)
        requires
            old(decoder).wf(),
            self.wf(),
            old(decoder).state.encoding == EncodingKind::VEX || old(decoder).state.encoding
                == EncodingKind::XOP,
        ensures
            *final(decoder) == self.spec_decode(*old(decoder), *old(instruction)).decoder,
            *final(instruction) == self.spec_decode(
                *old(decoder),
                *old(instruction),
            ).instruction,
            final(decoder).wf(),
            final(decoder).frame() == old(decoder).frame(),
    {
        reveal(OpCodeHandler_VEX_VHWIs4::spec_decode);
        let state: State = decoder.state;
        instruction.set_code(self.code);
        instruction.set_op0_register(state.reg_register(self.base_reg));
        instruction.set_op1_register(state.vvvv_register(self.base_reg));
        decoder.op_rm(instruction, 2, state.rm_register(self.base_reg));
        decoder.op_imm8_is4(instruction, 3, self.base_reg);
    }
}

/// `v, v, v, v/m`: the high four bits of a last byte select the third operand.
#[derive(Clone, Copy, Debug, PartialEq, Eq, Structural)]
pub struct OpCodeHandler_VEX_VHIs4W {
    pub has_modrm: bool,
    pub base_reg: u32,
    pub code: u32,
}

impl OpCodeHandler_VEX_VHIs4W {
    /// A handler that yields `code` in the class that starts at `base_reg`.
    pub fn new(base_reg: u32, code: u32) -> (handler: Self)
        ensures
            handler == (Self { has_modrm: true, base_reg, code }),
    {
        Self { has_modrm: true, base_reg, code }
    }

    /// The handler's registers are register numbers.
    pub open spec fn wf(&self) -> bool {
        self.base_reg < register::COUNT
    }

    /// Whether the handler is well-formed.
    #[verifier::when_used_as_spec(wf)]
    pub fn is_wf(&self) -> (b: bool)
        ensures
            b == self.wf(),
    {
        self.base_reg < register::COUNT
    }

    /// Decoder and record as [`Self::decode`] leaves them.
    #[verifier::opaque]
    pub open spec fn spec_decode(&self, d: Decoder, i: Instruction) -> Decoded {
        let state = d.state;
        Decoded::at(d, i)
            .code(self.code)
            .op_register(0, state.reg_register(self.base_reg))
            .op_register(1, state.vvvv_register(self.base_reg))
            .op_rm(3, state.rm_register(self.base_reg))
            .imm8_is4(2, self.base_reg)
    }

    /// Decodes the operands of the instruction into `instruction`.
    pub fn decode(&self, decoder: &mut Decoder, instruction: &mut Instruction)
        requires
            old(decoder).wf(),
            self.wf(),
            old(decoder).state.encoding == EncodingKind::VEX || old(decoder).state.encoding
                == EncodingKind::XOP,
        ensures
            *final(decoder) == self.spec_decode(*old(decoder), *old(instruction)).decoder,
            *final(instruction) == self.spec_decode(
                *old(decoder),
                *old(instruction),
            ).instruction,
            final(decoder).wf(),
            final(decoder).frame() == old(decoder).frame(),
    {
        reveal(OpCodeHandler_VEX_VHIs4W::spec_decode);
        let state: State = decoder.state;
        instruction.set_code(self.code);
        instruction.set_op0_register(state.reg_register(self.base_reg));
        instruction.set_op1_register(state.vvvv_register(self.base_reg));
        decoder.op_rm(instruction, 3, state.rm_register(self.base_reg));
        decoder.op_imm8_is4(instruction, 2, self.base_reg);
    }
}

/// `v, v, v/m, v, imm2`: a last byte selects the fourth operand with its
/// high four bits and holds the fifth in its low two.
#[derive(Clone, Copy, Debug, PartialEq, Eq, Structural)]
pub struct OpCodeHandler_VEX_VHWIs5 {
    pub has_modrm: bool,
    pub base_reg: u32,
    pub code: u32,
}

impl OpCodeHandler_VEX_VHWIs5 {
    /// A handler that yields `code` in the class that starts at `base_reg`.
    pub fn new(base_reg: u32, code: u32) -> (handler: Self)
        ensures
            handler == (Self { has_modrm: true, base_reg, code }),
    {
        Self { has_modrm: true, base_reg, code }
    }

    /// The handler's registers are register numbers.
    pub open spec fn wf(&self) -> bool {
        self.base_reg < register::COUNT
    }

    /// Whether the handler is well-formed.
    #[verifier::when_used_as_spec(wf)]
    pub fn is_wf(&self) -> (b: bool)
        ensures
            b == self.wf(),
    {
        self.base_reg < register::COUNT
    }

    /// Decoder and record as [`Self::decode`] leaves them.
    #[verifier::opaque]
    pub open spec fn spec_decode(&self, d: Decoder, i: Instruction) -> Decoded {
        let state = d.state;
        Decoded::at(d, i)
            .code(self.code)
            .op_register(0, state.reg_register(self.base_reg))
            .op_register(1, state.vvvv_register(self.base_reg))
            .op_rm(2, state.rm_register(self.base_reg))
            .imm8_is5(3, self.base_reg)
    }

    /// Decodes the operands of the instruction into `instruction`.
    pub fn decode(&self, decoder: &mut Decoder, instruction: &mut Instruction)
        requires
            old(decoder).wf(),
            self.wf(),
            old(decoder).state.encoding == EncodingKind::VEX || old(decoder).state.encoding
                == EncodingKind::XOP,
        ensures
            *final(decoder) == self.spec_decode(*old(decoder), *old(instruction)).decoder,
            *final(instruction) == self.spec_decode(
                *old(decoder),
                *old(instruction),
            ).instruction,
            final(decoder).wf(),
            final(decoder).frame() == old(decoder).frame(),
    {
        reveal(OpCodeHandler_VEX_VHWIs5::spec_decode);
        let state: State = decoder.state;
        instruction.set_code(self.code);
        instruction.set_op0_register(state.reg_register(self.base_reg));
        instruction.set_op1_register(state.vvvv_register(self.base_reg));
        decoder.op_rm(instruction, 2, state.rm_register(self.base_reg));
        decoder.op_imm8_is5(instruction, 3, self.base_reg);
    }
}

/// `v, v, v, v/m, imm2`: a last byte selects the third operand with its
/// high four bits and holds the fifth in its low two.
#[derive(Clone, Copy, Debug, PartialEq, Eq, Structural)]
pub struct OpCodeHandler_VEX_VHIs5W {
    pub has_modrm: bool,
    pub base_reg: u32,
    pub code: u32,
}

impl OpCodeHandler_VEX_VHIs5W {
    /// A handler that yields `code` in the class that starts at `base_reg`.
    pub fn new(base_reg: u32, code: u32) -> (handler: Self)
        ensures
            handler == (Self { has_modrm: true, base_reg, code }),
    {
        Self { has_modrm: true, base_reg, code }
    }

    /// The handler's registers are register numbers.
    pub open spec fn wf(&self) -> bool {
        self.base_reg < register::COUNT
    }

    /// Whether the handler is well-formed.
    #[verifier::when_used_as_spec(wf)]
    pub fn is_wf(&self) -> (b: bool)
        ensures
            b == self.wf(),
    {
        self.base_reg < register::COUNT
    }

    /// Decoder and record as [`Self::decode`] leaves them.
    #[verifier::opaque]
    pub open spec fn spec_decode(&self, d: Decoder, i: Instruction) -> Decoded {
        let state = d.state;
        Decoded::at(d, i)
            .code(self.code)
            .op_register(0, state.reg_register(self.base_reg))
            .op_register(1, state.vvvv_register(self.base_reg))
            .op_rm(3, state.rm_register(self.base_reg))
            .imm8_is5(2, self.base_reg)
    }

    /// Decodes the operands of the instruction into `instruction`.
    pub fn decode(&self, decoder: &mut Decoder, instruction: &mut Instruction)
        requires
            old(decoder).wf(),
            self.wf(),
            old(decoder).state.encoding == EncodingKind::VEX || old(decoder).state.encoding
                == EncodingKind::XOP,
        ensures
            *final(decoder) == self.spec_decode(*old(decoder), *old(instruction)).decoder,
            *final(instruction) == self.spec_decode(
                *old(decoder),
                *old(instruction),
            ).instruction,
            final(decoder).wf(),
            final(decoder).frame() == old(decoder).frame(),
    {
        reveal(OpCodeHandler_VEX_VHIs5W::spec_decode);
        let state: State = decoder.state;
        instruction.set_code(self.code);
        instruction.set_op0_register(state.reg_register(self.base_reg));
        instruction.set_op1_register(state.vvvv_register(self.base_reg));
        decoder.op_rm(instruction, 3, state.rm_register(self.base_reg));
        decoder.op_imm8_is5(instruction, 2, self.base_reg);
    }
}

/// A gather: `v, [base + index vector], v`, the last operand the one the
/// prefix selects.  The register form is invalid; so is a form in which
/// destination, index and mask are not three registers, where invalid
/// encodings are checked for.
#[derive(Clone, Copy, Debug, PartialEq, Eq, Structural)]
pub struct OpCodeHandler_VEX_VX_VSIB_HX {
    pub has_modrm: bool,
    pub base_reg1: u32,
    pub vsib_index: u32,
    pub base_reg3: u32,
    pub code: u32,
}

impl OpCodeHandler_VEX_VX_VSIB_HX {
    /// A handler that yields `code` with an index in the class that starts at `vsib_index`.
    pub fn new(base_reg1: u32, vsib_index: u32, base_reg3: u32, code: u32) -> (handler: Self)
        ensures
            handler == (Self { has_modrm: true, base_reg1, vsib_index, base_reg3, code }),
    {
        Self { has_modrm: true, base_reg1, vsib_index, base_reg3, code }
    }

    /// The handler's registers are register numbers.
    pub open spec fn wf(&self) -> bool {
        &&& self.base_reg1 < register::COUNT
        &&& self.vsib_index < register::COUNT
        &&& self.base_reg3 < register::COUNT
    }

    /// Whether the handler is well-formed.
    #[verifier::when_used_as_spec(wf)]
    pub fn is_wf(&self) -> (b: bool)
        ensures
            b == self.wf(),
    {
        self.base_reg1 < register::COUNT
            && self.vsib_index < register::COUNT
            && self.base_reg3 < register::COUNT
    }

    /// Decoder and record as [`Self::decode`] leaves them.
    #[verifier::opaque]
    pub open spec fn spec_decode(&self, d: Decoder, i: Instruction) -> Decoded {
        let state = d.state;
        Decoded::at(d, i)
            .code(self.code)
            .op_register(0, state.reg_register(self.base_reg1))
            .op_register(2, state.vvvv_register(self.base_reg3))
            .op_vsib(1, self.vsib_index)
    }

    /// Decodes the operands of the instruction into `instruction`.
    pub fn decode(&self, decoder: &mut Decoder, instruction: &mut Instruction)
        requires
            old(decoder).wf(),
            self.wf(),
            old(decoder).state.encoding == EncodingKind::VEX || old(decoder).state.encoding
                == EncodingKind::XOP,
        ensures
            *final(decoder) == self.spec_decode(*old(decoder), *old(instruction)).decoder,
            *final(instruction) == self.spec_decode(
                *old(decoder),
                *old(instruction),
            ).instruction,
            final(decoder).wf(),
            final(decoder).frame() == old(decoder).frame(),
    {
        reveal(OpCodeHandler_VEX_VX_VSIB_HX::spec_decode);
        let state: State = decoder.state;
        instruction.set_code(self.code);
        instruction.set_op0_register(state.reg_register(self.base_reg1));
        instruction.set_op2_register(state.vvvv_register(self.base_reg3));
        decoder.op_vsib(instruction, 1, self.vsib_index);
    }
}

/// `r, r, r/m`: the second operand is the one the prefix selects.
#[derive(Clone, Copy, Debug, PartialEq, Eq, Structural)]
pub struct OpCodeHandler_VEX_Gv_Gv_Ev {
    pub has_modrm: bool,
    pub code32: u32,
    pub code64: u32,
}

impl OpCodeHandler_VEX_Gv_Gv_Ev {
    /// A handler that yields `code64` for 64-bit operands, else `code32`.
    pub fn new(code32: u32, code64: u32) -> (handler: Self)
        ensures
            handler == (Self { has_modrm: true, code32, code64 }),
    {
        Self { has_modrm: true, code32, code64 }
    }

    /// Decoder and record as [`Self::decode`] leaves them.
    #[verifier::opaque]
    pub open spec fn spec_decode(&self, d: Decoder, i: Instruction) -> Decoded {
        let state = d.state;
        let is64_mode = d.is64_mode;
        Decoded::at(d, i)
            .code(if is64_mode && state.flags.w { self.code64 } else { self.code32 })
            .op_register(0, state.reg_register(register::gpr32_or_64(is64_mode && state.flags.w)))
            .op_register(1, state.vvvv_register(register::gpr32_or_64(is64_mode && state.flags.w)))
            .op_rm(2, state.rm_register(register::gpr32_or_64(is64_mode && state.flags.w)))
    }

    /// Decodes the operands of the instruction into `instruction`.
    pub fn decode(&self, decoder: &mut Decoder, instruction: &mut Instruction)
        requires
            old(decoder).wf(),
            old(decoder).state.encoding == EncodingKind::VEX || old(decoder).state.encoding
                == EncodingKind::XOP,
        ensures
            *final(decoder) == self.spec_decode(*old(decoder), *old(instruction)).decoder,
            *final(instruction) == self.spec_decode(
                *old(decoder),
                *old(instruction),
            ).instruction,
            final(decoder).wf(),
            final(decoder).frame() == old(decoder).frame(),
    {
        reveal(OpCodeHandler_VEX_Gv_Gv_Ev::spec_decode);
        let state: State = decoder.state;
        let is64_mode: bool = decoder.is64_mode;
        instruction.set_code(if is64_mode && state.flags.w { self.code64 } else { self.code32 });
        instruction.set_op0_register(
            state.reg_register(register::gpr32_or_64(is64_mode && state.flags.w)),
        );
        instruction.set_op1_register(
            state.vvvv_register(register::gpr32_or_64(is64_mode && state.flags.w)),
        );
        decoder.op_rm(
            instruction,
            2,
            state.rm_register(register::gpr32_or_64(is64_mode && state.flags.w)),
        );
    }
}

/// `r, r/m, r`: the last operand is the one the prefix selects.
#[derive(Clone, Copy, Debug, PartialEq, Eq, Structural)]
pub struct OpCodeHandler_VEX_Gv_Ev_Gv {
    pub has_modrm: bool,
    pub code32: u32,
    pub code64: u32,
}

impl OpCodeHandler_VEX_Gv_Ev_Gv {
    /// A handler that yields `code64` for 64-bit operands, else `code32`.
    pub fn new(code32: u32, code64: u32) -> (handler: Self)
        ensures
            handler == (Self { has_modrm: true, code32, code64 }),
    {
        Self { has_modrm: true, code32, code64 }
    }

    /// Decoder and record as [`Self::decode`] leaves them.
    #[verifier::opaque]
    pub open spec fn spec_decode(&self, d: Decoder, i: Instruction) -> Decoded {
        let state = d.state;
        let is64_mode = d.is64_mode;
        Decoded::at(d, i)
            .code(if is64_mode && state.flags.w { self.code64 } else { self.code32 })
            .op_register(0, state.reg_register(register::gpr32_or_64(is64_mode && state.flags.w)))
            .op_rm(1, state.rm_register(register::gpr32_or_64(is64_mode && state.flags.w)))
            .op_register(2, state.vvvv_register(register::gpr32_or_64(is64_mode && state.flags.w)))
    }

    /// Decodes the operands of the instruction into `instruction`.
    pub fn decode(&self, decoder: &mut Decoder, instruction: &mut Instruction)
        requires
            old(decoder).wf(),
            old(decoder).state.encoding == EncodingKind::VEX || old(decoder).state.encoding
                == EncodingKind::XOP,
        ensures
            *final(decoder) == self.spec_decode(*old(decoder), *old(instruction)).decoder,
            *final(instruction) == self.spec_decode(
                *old(decoder),
                *old(instruction),
            ).instruction,
            final(decoder).wf(),
            final(decoder).frame() == old(decoder).frame(),
    {
        reveal(OpCodeHandler_VEX_Gv_Ev_Gv::spec_decode);
        let state: State = decoder.state;
        let is64_mode: bool = decoder.is64_mode;
        instruction.set_code(if is64_mode && state.flags.w { self.code64 } else { self.code32 });
        instruction.set_op0_register(
            state.reg_register(register::gpr32_or_64(is64_mode && state.flags.w)),
        );
        decoder.op_rm(
            instruction,
            1,
            state.rm_register(register::gpr32_or_64(is64_mode && state.flags.w)),
        );
        instruction.set_op2_register(
            state.vvvv_register(register::gpr32_or_64(is64_mode && state.flags.w)),
        );
    }
}

/// `r, r/m`: the first operand is the one the prefix selects.
#[derive(Clone, Copy, Debug, PartialEq, Eq, Structural)]
pub struct OpCodeHandler_VEX_Hv_Ev {
    pub has_modrm: bool,
    pub code32: u32,
    pub code64: u32,
}

impl OpCodeHandler_VEX_Hv_Ev {
    /// A handler that yields `code64` for 64-bit operands, else `code32`.
    pub fn new(code32: u32, code64: u32) -> (handler: Self)
        ensures
            handler == (Self { has_modrm: true, code32, code64 }),
    {
        Self { has_modrm: true, code32, code64 }
    }

    /// Decoder and record as [`Self::decode`] leaves them.
    #[verifier::opaque]
    pub open spec fn spec_decode(&self, d: Decoder, i: Instruction) -> Decoded {
        let state = d.state;
        let is64_mode = d.is64_mode;
        Decoded::at(d, i)
            .code(if is64_mode && state.flags.w { self.code64 } else { self.code32 })
            .op_register(0, state.vvvv_register(register::gpr32_or_64(is64_mode && state.flags.w)))
            .op_rm(1, state.rm_register(register::gpr32_or_64(is64_mode && state.flags.w)))
    }

    /// Decodes the operands of the instruction into `instruction`.
    pub fn decode(&self, decoder: &mut Decoder, instruction: &mut Instruction)
        requires
            old(decoder).wf(),
            old(decoder).state.encoding == EncodingKind::VEX || old(decoder).state.encoding
                == EncodingKind::XOP,
        ensures
            *final(decoder) == self.spec_decode(*old(decoder), *old(instruction)).decoder,
            *final(instruction) == self.spec_decode(
                *old(decoder),
                *old(instruction),
            ).instruction,
            final(decoder).wf(),
            final(decoder).frame() == old(decoder).frame(),
    {
        reveal(OpCodeHandler_VEX_Hv_Ev::spec_decode);
        let state: State = decoder.state;
        let is64_mode: bool = decoder.is64_mode;
        instruction.set_code(if is64_mode && state.flags.w { self.code64 } else { self.code32 });
        instruction.set_op0_register(
            state.vvvv_register(register::gpr32_or_64(is64_mode && state.flags.w)),
        );
        decoder.op_rm(
            instruction,
            1,
            state.rm_register(register::gpr32_or_64(is64_mode && state.flags.w)),
        );
    }
}

/// `r, r/m32, imm32`: the first operand is the one the prefix selects.
#[derive(Clone, Copy, Debug, PartialEq, Eq, Structural)]
pub struct OpCodeHandler_VEX_Hv_Ed_Id {
    pub has_modrm: bool,
    pub code32: u32,
    pub code64: u32,
}

impl OpCodeHandler_VEX_Hv_Ed_Id {
    /// A handler that yields `code64` for a 64-bit first operand, else `code32`.
    pub fn new(code32: u32, code64: u32) -> (handler: Self)
        ensures
            handler == (Self { has_modrm: true, code32, code64 }),
    {
        Self { has_modrm: true, code32, code64 }
    }

    /// Decoder and record as [`Self::decode`] leaves them.
    #[verifier::opaque]
    pub open spec fn spec_decode(&self, d: Decoder, i: Instruction) -> Decoded {
        let state = d.state;
        let is64_mode = d.is64_mode;
        Decoded::at(d, i)
            .code(if is64_mode && state.flags.w { self.code64 } else { self.code32 })
            .op_register(0, state.vvvv_register(register::gpr32_or_64(is64_mode && state.flags.w)))
            .op_rm(1, state.rm_register(register::EAX))
            .imm32(2, OpKind::Immediate32)
    }

    /// Decodes the operands of the instruction into `instruction`.
    pub fn decode(&self, decoder: &mut Decoder, instruction: &mut Instruction)
        requires
            old(decoder).wf(),
            old(decoder).state.encoding == EncodingKind::VEX || old(decoder).state.encoding
                == EncodingKind::XOP,
        ensures
            *final(decoder) == self.spec_decode(*old(decoder), *old(instruction)).decoder,
            *final(instruction) == self.spec_decode(
                *old(decoder),
                *old(instruction),
            ).instruction,
            final(decoder).wf(),
            final(decoder).frame() == old(decoder).frame(),
    {
        reveal(OpCodeHandler_VEX_Hv_Ed_Id::spec_decode);
        let state: State = decoder.state;
        let is64_mode: bool = decoder.is64_mode;
        instruction.set_code(if is64_mode && state.flags.w { self.code64 } else { self.code32 });
        instruction.set_op0_register(
            state.vvvv_register(register::gpr32_or_64(is64_mode && state.flags.w)),
        );
        decoder.op_rm(instruction, 1, state.rm_register(register::EAX));
        decoder.op_imm32(instruction, 2, OpKind::Immediate32);
    }
}

/// A VEX or XOP handler with an operand that the prefix selects.
#[derive(Clone, Copy, Debug, PartialEq, Eq, Structural)]
pub enum VexVvvvHandler {
    VEX_VHEv(OpCodeHandler_VEX_VHEv),
    VEX_VHEvIb(OpCodeHandler_VEX_VHEvIb),
    VEX_VHW(OpCodeHandler_VEX_VHW),
    VEX_VWH(OpCodeHandler_VEX_VWH),
    VEX_WHV(OpCodeHandler_VEX_WHV),
    VEX_VHM(OpCodeHandler_VEX_VHM),
    VEX_MHV(OpCodeHandler_VEX_MHV),
    VEX_VHWIb(OpCodeHandler_VEX_VHWIb),
    VEX_HRIb(OpCodeHandler_VEX_HRIb),
    VEX_VHWIs4(OpCodeHandler_VEX_VHWIs4),
    VEX_VHIs4W(OpCodeHandler_VEX_VHIs4W),
    VEX_VHWIs5(OpCodeHandler_VEX_VHWIs5),
    VEX_VHIs5W(OpCodeHandler_VEX_VHIs5W),
    VEX_VX_VSIB_HX(OpCodeHandler_VEX_VX_VSIB_HX),
    VEX_Gv_Gv_Ev(OpCodeHandler_VEX_Gv_Gv_Ev),
    VEX_Gv_Ev_Gv(OpCodeHandler_VEX_Gv_Ev_Gv),
    VEX_Hv_Ev(OpCodeHandler_VEX_Hv_Ev),
    VEX_Hv_Ed_Id(OpCodeHandler_VEX_Hv_Ed_Id),
}

impl VexVvvvHandler {
    /// Whether a ModRM byte follows the opcode.
    pub open spec fn spec_has_modrm(&self) -> bool {
        match self {
            VexVvvvHandler::VEX_VHEv(h) => h.has_modrm,
            VexVvvvHandler::VEX_VHEvIb(h) => h.has_modrm,
            VexVvvvHandler::VEX_VHW(h) => h.has_modrm,
            VexVvvvHandler::VEX_VWH(h) => h.has_modrm,
            VexVvvvHandler::VEX_WHV(h) => h.has_modrm,
            VexVvvvHandler::VEX_VHM(h) => h.has_modrm,
            VexVvvvHandler::VEX_MHV(h) => h.has_modrm,
            VexVvvvHandler::VEX_VHWIb(h) => h.has_modrm,
            VexVvvvHandler::VEX_HRIb(h) => h.has_modrm,
            VexVvvvHandler::VEX_VHWIs4(h) => h.has_modrm,
            VexVvvvHandler::VEX_VHIs4W(h) => h.has_modrm,
            VexVvvvHandler::VEX_VHWIs5(h) => h.has_modrm,
            VexVvvvHandler::VEX_VHIs5W(h) => h.has_modrm,
            VexVvvvHandler::VEX_VX_VSIB_HX(h) => h.has_modrm,
            VexVvvvHandler::VEX_Gv_Gv_Ev(h) => h.has_modrm,
            VexVvvvHandler::VEX_Gv_Ev_Gv(h) => h.has_modrm,
            VexVvvvHandler::VEX_Hv_Ev(h) => h.has_modrm,
            VexVvvvHandler::VEX_Hv_Ed_Id(h) => h.has_modrm,
        }
    }

    /// Whether a ModRM byte follows the opcode.
    #[verifier::when_used_as_spec(spec_has_modrm)]
    pub fn has_modrm(&self) -> (b: bool)
        ensures
            b == self.spec_has_modrm(),
    {
        match self {
            VexVvvvHandler::VEX_VHEv(h) => h.has_modrm,
            VexVvvvHandler::VEX_VHEvIb(h) => h.has_modrm,
            VexVvvvHandler::VEX_VHW(h) => h.has_modrm,
            VexVvvvHandler::VEX_VWH(h) => h.has_modrm,
            VexVvvvHandler::VEX_WHV(h) => h.has_modrm,
            VexVvvvHandler::VEX_VHM(h) => h.has_modrm,
            VexVvvvHandler::VEX_MHV(h) => h.has_modrm,
            VexVvvvHandler::VEX_VHWIb(h) => h.has_modrm,
            VexVvvvHandler::VEX_HRIb(h) => h.has_modrm,
            VexVvvvHandler::VEX_VHWIs4(h) => h.has_modrm,
            VexVvvvHandler::VEX_VHIs4W(h) => h.has_modrm,
            VexVvvvHandler::VEX_VHWIs5(h) => h.has_modrm,
            VexVvvvHandler::VEX_VHIs5W(h) => h.has_modrm,
            VexVvvvHandler::VEX_VX_VSIB_HX(h) => h.has_modrm,
            VexVvvvHandler::VEX_Gv_Gv_Ev(h) => h.has_modrm,
            VexVvvvHandler::VEX_Gv_Ev_Gv(h) => h.has_modrm,
            VexVvvvHandler::VEX_Hv_Ev(h) => h.has_modrm,
            VexVvvvHandler::VEX_Hv_Ed_Id(h) => h.has_modrm,
        }
    }

    /// The handler is well-formed.
    pub open spec fn wf(&self) -> bool {
        match self {
            VexVvvvHandler::VEX_VHEv(h) => h.wf(),
            VexVvvvHandler::VEX_VHEvIb(h) => h.wf(),
            VexVvvvHandler::VEX_VHW(h) => h.wf(),
            VexVvvvHandler::VEX_VWH(h) => h.wf(),
            VexVvvvHandler::VEX_WHV(h) => h.wf(),
            VexVvvvHandler::VEX_VHM(h) => h.wf(),
            VexVvvvHandler::VEX_MHV(h) => h.wf(),
            VexVvvvHandler::VEX_VHWIb(h) => h.wf(),
            VexVvvvHandler::VEX_HRIb(h) => h.wf(),
            VexVvvvHandler::VEX_VHWIs4(h) => h.wf(),
            VexVvvvHandler::VEX_VHIs4W(h) => h.wf(),
            VexVvvvHandler::VEX_VHWIs5(h) => h.wf(),
            VexVvvvHandler::VEX_VHIs5W(h) => h.wf(),
            VexVvvvHandler::VEX_VX_VSIB_HX(h) => h.wf(),
            VexVvvvHandler::VEX_Gv_Gv_Ev(_) => true,
            VexVvvvHandler::VEX_Gv_Ev_Gv(_) => true,
            VexVvvvHandler::VEX_Hv_Ev(_) => true,
            VexVvvvHandler::VEX_Hv_Ed_Id(_) => true,
        }
    }

    /// Whether the handler is well-formed.
    #[verifier::when_used_as_spec(wf)]
    pub fn is_wf(&self) -> (b: bool)
        ensures
            b == self.wf(),
    {
        match self {
            VexVvvvHandler::VEX_VHEv(h) => h.is_wf(),
            VexVvvvHandler::VEX_VHEvIb(h) => h.is_wf(),
            VexVvvvHandler::VEX_VHW(h) => h.is_wf(),
            VexVvvvHandler::VEX_VWH(h) => h.is_wf(),
            VexVvvvHandler::VEX_WHV(h) => h.is_wf(),
            VexVvvvHandler::VEX_VHM(h) => h.is_wf(),
            VexVvvvHandler::VEX_MHV(h) => h.is_wf(),
            VexVvvvHandler::VEX_VHWIb(h) => h.is_wf(),
            VexVvvvHandler::VEX_HRIb(h) => h.is_wf(),
            VexVvvvHandler::VEX_VHWIs4(h) => h.is_wf(),
            VexVvvvHandler::VEX_VHIs4W(h) => h.is_wf(),
            VexVvvvHandler::VEX_VHWIs5(h) => h.is_wf(),
            VexVvvvHandler::VEX_VHIs5W(h) => h.is_wf(),
            VexVvvvHandler::VEX_VX_VSIB_HX(h) => h.is_wf(),
            VexVvvvHandler::VEX_Gv_Gv_Ev(_) => true,
            VexVvvvHandler::VEX_Gv_Ev_Gv(_) => true,
            VexVvvvHandler::VEX_Hv_Ev(_) => true,
            VexVvvvHandler::VEX_Hv_Ed_Id(_) => true,
        }
    }

    /// Decoder and record as [`Self::decode`] leaves them.
    #[verifier::opaque]
    pub open spec fn spec_decode(&self, d: Decoder, i: Instruction) -> Decoded {
        match self {
            VexVvvvHandler::VEX_VHEv(h) => h.spec_decode(d, i),
            VexVvvvHandler::VEX_VHEvIb(h) => h.spec_decode(d, i),
            VexVvvvHandler::VEX_VHW(h) => h.spec_decode(d, i),
            VexVvvvHandler::VEX_VWH(h) => h.spec_decode(d, i),
            VexVvvvHandler::VEX_WHV(h) => h.spec_decode(d, i),
            VexVvvvHandler::VEX_VHM(h) => h.spec_decode(d, i),
            VexVvvvHandler::VEX_MHV(h) => h.spec_decode(d, i),
            VexVvvvHandler::VEX_VHWIb(h) => h.spec_decode(d, i),
            VexVvvvHandler::VEX_HRIb(h) => h.spec_decode(d, i),
            VexVvvvHandler::VEX_VHWIs4(h) => h.spec_decode(d, i),
            VexVvvvHandler::VEX_VHIs4W(h) => h.spec_decode(d, i),
            VexVvvvHandler::VEX_VHWIs5(h) => h.spec_decode(d, i),
            VexVvvvHandler::VEX_VHIs5W(h) => h.spec_decode(d, i),
            VexVvvvHandler::VEX_VX_VSIB_HX(h) => h.spec_decode(d, i),
            VexVvvvHandler::VEX_Gv_Gv_Ev(h) => h.spec_decode(d, i),
            VexVvvvHandler::VEX_Gv_Ev_Gv(h) => h.spec_decode(d, i),
            VexVvvvHandler::VEX_Hv_Ev(h) => h.spec_decode(d, i),
            VexVvvvHandler::VEX_Hv_Ed_Id(h) => h.spec_decode(d, i),
        }
    }

    /// Decodes the operands of the instruction with the handler that `self` holds.
    pub fn decode(&self, decoder: &mut Decoder, instruction: &mut Instruction)
        requires
            old(decoder).wf(),
            self.wf(),
            old(decoder).state.encoding == EncodingKind::VEX || old(decoder).state.encoding
                == EncodingKind::XOP,
        ensures
            *final(decoder) == self.spec_decode(*old(decoder), *old(instruction)).decoder,
            *final(instruction) == self.spec_decode(
                *old(decoder),
                *old(instruction),
            ).instruction,
            final(decoder).wf(),
            final(decoder).frame() == old(decoder).frame(),
    {
        reveal(VexVvvvHandler::spec_decode);
        match self {
            VexVvvvHandler::VEX_VHEv(h) => h.decode(decoder, instruction),
            VexVvvvHandler::VEX_VHEvIb(h) => h.decode(decoder, instruction),
            VexVvvvHandler::VEX_VHW(h) => h.decode(decoder, instruction),
            VexVvvvHandler::VEX_VWH(h) => h.decode(decoder, instruction),
            VexVvvvHandler::VEX_WHV(h) => h.decode(decoder, instruction),
            VexVvvvHandler::VEX_VHM(h) => h.decode(decoder, instruction),
            VexVvvvHandler::VEX_MHV(h) => h.decode(decoder, instruction),
            VexVvvvHandler::VEX_VHWIb(h) => h.decode(decoder, instruction),
            VexVvvvHandler::VEX_HRIb(h) => h.decode(decoder, instruction),
            VexVvvvHandler::VEX_VHWIs4(h) => h.decode(decoder, instruction),
            VexVvvvHandler::VEX_VHIs4W(h) => h.decode(decoder, instruction),
            VexVvvvHandler::VEX_VHWIs5(h) => h.decode(decoder, instruction),
            VexVvvvHandler::VEX_VHIs5W(h) => h.decode(decoder, instruction),
            VexVvvvHandler::VEX_VX_VSIB_HX(h) => h.decode(decoder, instruction),
            VexVvvvHandler::VEX_Gv_Gv_Ev(h) => h.decode(decoder, instruction),
            VexVvvvHandler::VEX_Gv_Ev_Gv(h) => h.decode(decoder, instruction),
            VexVvvvHandler::VEX_Hv_Ev(h) => h.decode(decoder, instruction),
            VexVvvvHandler::VEX_Hv_Ed_Id(h) => h.decode(decoder, instruction),
        }
    }
}

} // verus!
