//! Legacy handlers of the MMX and SSE instructions.
//!
//! Vector operands are in the class that the handler was made with; MMX
//! registers take no extension bits.
use vstd::prelude::*;
use crate::code;
use crate::decoder::{Decoder, State};
use crate::enums::{EncodingKind, OpKind, OpSize};
use crate::instruction::Instruction;
use crate::operand::{seg_rdi_kind, Decoded};
use crate::register;

verus! {

/// An MMX register that rm selects, then an 8-bit immediate; the memory form is invalid.
#[derive(Clone, Copy, Debug, PartialEq, Eq, Structural)]
pub struct OpCodeHandler_NIb {
    pub has_modrm: bool,
    pub code: u32,
}

impl OpCodeHandler_NIb {
    /// A handler that yields `code`.
    pub fn new(code: u32) -> (handler: Self)
        ensures
            handler == (Self { has_modrm: true, code }),
    {
        Self { has_modrm: true, code }
    }

    /// Decoder and record as [`Self::decode`] leaves them.
    #[verifier::opaque]
    pub open spec fn spec_decode(&self, d: Decoder, i: Instruction) -> Decoded {
        let state = d.state;
        Decoded::at(d, i)
            .code(self.code)
            .op_reg(0, register::offset(register::MM0, state.rm))
            .imm8(1, OpKind::Immediate8)
    }

    /// Decodes the operands of the instruction into `instruction`.
    pub fn decode(&self, decoder: &mut Decoder, instruction: &mut Instruction)
        requires
            old(decoder).wf(),
            old(decoder).state.encoding == EncodingKind::Legacy,
        ensures
            *final(decoder) == self.spec_decode(*old(decoder), *old(instruction)).decoder,
            *final(instruction) == self.spec_decode(
                *old(decoder),
                *old(instruction),
            ).instruction,
            final(decoder).wf(),
            final(decoder).frame() == old(decoder).frame(),
    {
        reveal(OpCodeHandler_NIb::spec_decode);
        let state: State = decoder.state;
        instruction.set_code(self.code);
        decoder.op_reg(instruction, 0, register::offset(register::MM0, state.rm));
        decoder.op_imm8(instruction, 1, OpKind::Immediate8);
    }
}

/// `v, v/m`: two vector operands.  The register form and the memory form
/// may have codes of their own, and the memory form may have none.
#[derive(Clone, Copy, Debug, PartialEq, Eq, Structural)]
pub struct OpCodeHandler_VW {
    pub has_modrm: bool,
    pub base_reg: u32,
    pub code_r: u32,
    pub code_m: u32,
}

impl OpCodeHandler_VW {
    /// A handler that yields `code` in the class that starts at `base_reg`.
    pub fn new(base_reg: u32, code: u32) -> (handler: Self)
        ensures
            handler == (Self { has_modrm: true, base_reg, code_r: code, code_m: code }),
    {
        Self { has_modrm: true, base_reg, code_r: code, code_m: code }
    }

    /// A handler that yields `code_r` in the register form and `code_m` in the memory form.
    pub fn new1(base_reg: u32, code_r: u32, code_m: u32) -> (handler: Self)
        ensures
            handler == (Self { has_modrm: true, base_reg, code_r, code_m }),
    {
        Self { has_modrm: true, base_reg, code_r, code_m }
    }

    /// The handler's registers are register numbers.
    pub open spec fn wf(&self) -> bool {
        self.base_reg < register::COUNT
    }

    /// Whether the handler is well-formed.
    #[verifier::when_used_as_spec(wf)]
    pub fn is_wf(&self) -> (b: bool)
        ensures
            b == self.wf(),
    {
        self.base_reg < register::COUNT
    }

    /// Decoder and record as [`Self::decode`] leaves them.
    #[verifier::opaque]
    pub open spec fn spec_decode(&self, d: Decoder, i: Instruction) -> Decoded {
        let state = d.state;
        Decoded::at(d, i)
            .op_register(0, state.reg_register(self.base_reg))
            .code(if state.mod_ == 3 { self.code_r } else { self.code_m })
            .op_rm(1, state.rm_register(self.base_reg))
            .invalid_if(state.mod_ != 3 && self.code_m == code::INVALID)
    }

    /// Decodes the operands of the instruction into `instruction`.
    pub fn decode(&self, decoder: &mut Decoder, instruction: &mut Instruction)
        requires
            old(decoder).wf(),
            self.wf(),
            old(decoder).state.encoding == EncodingKind::Legacy,
        ensures
            *final(decoder) == self.spec_decode(*old(decoder), *old(instruction)).decoder,
            *final(instruction) == self.spec_decode(
                *old(decoder),
                *old(instruction),
            ).instruction,
            final(decoder).wf(),
            final(decoder).frame() == old(decoder).frame(),
    {
        reveal(OpCodeHandler_VW::spec_decode);
        let state: State = decoder.state;
        instruction.set_op0_register(state.reg_register(self.base_reg));
        instruction.set_code(if state.mod_ == 3 { self.code_r } else { self.code_m });
        decoder.op_rm(instruction, 1, state.rm_register(self.base_reg));
        decoder.set_invalid_instruction_if(state.mod_ != 3 && self.code_m == code::INVALID);
    }
}

/// `v/m, v`: two vector operands.
#[derive(Clone, Copy, Debug, PartialEq, Eq, Structural)]
pub struct OpCodeHandler_WV {
    pub has_modrm: bool,
    pub base_reg: u32,
    pub code: u32,
}

impl OpCodeHandler_WV {
    /// A handler that yields `code` in the class that starts at `base_reg`.
    pub fn new(base_reg: u32, code: u32) -> (handler: Self)
        ensures
            handler == (Self { has_modrm: true, base_reg, code }),
    {
        Self { has_modrm: true, base_reg, code }
    }

    /// The handler's registers are register numbers.
    pub open spec fn wf(&self) -> bool {
        self.base_reg < register::COUNT
    }

    /// Whether the handler is well-formed.
    #[verifier::when_used_as_spec(wf)]
    pub fn is_wf(&self) -> (b: bool)
        ensures
            b == self.wf(),
    {
        self.base_reg < register::COUNT
    }

    /// Decoder and record as [`Self::decode`] leaves them.
    #[verifier::opaque]
    pub open spec fn spec_decode(&self, d: Decoder, i: Instruction) -> Decoded {
        let state = d.state;
        Decoded::at(d, i)
            .code(self.code)
            .op_rm(0, state.rm_register(self.base_reg))
            .op_register(1, state.reg_register(self.base_reg))
    }

    /// Decodes the operands of the instruction into `instruction`.
    pub fn decode(&self, decoder: &mut Decoder, instruction: &mut Instruction)
        requires
            old(decoder).wf(),
            self.wf(),
            old(decoder).state.encoding == EncodingKind::Legacy,
        ensures
            *final(decoder) == self.spec_decode(*old(decoder), *old(instruction)).decoder,
            *final(instruction) == self.spec_decode(
                *old(decoder),
                *old(instruction),
            ).instruction,
            final(decoder).wf(),
            final(decoder).frame() == old(decoder).frame(),
    {
        reveal(OpCodeHandler_WV::spec_decode);
        let state: State = decoder.state;
        instruction.set_code(self.code);
        decoder.op_rm(instruction, 0, state.rm_register(self.base_reg));
        instruction.set_op1_register(state.reg_register(self.base_reg));
    }
}

/// `seg:[rDI], v, v`; the memory form of the last operand is invalid.
#[derive(Clone, Copy, Debug, PartialEq, Eq, Structural)]
pub struct OpCodeHandler_rDI_VX_RX {
    pub has_modrm: bool,
    pub base_reg: u32,
    pub code: u32,
}

impl OpCodeHandler_rDI_VX_RX {
    /// A handler that yields `code` in the class that starts at `base_reg`.
    pub fn new(base_reg: u32, code: u32) -> (handler: Self)
        ensures
            handler == (Self { has_modrm: true, base_reg, code }),
    {
        Self { has_modrm: true, base_reg, code }
    }

    /// The handler's registers are register numbers.
    pub open spec fn wf(&self) -> bool {
        self.base_reg < register::COUNT
    }

    /// Whether the handler is well-formed.
    #[verifier::when_used_as_spec(wf)]
    pub fn is_wf(&self) -> (b: bool)
        ensures
            b == self.wf(),
    {
        self.base_reg < register::COUNT
    }

    /// Decoder and record as [`Self::decode`] leaves them.
    #[verifier::opaque]
    pub open spec fn spec_decode(&self, d: Decoder, i: Instruction) -> Decoded {
        let state = d.state;
        Decoded::at(d, i)
            .code(self.code)
            .op_kind(0, seg_rdi_kind(state.address_size))
            .op_register(1, state.reg_register(self.base_reg))
            .op_reg(2, state.rm_register(self.base_reg))
    }

    /// Decodes the operands of the instruction into `instruction`.
    pub fn decode(&self, decoder: &mut Decoder, instruction: &mut Instruction)
        requires
            old(decoder).wf(),
            self.wf(),
            old(decoder).state.encoding == EncodingKind::Legacy,
        ensures
            *final(decoder) == self.spec_decode(*old(decoder), *old(instruction)).decoder,
            *final(instruction) == self.spec_decode(
                *old(decoder),
                *old(instruction),
            ).instruction,
            final(decoder).wf(),
            final(decoder).frame() == old(decoder).frame(),
    {
        reveal(OpCodeHandler_rDI_VX_RX::spec_decode);
        let state: State = decoder.state;
        instruction.set_code(self.code);
        instruction.set_op0_kind(seg_rdi_kind(state.address_size));
        instruction.set_op1_register(state.reg_register(self.base_reg));
        decoder.op_reg(instruction, 2, state.rm_register(self.base_reg));
    }
}

/// `seg:[rDI], mm, mm`; the memory form of the last operand is invalid.
#[derive(Clone, Copy, Debug, PartialEq, Eq, Structural)]
pub struct OpCodeHandler_rDI_P_N {
    pub has_modrm: bool,
    pub code: u32,
}

impl OpCodeHandler_rDI_P_N {
    /// A handler that yields `code`.
    pub fn new(code: u32) -> (handler: Self)
        ensures
            handler == (Self { has_modrm: true, code }),
    {
        Self { has_modrm: true, code }
    }

    /// Decoder and record as [`Self::decode`] leaves them.
    #[verifier::opaque]
    pub open spec fn spec_decode(&self, d: Decoder, i: Instruction) -> Decoded {
        let state = d.state;
        Decoded::at(d, i)
            .code(self.code)
            .op_kind(0, seg_rdi_kind(state.address_size))
            .op_register(1, register::offset(register::MM0, state.reg))
            .op_reg(2, register::offset(register::MM0, state.rm))
    }

    /// Decodes the operands of the instruction into `instruction`.
    pub fn decode(&self, decoder: &mut Decoder, instruction: &mut Instruction)
        requires
            old(decoder).wf(),
            old(decoder).state.encoding == EncodingKind::Legacy,
        ensures
            *final(decoder) == self.spec_decode(*old(decoder), *old(instruction)).decoder,
            *final(instruction) == self.spec_decode(
                *old(decoder),
                *old(instruction),
            ).instruction,
            final(decoder).wf(),
            final(decoder).frame() == old(decoder).frame(),
    {
        reveal(OpCodeHandler_rDI_P_N::spec_decode);
        let state: State = decoder.state;
        instruction.set_code(self.code);
        instruction.set_op0_kind(seg_rdi_kind(state.address_size));
        instruction.set_op1_register(register::offset(register::MM0, state.reg));
        decoder.op_reg(instruction, 2, register::offset(register::MM0, state.rm));
    }
}

/// `v, m`; the register form is invalid.
#[derive(Clone, Copy, Debug, PartialEq, Eq, Structural)]
pub struct OpCodeHandler_VM {
    pub has_modrm: bool,
    pub base_reg: u32,
    pub code: u32,
}

impl OpCodeHandler_VM {
    /// A handler that yields `code` in the class that starts at `base_reg`.
    pub fn new(base_reg: u32, code: u32) -> (handler: Self)
        ensures
            handler == (Self { has_modrm: true, base_reg, code }),
    {
        Self { has_modrm: true, base_reg, code }
    }

    /// The handler's registers are register numbers.
    pub open spec fn wf(&self) -> bool {
        self.base_reg < register::COUNT
    }

    /// Whether the handler is well-formed.
    #[verifier::when_used_as_spec(wf)]
    pub fn is_wf(&self) -> (b: bool)
        ensures
            b == self.wf(),
    {
        self.base_reg < register::COUNT
    }

    /// Decoder and record as [`Self::decode`] leaves them.
    #[verifier::opaque]
    pub open spec fn spec_decode(&self, d: Decoder, i: Instruction) -> Decoded {
        let state = d.state;
        Decoded::at(d, i)
            .code(self.code)
            .op_register(0, state.reg_register(self.base_reg))
            .op_mem(1)
    }

    /// Decodes the operands of the instruction into `instruction`.
    pub fn decode(&self, decoder: &mut Decoder, instruction: &mut Instruction)
        requires
            old(decoder).wf(),
            self.wf(),
            old(decoder).state.encoding == EncodingKind::Legacy,
        ensures
            *final(decoder) == self.spec_decode(*old(decoder), *old(instruction)).decoder,
            *final(instruction) == self.spec_decode(
                *old(decoder),
                *old(instruction),
            ).instruction,
            final(decoder).wf(),
            final(decoder).frame() == old(decoder).frame(),
    {
        reveal(OpCodeHandler_VM::spec_decode);
        let state: State = decoder.state;
        instruction.set_code(self.code);
        instruction.set_op0_register(state.reg_register(self.base_reg));
        decoder.op_mem(instruction, 1);
    }
}

/// `m, v`; the register form is invalid.
#[derive(Clone, Copy, Debug, PartialEq, Eq, Structural)]
pub struct OpCodeHandler_MV {
    pub has_modrm: bool,
    pub base_reg: u32,
    pub code: u32,
}

impl OpCodeHandler_MV {
    /// A handler that yields `code` in the class that starts at `base_reg`.
    pub fn new(base_reg: u32, code: u32) -> (handler: Self)
        ensures
            handler == (Self { has_modrm: true, base_reg, code }),
    {
        Self { has_modrm: true, base_reg, code }
    }

    /// The handler's registers are register numbers.
    pub open spec fn wf(&self) -> bool {
        self.base_reg < register::COUNT
    }

    /// Whether the handler is well-formed.
    #[verifier::when_used_as_spec(wf)]
    pub fn is_wf(&self) -> (b: bool)
        ensures
            b == self.wf(),
    {
        self.base_reg < register::COUNT
    }

    /// Decoder and record as [`Self::decode`] leaves them.
    #[verifier::opaque]
    pub open spec fn spec_decode(&self, d: Decoder, i: Instruction) -> Decoded {
        let state = d.state;
        Decoded::at(d, i)
            .code(self.code)
            .op_mem(0)
            .op_register(1, state.reg_register(self.base_reg))
    }

    /// Decodes the operands of the instruction into `instruction`.
    pub fn decode(&self, decoder: &mut Decoder, instruction: &mut Instruction)
        requires
            old(decoder).wf(),
            self.wf(),
            old(decoder).state.encoding == EncodingKind::Legacy,
        ensures
            *final(decoder) == self.spec_decode(*old(decoder), *old(instruction)).decoder,
            *final(instruction) == self.spec_decode(
                *old(decoder),
                *old(instruction),
            ).instruction,
            final(decoder).wf(),
            final(decoder).frame() == old(decoder).frame(),
    {
        reveal(OpCodeHandler_MV::spec_decode);
        let state: State = decoder.state;
        instruction.set_code(self.code);
        decoder.op_mem(instruction, 0);
        instruction.set_op1_register(state.reg_register(self.base_reg));
    }
}

/// `v, mm/m`.
#[derive(Clone, Copy, Debug, PartialEq, Eq, Structural)]
pub struct OpCodeHandler_VQ {
    pub has_modrm: bool,
    pub base_reg: u32,
    pub code: u32,
}

impl OpCodeHandler_VQ {
    /// A handler that yields `code` in the class that starts at `base_reg`.
    pub fn new(base_reg: u32, code: u32) -> (handler: Self)
        ensures
            handler == (Self { has_modrm: true, base_reg, code }),
    {
        Self { has_modrm: true, base_reg, code }
    }

    /// The handler's registers are register numbers.
    pub open spec fn wf(&self) -> bool {
        self.base_reg < register::COUNT
    }

    /// Whether the handler is well-formed.
    #[verifier::when_used_as_spec(wf)]
    pub fn is_wf(&self) -> (b: bool)
        ensures
            b == self.wf(),
    {
        self.base_reg < register::COUNT
    }

    /// Decoder and record as [`Self::decode`] leaves them.
    #[verifier::opaque]
    pub open spec fn spec_decode(&self, d: Decoder, i: Instruction) -> Decoded {
        let state = d.state;
        Decoded::at(d, i)
            .code(self.code)
            .op_register(0, state.reg_register(self.base_reg))
            .op_rm(1, register::offset(register::MM0, state.rm))
    }

    /// Decodes the operands of the instruction into `instruction`.
    pub fn decode(&self, decoder: &mut Decoder, instruction: &mut Instruction)
        requires
            old(decoder).wf(),
            self.wf(),
            old(decoder).state.encoding == EncodingKind::Legacy,
        ensures
            *final(decoder) == self.spec_decode(*old(decoder), *old(instruction)).decoder,
            *final(instruction) == self.spec_decode(
                *old(decoder),
                *old(instruction),
            ).instruction,
            final(decoder).wf(),
            final(decoder).frame() == old(decoder).frame(),
    {
        reveal(OpCodeHandler_VQ::spec_decode);
        let state: State = decoder.state;
        instruction.set_code(self.code);
        instruction.set_op0_register(state.reg_register(self.base_reg));
        decoder.op_rm(instruction, 1, register::offset(register::MM0, state.rm));
    }
}

/// `mm, mm/m`.
#[derive(Clone, Copy, Debug, PartialEq, Eq, Structural)]
pub struct OpCodeHandler_P_Q {
    pub has_modrm: bool,
    pub code: u32,
}

impl OpCodeHandler_P_Q {
    /// A handler that yields `code`.
    pub fn new(code: u32) -> (handler: Self)
        ensures
            handler == (Self { has_modrm: true, code }),
    {
        Self { has_modrm: true, code }
    }

    /// Decoder and record as [`Self::decode`] leaves them.
    #[verifier::opaque]
    pub open spec fn spec_decode(&self, d: Decoder, i: Instruction) -> Decoded {
        let state = d.state;
        Decoded::at(d, i)
            .code(self.code)
            .op_register(0, register::offset(register::MM0, state.reg))
            .op_rm(1, register::offset(register::MM0, state.rm))
    }

    /// Decodes the operands of the instruction into `instruction`.
    pub fn decode(&self, decoder: &mut Decoder, instruction: &mut Instruction)
        requires
            old(decoder).wf(),
            old(decoder).state.encoding == EncodingKind::Legacy,
        ensures
            *final(decoder) == self.spec_decode(*old(decoder), *old(instruction)).decoder,
            *final(instruction) == self.spec_decode(
                *old(decoder),
                *old(instruction),
            ).instruction,
            final(decoder).wf(),
            final(decoder).frame() == old(decoder).frame(),
    {
        reveal(OpCodeHandler_P_Q::spec_decode);
        let state: State = decoder.state;
        instruction.set_code(self.code);
        instruction.set_op0_register(register::offset(register::MM0, state.reg));
        decoder.op_rm(instruction, 1, register::offset(register::MM0, state.rm));
    }
}

/// `mm/m, mm`.
#[derive(Clone, Copy, Debug, PartialEq, Eq, Structural)]
pub struct OpCodeHandler_Q_P {
    pub has_modrm: bool,
    pub code: u32,
}

impl OpCodeHandler_Q_P {
    /// A handler that yields `code`.
    pub fn new(code: u32) -> (handler: Self)
        ensures
            handler == (Self { has_modrm: true, code }),
    {
        Self { has_modrm: true, code }
    }

    /// Decoder and record as [`Self::decode`] leaves them.
    #[verifier::opaque]
    pub open spec fn spec_decode(&self, d: Decoder, i: Instruction) -> Decoded {
        let state = d.state;
        Decoded::at(d, i)
            .code(self.code)
            .op_rm(0, register::offset(register::MM0, state.rm))
            .op_register(1, register::offset(register::MM0, state.reg))
    }

    /// Decodes the operands of the instruction into `instruction`.
    pub fn decode(&self, decoder: &mut Decoder, instruction: &mut Instruction)
        requires
            old(decoder).wf(),
            old(decoder).state.encoding == EncodingKind::Legacy,
        ensures
            *final(decoder) == self.spec_decode(*old(decoder), *old(instruction)).decoder,
            *final(instruction) == self.spec_decode(
                *old(decoder),
                *old(instruction),
            ).instruction,
            final(decoder).wf(),
            final(decoder).frame() == old(decoder).frame(),
    {
        reveal(OpCodeHandler_Q_P::spec_decode);
        let state: State = decoder.state;
        instruction.set_code(self.code);
        decoder.op_rm(instruction, 0, register::offset(register::MM0, state.rm));
        instruction.set_op1_register(register::offset(register::MM0, state.reg));
    }
}

/// `m, mm`; the register form is invalid.
#[derive(Clone, Copy, Debug, PartialEq, Eq, Structural)]
pub struct OpCodeHandler_MP {
    pub has_modrm: bool,
    pub code: u32,
}

impl OpCodeHandler_MP {
    /// A handler that yields `code`.
    pub fn new(code: u32) -> (handler: Self)
        ensures
            handler == (Self { has_modrm: true, code }),
    {
        Self { has_modrm: true, code }
    }

    /// Decoder and record as [`Self::decode`] leaves them.
    #[verifier::opaque]
    pub open spec fn spec_decode(&self, d: Decoder, i: Instruction) -> Decoded {
        let state = d.state;
        Decoded::at(d, i)
            .code(self.code)
            .op_mem(0)
            .op_register(1, register::offset(register::MM0, state.reg))
    }

    /// Decodes the operands of the instruction into `instruction`.
    pub fn decode(&self, decoder: &mut Decoder, instruction: &mut Instruction)
        requires
            old(decoder).wf(),
            old(decoder).state.encoding == EncodingKind::Legacy,
        ensures
            *final(decoder) == self.spec_decode(*old(decoder), *old(instruction)).decoder,
            *final(instruction) == self.spec_decode(
                *old(decoder),
                *old(instruction),
            ).instruction,
            final(decoder).wf(),
            final(decoder).frame() == old(decoder).frame(),
    {
        reveal(OpCodeHandler_MP::spec_decode);
        let state: State = decoder.state;
        instruction.set_code(self.code);
        decoder.op_mem(instruction, 0);
        instruction.set_op1_register(register::offset(register::MM0, state.reg));
    }
}

/// `mm, mm/m, imm8`.
#[derive(Clone, Copy, Debug, PartialEq, Eq, Structural)]
pub struct OpCodeHandler_P_Q_Ib {
    pub has_modrm: bool,
    pub code: u32,
}

impl OpCodeHandler_P_Q_Ib {
    /// A handler that yields `code`.
    pub fn new(code: u32) -> (handler: Self)
        ensures
            handler == (Self { has_modrm: true, code }),
    {
        Self { has_modrm: true, code }
    }

    /// Decoder and record as [`Self::decode`] leaves them.
    #[verifier::opaque]
    pub open spec fn spec_decode(&self, d: Decoder, i: Instruction) -> Decoded {
        let state = d.state;
        Decoded::at(d, i)
            .code(self.code)
            .op_register(0, register::offset(register::MM0, state.reg))
            .op_rm(1, register::offset(register::MM0, state.rm))
            .imm8(2, OpKind::Immediate8)
    }

    /// Decodes the operands of the instruction into `instruction`.
    pub fn decode(&self, decoder: &mut Decoder, instruction: &mut Instruction)
        requires
            old(decoder).wf(),
            old(decoder).state.encoding == EncodingKind::Legacy,
        ensures
            *final(decoder) == self.spec_decode(*old(decoder), *old(instruction)).decoder,
            *final(instruction) == self.spec_decode(
                *old(decoder),
                *old(instruction),
            ).instruction,
            final(decoder).wf(),
            final(decoder).frame() == old(decoder).frame(),
    {
        reveal(OpCodeHandler_P_Q_Ib::spec_decode);
        let state: State = decoder.state;
        instruction.set_code(self.code);
        instruction.set_op0_register(register::offset(register::MM0, state.reg));
        decoder.op_rm(instruction, 1, register::offset(register::MM0, state.rm));
        decoder.op_imm8(instruction, 2, OpKind::Immediate8);
    }
}

/// `mm, v/m`.
#[derive(Clone, Copy, Debug, PartialEq, Eq, Structural)]
pub struct OpCodeHandler_P_W {
    pub has_modrm: bool,
    pub base_reg: u32,
    pub code: u32,
}

impl OpCodeHandler_P_W {
    /// A handler that yields `code` with the second operand in the class that starts at `base_reg`.
    pub fn new(base_reg: u32, code: u32) -> (handler: Self)
        ensures
            handler == (Self { has_modrm: true, base_reg, code }),
    {
        Self { has_modrm: true, base_reg, code }
    }

    /// The handler's registers are register numbers.
    pub open spec fn wf(&self) -> bool {
        self.base_reg < register::COUNT
    }

    /// Whether the handler is well-formed.
    #[verifier::when_used_as_spec(wf)]
    pub fn is_wf(&self) -> (b: bool)
        ensures
            b == self.wf(),
    {
        self.base_reg < register::COUNT
    }

    /// Decoder and record as [`Self::decode`] leaves them.
    #[verifier::opaque]
    pub open spec fn spec_decode(&self, d: Decoder, i: Instruction) -> Decoded {
        let state = d.state;
        Decoded::at(d, i)
            .code(self.code)
            .op_register(0, register::offset(register::MM0, state.reg))
            .op_rm(1, state.rm_register(self.base_reg))
    }

    /// Decodes the operands of the instruction into `instruction`.
    pub fn decode(&self, decoder: &mut Decoder, instruction: &mut Instruction)
        requires
            old(decoder).wf(),
            self.wf(),
            old(decoder).state.encoding == EncodingKind::Legacy,
        ensures
            *final(decoder) == self.spec_decode(*old(decoder), *old(instruction)).decoder,
            *final(instruction) == self.spec_decode(
                *old(decoder),
                *old(instruction),
            ).instruction,
            final(decoder).wf(),
            final(decoder).frame() == old(decoder).frame(),
    {
        reveal(OpCodeHandler_P_W::spec_decode);
        let state: State = decoder.state;
        instruction.set_code(self.code);
        instruction.set_op0_register(register::offset(register::MM0, state.reg));
        decoder.op_rm(instruction, 1, state.rm_register(self.base_reg));
    }
}

/// `mm, v`; the memory form is invalid.
#[derive(Clone, Copy, Debug, PartialEq, Eq, Structural)]
pub struct OpCodeHandler_P_R {
    pub has_modrm: bool,
    pub base_reg: u32,
    pub code: u32,
}

impl OpCodeHandler_P_R {
    /// A handler that yields `code` with the second operand in the class that starts at `base_reg`.
    pub fn new(base_reg: u32, code: u32) -> (handler: Self)
        ensures
            handler == (Self { has_modrm: true, base_reg, code }),
    {
        Self { has_modrm: true, base_reg, code }
    }

    /// The handler's registers are register numbers.
    pub open spec fn wf(&self) -> bool {
        self.base_reg < register::COUNT
    }

    /// Whether the handler is well-formed.
    #[verifier::when_used_as_spec(wf)]
    pub fn is_wf(&self) -> (b: bool)
        ensures
            b == self.wf(),
    {
        self.base_reg < register::COUNT
    }

    /// Decoder and record as [`Self::decode`] leaves them.
    #[verifier::opaque]
    pub open spec fn spec_decode(&self, d: Decoder, i: Instruction) -> Decoded {
        let state = d.state;
        Decoded::at(d, i)
            .code(self.code)
            .op_register(0, register::offset(register::MM0, state.reg))
            .op_reg(1, state.rm_register(self.base_reg))
    }

    /// Decodes the operands of the instruction into `instruction`.
    pub fn decode(&self, decoder: &mut Decoder, instruction: &mut Instruction)
        requires
            old(decoder).wf(),
            self.wf(),
            old(decoder).state.encoding == EncodingKind::Legacy,
        ensures
            *final(decoder) == self.spec_decode(*old(decoder), *old(instruction)).decoder,
            *final(instruction) == self.spec_decode(
                *old(decoder),
                *old(instruction),
            ).instruction,
            final(decoder).wf(),
            final(decoder).frame() == old(decoder).frame(),
    {
        reveal(OpCodeHandler_P_R::spec_decode);
        let state: State = decoder.state;
        instruction.set_code(self.code);
        instruction.set_op0_register(register::offset(register::MM0, state.reg));
        decoder.op_reg(instruction, 1, state.rm_register(self.base_reg));
    }
}

/// `mm, r/m`, the second operand 64 bits wide under W, else 32.
#[derive(Clone, Copy, Debug, PartialEq, Eq, Structural)]
pub struct OpCodeHandler_P_Ev {
    pub has_modrm: bool,
    pub code32: u32,
    pub code64: u32,
}

impl OpCodeHandler_P_Ev {
    /// A handler that yields `code64` under W, else `code32`.
    pub fn new(code32: u32, code64: u32) -> (handler: Self)
        ensures
            handler == (Self { has_modrm: true, code32, code64 }),
    {
        Self { has_modrm: true, code32, code64 }
    }

    /// Decoder and record as [`Self::decode`] leaves them.
    #[verifier::opaque]
    pub open spec fn spec_decode(&self, d: Decoder, i: Instruction) -> Decoded {
        let state = d.state;
        Decoded::at(d, i)
            .code(if state.flags.w { self.code64 } else { self.code32 })
            .op_register(0, register::offset(register::MM0, state.reg))
            .op_rm(1, state.rm_register(register::gpr32_or_64(state.flags.w)))
    }

    /// Decodes the operands of the instruction into `instruction`.
    pub fn decode(&self, decoder: &mut Decoder, instruction: &mut Instruction)
        requires
            old(decoder).wf(),
            old(decoder).state.encoding == EncodingKind::Legacy,
        ensures
            *final(decoder) == self.spec_decode(*old(decoder), *old(instruction)).decoder,
            *final(instruction) == self.spec_decode(
                *old(decoder),
                *old(instruction),
            ).instruction,
            final(decoder).wf(),
            final(decoder).frame() == old(decoder).frame(),
    {
        reveal(OpCodeHandler_P_Ev::spec_decode);
        let state: State = decoder.state;
        instruction.set_code(if state.flags.w { self.code64 } else { self.code32 });
        instruction.set_op0_register(register::offset(register::MM0, state.reg));
        decoder.op_rm(instruction, 1, state.rm_register(register::gpr32_or_64(state.flags.w)));
    }
}

/// `mm, r/m, imm8`, the second operand 64 bits wide under W, else 32.
#[derive(Clone, Copy, Debug, PartialEq, Eq, Structural)]
pub struct OpCodeHandler_P_Ev_Ib {
    pub has_modrm: bool,
    pub code32: u32,
    pub code64: u32,
}

impl OpCodeHandler_P_Ev_Ib {
    /// A handler that yields `code64` under W, else `code32`.
    pub fn new(code32: u32, code64: u32) -> (handler: Self)
        ensures
            handler == (Self { has_modrm: true, code32, code64 }),
    {
        Self { has_modrm: true, code32, code64 }
    }

    /// Decoder and record as [`Self::decode`] leaves them.
    #[verifier::opaque]
    pub open spec fn spec_decode(&self, d: Decoder, i: Instruction) -> Decoded {
        let state = d.state;
        Decoded::at(d, i)
            .code(if state.flags.w { self.code64 } else { self.code32 })
            .op_register(0, register::offset(register::MM0, state.reg))
            .op_rm(1, state.rm_register(register::gpr32_or_64(state.flags.w)))
            .imm8(2, OpKind::Immediate8)
    }

    /// Decodes the operands of the instruction into `instruction`.
    pub fn decode(&self, decoder: &mut Decoder, instruction: &mut Instruction)
        requires
            old(decoder).wf(),
            old(decoder).state.encoding == EncodingKind::Legacy,
        ensures
            *final(decoder) == self.spec_decode(*old(decoder), *old(instruction)).decoder,
            *final(instruction) == self.spec_decode(
                *old(decoder),
                *old(instruction),
            ).instruction,
            final(decoder).wf(),
            final(decoder).frame() == old(decoder).frame(),
    {
        reveal(OpCodeHandler_P_Ev_Ib::spec_decode);
        let state: State = decoder.state;
        instruction.set_code(if state.flags.w { self.code64 } else { self.code32 });
        instruction.set_op0_register(register::offset(register::MM0, state.reg));
        decoder.op_rm(instruction, 1, state.rm_register(register::gpr32_or_64(state.flags.w)));
        decoder.op_imm8(instruction, 2, OpKind::Immediate8);
    }
}

/// `r/m, mm`, the first operand 64 bits wide under W, else 32.
#[derive(Clone, Copy, Debug, PartialEq, Eq, Structural)]
pub struct OpCodeHandler_Ev_P {
    pub has_modrm: bool,
    pub code32: u32,
    pub code64: u32,
}

impl OpCodeHandler_Ev_P {
    /// A handler that yields `code64` under W, else `code32`.
    pub fn new(code32: u32, code64: u32) -> (handler: Self)
        ensures
            handler == (Self { has_modrm: true, code32, code64 }),
    {
        Self { has_modrm: true, code32, code64 }
    }

    /// Decoder and record as [`Self::decode`] leaves them.
    #[verifier::opaque]
    pub open spec fn spec_decode(&self, d: Decoder, i: Instruction) -> Decoded {
        let state = d.state;
        Decoded::at(d, i)
            .code(if state.flags.w { self.code64 } else { self.code32 })
            .op_rm(0, state.rm_register(register::gpr32_or_64(state.flags.w)))
            .op_register(1, register::offset(register::MM0, state.reg))
    }

    /// Decodes the operands of the instruction into `instruction`.
    pub fn decode(&self, decoder: &mut Decoder, instruction: &mut Instruction)
        requires
            old(decoder).wf(),
            old(decoder).state.encoding == EncodingKind::Legacy,
        ensures
            *final(decoder) == self.spec_decode(*old(decoder), *old(instruction)).decoder,
            *final(instruction) == self.spec_decode(
                *old(decoder),
                *old(instruction),
            ).instruction,
            final(decoder).wf(),
            final(decoder).frame() == old(decoder).frame(),
    {
        reveal(OpCodeHandler_Ev_P::spec_decode);
        let state: State = decoder.state;
        instruction.set_code(if state.flags.w { self.code64 } else { self.code32 });
        decoder.op_rm(instruction, 0, state.rm_register(register::gpr32_or_64(state.flags.w)));
        instruction.set_op1_register(register::offset(register::MM0, state.reg));
    }
}

/// `r, v/m`, the first operand 64 bits wide under W, else 32.
#[derive(Clone, Copy, Debug, PartialEq, Eq, Structural)]
pub struct OpCodeHandler_Gv_W {
    pub has_modrm: bool,
    pub base_reg: u32,
    pub code_w0: u32,
    pub code_w1: u32,
}

impl OpCodeHandler_Gv_W {
    /// A handler that yields `code_w1` under W, else `code_w0`.
    pub fn new(base_reg: u32, code_w0: u32, code_w1: u32) -> (handler: Self)
        ensures
            handler == (Self { has_modrm: true, base_reg, code_w0, code_w1 }),
    {
        Self { has_modrm: true, base_reg, code_w0, code_w1 }
    }

    /// The handler's registers are register numbers.
    pub open spec fn wf(&self) -> bool {
        self.base_reg < register::COUNT
    }

    /// Whether the handler is well-formed.
    #[verifier::when_used_as_spec(wf)]
    pub fn is_wf(&self) -> (b: bool)
        ensures
            b == self.wf(),
    {
        self.base_reg < register::COUNT
    }

    /// Decoder and record as [`Self::decode`] leaves them.
    #[verifier::opaque]
    pub open spec fn spec_decode(&self, d: Decoder, i: Instruction) -> Decoded {
        let state = d.state;
        Decoded::at(d, i)
            .code(if state.flags.w { self.code_w1 } else { self.code_w0 })
            .op_register(0, state.reg_register(register::gpr32_or_64(state.flags.w)))
            .op_rm(1, state.rm_register(self.base_reg))
    }

    /// Decodes the operands of the instruction into `instruction`.
    pub fn decode(&self, decoder: &mut Decoder, instruction: &mut Instruction)
        requires
            old(decoder).wf(),
            self.wf(),
            old(decoder).state.encoding == EncodingKind::Legacy,
        ensures
            *final(decoder) == self.spec_decode(*old(decoder), *old(instruction)).decoder,
            *final(instruction) == self.spec_decode(
                *old(decoder),
                *old(instruction),
            ).instruction,
            final(decoder).wf(),
            final(decoder).frame() == old(decoder).frame(),
    {
        reveal(OpCodeHandler_Gv_W::spec_decode);
        let state: State = decoder.state;
        instruction.set_code(if state.flags.w { self.code_w1 } else { self.code_w0 });
        instruction.set_op0_register(state.reg_register(register::gpr32_or_64(state.flags.w)));
        decoder.op_rm(instruction, 1, state.rm_register(self.base_reg));
    }
}

/// `v, r/m`, the second operand 64 bits wide for 64-bit operands, else 32.
#[derive(Clone, Copy, Debug, PartialEq, Eq, Structural)]
pub struct OpCodeHandler_V_Ev {
    pub has_modrm: bool,
    pub base_reg: u32,
    pub code_w0: u32,
    pub code_w1: u32,
}

impl OpCodeHandler_V_Ev {
    /// A handler that yields `code_w1` for 64-bit operands, else `code_w0`.
    pub fn new(base_reg: u32, code_w0: u32, code_w1: u32) -> (handler: Self)
        ensures
            handler == (Self { has_modrm: true, base_reg, code_w0, code_w1 }),
    {
        Self { has_modrm: true, base_reg, code_w0, code_w1 }
    }

    /// The handler's registers are register numbers.
    pub open spec fn wf(&self) -> bool {
        self.base_reg < register::COUNT
    }

    /// Whether the handler is well-formed.
    #[verifier::when_used_as_spec(wf)]
    pub fn is_wf(&self) -> (b: bool)
        ensures
            b == self.wf(),
    {
        self.base_reg < register::COUNT
    }

    /// Decoder and record as [`Self::decode`] leaves them.
    #[verifier::opaque]
    pub open spec fn spec_decode(&self, d: Decoder, i: Instruction) -> Decoded {
        let state = d.state;
        Decoded::at(d, i)
            .code(if state.operand_size != OpSize::Size64 { self.code_w0 } else { self.code_w1 })
            .op_register(0, state.reg_register(self.base_reg))
            .op_rm(
                1,
                state.rm_register(register::gpr32_or_64(state.operand_size == OpSize::Size64)),
            )
    }

    /// Decodes the operands of the instruction into `instruction`.
    pub fn decode(&self, decoder: &mut Decoder, instruction: &mut Instruction)
        requires
            old(decoder).wf(),
            self.wf(),
            old(decoder).state.encoding == EncodingKind::Legacy,
        ensures
            *final(decoder) == self.spec_decode(*old(decoder), *old(instruction)).decoder,
            *final(instruction) == self.spec_decode(
                *old(decoder),
                *old(instruction),
            ).instruction,
            final(decoder).wf(),
            final(decoder).frame() == old(decoder).frame(),
    {
        reveal(OpCodeHandler_V_Ev::spec_decode);
        let state: State = decoder.state;
        instruction.set_code(
            if state.operand_size != OpSize::Size64 { self.code_w0 } else { self.code_w1 },
        );
        instruction.set_op0_register(state.reg_register(self.base_reg));
        decoder.op_rm(
            instruction,
            1,
            state.rm_register(register::gpr32_or_64(state.operand_size == OpSize::Size64)),
        );
    }
}

/// `v, v/m, imm8`.  The code may go by the W bit.
#[derive(Clone, Copy, Debug, PartialEq, Eq, Structural)]
pub struct OpCodeHandler_VWIb {
    pub has_modrm: bool,
    pub base_reg: u32,
    pub code_w0: u32,
    pub code_w1: u32,
}

impl OpCodeHandler_VWIb {
    /// A handler that yields `code` in the class that starts at `base_reg`.
    pub fn new(base_reg: u32, code: u32) -> (handler: Self)
        ensures
            handler == (Self { has_modrm: true, base_reg, code_w0: code, code_w1: code }),
    {
        Self { has_modrm: true, base_reg, code_w0: code, code_w1: code }
    }

    /// A handler that yields `code_w1` under W, else `code_w0`.
    pub fn new1(base_reg: u32, code_w0: u32, code_w1: u32) -> (handler: Self)
        ensures
            handler == (Self { has_modrm: true, base_reg, code_w0, code_w1 }),
    {
        Self { has_modrm: true, base_reg, code_w0, code_w1 }
    }

    /// The handler's registers are register numbers.
    pub open spec fn wf(&self) -> bool {
        self.base_reg < register::COUNT
    }

    /// Whether the handler is well-formed.
    #[verifier::when_used_as_spec(wf)]
    pub fn is_wf(&self) -> (b: bool)
        ensures
            b == self.wf(),
    {
        self.base_reg < register::COUNT
    }

    /// Decoder and record as [`Self::decode`] leaves them.
    #[verifier::opaque]
    pub open spec fn spec_decode(&self, d: Decoder, i: Instruction) -> Decoded {
        let state = d.state;
        Decoded::at(d, i)
            .code(if state.flags.w { self.code_w1 } else { self.code_w0 })
            .op_register(0, state.reg_register(self.base_reg))
            .op_rm(1, state.rm_register(self.base_reg))
            .imm8(2, OpKind::Immediate8)
    }

    /// Decodes the operands of the instruction into `instruction`.
    pub fn decode(&self, decoder: &mut Decoder, instruction: &mut Instruction)
        requires
            old(decoder).wf(),
            self.wf(),
            old(decoder).state.encoding == EncodingKind::Legacy,
        ensures
            *final(decoder) == self.spec_decode(*old(decoder), *old(instruction)).decoder,
            *final(instruction) == self.spec_decode(
                *old(decoder),
                *old(instruction),
            ).instruction,
            final(decoder).wf(),
            final(decoder).frame() == old(decoder).frame(),
    {
        reveal(OpCodeHandler_VWIb::spec_decode);
        let state: State = decoder.state;
        instruction.set_code(if state.flags.w { self.code_w1 } else { self.code_w0 });
        instruction.set_op0_register(state.reg_register(self.base_reg));
        decoder.op_rm(instruction, 1, state.rm_register(self.base_reg));
        decoder.op_imm8(instruction, 2, OpKind::Immediate8);
    }
}

/// `v, v, imm8, imm8`; the memory form is invalid.
#[derive(Clone, Copy, Debug, PartialEq, Eq, Structural)]
pub struct OpCodeHandler_VRIbIb {
    pub has_modrm: bool,
    pub base_reg: u32,
    pub code: u32,
}

impl OpCodeHandler_VRIbIb {
    /// A handler that yields `code` in the class that starts at `base_reg`.
    pub fn new(base_reg: u32, code: u32) -> (handler: Self)
        ensures
            handler == (Self { has_modrm: true, base_reg, code }),
    {
        Self { has_modrm: true, base_reg, code }
    }

    /// The handler's registers are register numbers.
    pub open spec fn wf(&self) -> bool {
        self.base_reg < register::COUNT
    }

    /// Whether the handler is well-formed.
    #[verifier::when_used_as_spec(wf)]
    pub fn is_wf(&self) -> (b: bool)
        ensures
            b == self.wf(),
    {
        self.base_reg < register::COUNT
    }

    /// Decoder and record as [`Self::decode`] leaves them.
    #[verifier::opaque]
    pub open spec fn spec_decode(&self, d: Decoder, i: Instruction) -> Decoded {
        let state = d.state;
        Decoded::at(d, i)
            .code(self.code)
            .op_register(0, state.reg_register(self.base_reg))
            .op_reg(1, state.rm_register(self.base_reg))
            .imm8(2, OpKind::Immediate8)
            .imm8_2nd(3)
    }

    /// Decodes the operands of the instruction into `instruction`.
    pub fn decode(&self, decoder: &mut Decoder, instruction: &mut Instruction)
        requires
            old(decoder).wf(),
            self.wf(),
            old(decoder).state.encoding == EncodingKind::Legacy,
        ensures
            *final(decoder) == self.spec_decode(*old(decoder), *old(instruction)).decoder,
            *final(instruction) == self.spec_decode(
                *old(decoder),
                *old(instruction),
            ).instruction,
            final(decoder).wf(),
            final(decoder).frame() == old(decoder).frame(),
    {
        reveal(OpCodeHandler_VRIbIb::spec_decode);
        let state: State = decoder.state;
        instruction.set_code(self.code);
        instruction.set_op0_register(state.reg_register(self.base_reg));
        decoder.op_reg(instruction, 1, state.rm_register(self.base_reg));
        decoder.op_imm8(instruction, 2, OpKind::Immediate8);
        decoder.op_imm8_2nd(instruction, 3);
    }
}

/// `v, imm8, imm8`; the memory form is invalid.
#[derive(Clone, Copy, Debug, PartialEq, Eq, Structural)]
pub struct OpCodeHandler_RIbIb {
    pub has_modrm: bool,
    pub base_reg: u32,
    pub code: u32,
}

impl OpCodeHandler_RIbIb {
    /// A handler that yields `code` in the class that starts at `base_reg`.
    pub fn new(base_reg: u32, code: u32) -> (handler: Self)
        ensures
            handler == (Self { has_modrm: true, base_reg, code }),
    {
        Self { has_modrm: true, base_reg, code }
    }

    /// The handler's registers are register numbers.
    pub open spec fn wf(&self) -> bool {
        self.base_reg < register::COUNT
    }

    /// Whether the handler is well-formed.
    #[verifier::when_used_as_spec(wf)]
    pub fn is_wf(&self) -> (b: bool)
        ensures
            b == self.wf(),
    {
        self.base_reg < register::COUNT
    }

    /// Decoder and record as [`Self::decode`] leaves them.
    #[verifier::opaque]
    pub open spec fn spec_decode(&self, d: Decoder, i: Instruction) -> Decoded {
        let state = d.state;
        Decoded::at(d, i)
            .code(self.code)
            .op_reg(0, state.rm_register(self.base_reg))
            .imm8(1, OpKind::Immediate8)
            .imm8_2nd(2)
    }

    /// Decodes the operands of the instruction into `instruction`.
    pub fn decode(&self, decoder: &mut Decoder, instruction: &mut Instruction)
        requires
            old(decoder).wf(),
            self.wf(),
            old(decoder).state.encoding == EncodingKind::Legacy,
        ensures
            *final(decoder) == self.spec_decode(*old(decoder), *old(instruction)).decoder,
            *final(instruction) == self.spec_decode(
                *old(decoder),
                *old(instruction),
            ).instruction,
            final(decoder).wf(),
            final(decoder).frame() == old(decoder).frame(),
    {
        reveal(OpCodeHandler_RIbIb::spec_decode);
        let state: State = decoder.state;
        instruction.set_code(self.code);
        decoder.op_reg(instruction, 0, state.rm_register(self.base_reg));
        decoder.op_imm8(instruction, 1, OpKind::Immediate8);
        decoder.op_imm8_2nd(instruction, 2);
    }
}

/// `v, imm8`; the memory form is invalid.
#[derive(Clone, Copy, Debug, PartialEq, Eq, Structural)]
pub struct OpCodeHandler_RIb {
    pub has_modrm: bool,
    pub base_reg: u32,
    pub code: u32,
}

impl OpCodeHandler_RIb {
    /// A handler that yields `code` in the class that starts at `base_reg`.
    pub fn new(base_reg: u32, code: u32) -> (handler: Self)
        ensures
            handler == (Self { has_modrm: true, base_reg, code }),
    {
        Self { has_modrm: true, base_reg, code }
    }

    /// The handler's registers are register numbers.
    pub open spec fn wf(&self) -> bool {
        self.base_reg < register::COUNT
    }

    /// Whether the handler is well-formed.
    #[verifier::when_used_as_spec(wf)]
    pub fn is_wf(&self) -> (b: bool)
        ensures
            b == self.wf(),
    {
        self.base_reg < register::COUNT
    }

    /// Decoder and record as [`Self::decode`] leaves them.
    #[verifier::opaque]
    pub open spec fn spec_decode(&self, d: Decoder, i: Instruction) -> Decoded {
        let state = d.state;
        Decoded::at(d, i)
            .code(self.code)
            .op_reg(0, state.rm_register(self.base_reg))
            .imm8(1, OpKind::Immediate8)
    }

    /// Decodes the operands of the instruction into `instruction`.
    pub fn decode(&self, decoder: &mut Decoder, instruction: &mut Instruction)
        requires
            old(decoder).wf(),
            self.wf(),
            old(decoder).state.encoding == EncodingKind::Legacy,
        ensures
            *final(decoder) == self.spec_decode(*old(decoder), *old(instruction)).decoder,
            *final(instruction) == self.spec_decode(
                *old(decoder),
                *old(instruction),
            ).instruction,
            final(decoder).wf(),
            final(decoder).frame() == old(decoder).frame(),
    {
        reveal(OpCodeHandler_RIb::spec_decode);
        let state: State = decoder.state;
        instruction.set_code(self.code);
        decoder.op_reg(instruction, 0, state.rm_register(self.base_reg));
        decoder.op_imm8(instruction, 1, OpKind::Immediate8);
    }
}

/// `r/m, v, imm8`, the first operand 64 bits wide under W, else 32.
#[derive(Clone, Copy, Debug, PartialEq, Eq, Structural)]
pub struct OpCodeHandler_Ed_V_Ib {
    pub has_modrm: bool,
    pub base_reg: u32,
    pub code32: u32,
    pub code64: u32,
}

impl OpCodeHandler_Ed_V_Ib {
    /// A handler that yields `code64` under W, else `code32`.
    pub fn new(base_reg: u32, code32: u32, code64: u32) -> (handler: Self)
        ensures
            handler == (Self { has_modrm: true, base_reg, code32, code64 }),
    {
        Self { has_modrm: true, base_reg, code32, code64 }
    }

    /// The handler's registers are register numbers.
    pub open spec fn wf(&self) -> bool {
        self.base_reg < register::COUNT
    }

    /// Whether the handler is well-formed.
    #[verifier::when_used_as_spec(wf)]
    pub fn is_wf(&self) -> (b: bool)
        ensures
            b == self.wf(),
    {
        self.base_reg < register::COUNT
    }

    /// Decoder and record as [`Self::decode`] leaves them.
    #[verifier::opaque]
    pub open spec fn spec_decode(&self, d: Decoder, i: Instruction) -> Decoded {
        let state = d.state;
        Decoded::at(d, i)
            .code(if state.flags.w { self.code64 } else { self.code32 })
            .op_rm(0, state.rm_register(register::gpr32_or_64(state.flags.w)))
            .op_register(1, state.reg_register(self.base_reg))
            .imm8(2, OpKind::Immediate8)
    }

    /// Decodes the operands of the instruction into `instruction`.
    pub fn decode(&self, decoder: &mut Decoder, instruction: &mut Instruction)
        requires
            old(decoder).wf(),
            self.wf(),
            old(decoder).state.encoding == EncodingKind::Legacy,
        ensures
            *final(decoder) == self.spec_decode(*old(decoder), *old(instruction)).decoder,
            *final(instruction) == self.spec_decode(
                *old(decoder),
                *old(instruction),
            ).instruction,
            final(decoder).wf(),
            final(decoder).frame() == old(decoder).frame(),
    {
        reveal(OpCodeHandler_Ed_V_Ib::spec_decode);
        let state: State = decoder.state;
        instruction.set_code(if state.flags.w { self.code64 } else { self.code32 });
        decoder.op_rm(instruction, 0, state.rm_register(register::gpr32_or_64(state.flags.w)));
        instruction.set_op1_register(state.reg_register(self.base_reg));
        decoder.op_imm8(instruction, 2, OpKind::Immediate8);
    }
}

/// `xmm, r/m`, the second operand 64 bits wide under W, else 32.
#[derive(Clone, Copy, Debug, PartialEq, Eq, Structural)]
pub struct OpCodeHandler_VX_Ev {
    pub has_modrm: bool,
    pub code32: u32,
    pub code64: u32,
}

impl OpCodeHandler_VX_Ev {
    /// A handler that yields `code64` under W, else `code32`.
    pub fn new(code32: u32, code64: u32) -> (handler: Self)
        ensures
            handler == (Self { has_modrm: true, code32, code64 }),
    {
        Self { has_modrm: true, code32, code64 }
    }

    /// Decoder and record as [`Self::decode`] leaves them.
    #[verifier::opaque]
    pub open spec fn spec_decode(&self, d: Decoder, i: Instruction) -> Decoded {
        let state = d.state;
        Decoded::at(d, i)
            .code(if state.flags.w { self.code64 } else { self.code32 })
            .op_register(0, state.reg_register(register::XMM0))
            .op_rm(1, state.rm_register(register::gpr32_or_64(state.flags.w)))
    }

    /// Decodes the operands of the instruction into `instruction`.
    pub fn decode(&self, decoder: &mut Decoder, instruction: &mut Instruction)
        requires
            old(decoder).wf(),
            old(decoder).state.encoding == EncodingKind::Legacy,
        ensures
            *final(decoder) == self.spec_decode(*old(decoder), *old(instruction)).decoder,
            *final(instruction) == self.spec_decode(
                *old(decoder),
                *old(instruction),
            ).instruction,
            final(decoder).wf(),
            final(decoder).frame() == old(decoder).frame(),
    {
        reveal(OpCodeHandler_VX_Ev::spec_decode);
        let state: State = decoder.state;
        instruction.set_code(if state.flags.w { self.code64 } else { self.code32 });
        instruction.set_op0_register(state.reg_register(register::XMM0));
        decoder.op_rm(instruction, 1, state.rm_register(register::gpr32_or_64(state.flags.w)));
    }
}

/// `r/m, xmm`, the first operand 64 bits wide under W, else 32.
#[derive(Clone, Copy, Debug, PartialEq, Eq, Structural)]
pub struct OpCodeHandler_Ev_VX {
    pub has_modrm: bool,
    pub code32: u32,
    pub code64: u32,
}

impl OpCodeHandler_Ev_VX {
    /// A handler that yields `code64` under W, else `code32`.
    pub fn new(code32: u32, code64: u32) -> (handler: Self)
        ensures
            handler == (Self { has_modrm: true, code32, code64 }),
    {
        Self { has_modrm: true, code32, code64 }
    }

    /// Decoder and record as [`Self::decode`] leaves them.
    #[verifier::opaque]
    pub open spec fn spec_decode(&self, d: Decoder, i: Instruction) -> Decoded {
        let state = d.state;
        Decoded::at(d, i)
            .code(if state.flags.w { self.code64 } else { self.code32 })
            .op_rm(0, state.rm_register(register::gpr32_or_64(state.flags.w)))
            .op_register(1, state.reg_register(register::XMM0))
    }

    /// Decodes the operands of the instruction into `instruction`.
    pub fn decode(&self, decoder: &mut Decoder, instruction: &mut Instruction)
        requires
            old(decoder).wf(),
            old(decoder).state.encoding == EncodingKind::Legacy,
        ensures
            *final(decoder) == self.spec_decode(*old(decoder), *old(instruction)).decoder,
            *final(instruction) == self.spec_decode(
                *old(decoder),
                *old(instruction),
            ).instruction,
            final(decoder).wf(),
            final(decoder).frame() == old(decoder).frame(),
    {
        reveal(OpCodeHandler_Ev_VX::spec_decode);
        let state: State = decoder.state;
        instruction.set_code(if state.flags.w { self.code64 } else { self.code32 });
        decoder.op_rm(instruction, 0, state.rm_register(register::gpr32_or_64(state.flags.w)));
        instruction.set_op1_register(state.reg_register(register::XMM0));
    }
}

/// `v, r/m, imm8`, the second operand 64 bits wide under W, else 32.
#[derive(Clone, Copy, Debug, PartialEq, Eq, Structural)]
pub struct OpCodeHandler_VX_E_Ib {
    pub has_modrm: bool,
    pub base_reg: u32,
    pub code32: u32,
    pub code64: u32,
}

impl OpCodeHandler_VX_E_Ib {
    /// A handler that yields `code64` under W, else `code32`.
    pub fn new(base_reg: u32, code32: u32, code64: u32) -> (handler: Self)
        ensures
            handler == (Self { has_modrm: true, base_reg, code32, code64 }),
    {
        Self { has_modrm: true, base_reg, code32, code64 }
    }

    /// The handler's registers are register numbers.
    pub open spec fn wf(&self) -> bool {
        self.base_reg < register::COUNT
    }

    /// Whether the handler is well-formed.
    #[verifier::when_used_as_spec(wf)]
    pub fn is_wf(&self) -> (b: bool)
        ensures
            b == self.wf(),
    {
        self.base_reg < register::COUNT
    }

    /// Decoder and record as [`Self::decode`] leaves them.
    #[verifier::opaque]
    pub open spec fn spec_decode(&self, d: Decoder, i: Instruction) -> Decoded {
        let state = d.state;
        Decoded::at(d, i)
            .code(if state.flags.w { self.code64 } else { self.code32 })
            .op_register(0, state.reg_register(self.base_reg))
            .op_rm(1, state.rm_register(register::gpr32_or_64(state.flags.w)))
            .imm8(2, OpKind::Immediate8)
    }

    /// Decodes the operands of the instruction into `instruction`.
    pub fn decode(&self, decoder: &mut Decoder, instruction: &mut Instruction)
        requires
            old(decoder).wf(),
            self.wf(),
            old(decoder).state.encoding == EncodingKind::Legacy,
        ensures
            *final(decoder) == self.spec_decode(*old(decoder), *old(instruction)).decoder,
            *final(instruction) == self.spec_decode(
                *old(decoder),
                *old(instruction),
            ).instruction,
            final(decoder).wf(),
            final(decoder).frame() == old(decoder).frame(),
    {
        reveal(OpCodeHandler_VX_E_Ib::spec_decode);
        let state: State = decoder.state;
        instruction.set_code(if state.flags.w { self.code64 } else { self.code32 });
        instruction.set_op0_register(state.reg_register(self.base_reg));
        decoder.op_rm(instruction, 1, state.rm_register(register::gpr32_or_64(state.flags.w)));
        decoder.op_imm8(instruction, 2, OpKind::Immediate8);
    }
}

/// `r, v`, the first operand 64 bits wide under W, else 32; the memory form is invalid.
#[derive(Clone, Copy, Debug, PartialEq, Eq, Structural)]
pub struct OpCodeHandler_Gv_RX {
    pub has_modrm: bool,
    pub base_reg: u32,
    pub code32: u32,
    pub code64: u32,
}

impl OpCodeHandler_Gv_RX {
    /// A handler that yields `code64` under W, else `code32`.
    pub fn new(base_reg: u32, code32: u32, code64: u32) -> (handler: Self)
        ensures
            handler == (Self { has_modrm: true, base_reg, code32, code64 }),
    {
        Self { has_modrm: true, base_reg, code32, code64 }
    }

    /// The handler's registers are register numbers.
    pub open spec fn wf(&self) -> bool {
        self.base_reg < register::COUNT
    }

    /// Whether the handler is well-formed.
    #[verifier::when_used_as_spec(wf)]
    pub fn is_wf(&self) -> (b: bool)
        ensures
            b == self.wf(),
    {
        self.base_reg < register::COUNT
    }

    /// Decoder and record as [`Self::decode`] leaves them.
    #[verifier::opaque]
    pub open spec fn spec_decode(&self, d: Decoder, i: Instruction) -> Decoded {
        let state = d.state;
        Decoded::at(d, i)
            .code(if state.flags.w { self.code64 } else { self.code32 })
            .op_register(0, state.reg_register(register::gpr32_or_64(state.flags.w)))
            .op_reg(1, state.rm_register(self.base_reg))
    }

    /// Decodes the operands of the instruction into `instruction`.
    pub fn decode(&self, decoder: &mut Decoder, instruction: &mut Instruction)
        requires
            old(decoder).wf(),
            self.wf(),
            old(decoder).state.encoding == EncodingKind::Legacy,
        ensures
            *final(decoder) == self.spec_decode(*old(decoder), *old(instruction)).decoder,
            *final(instruction) == self.spec_decode(
                *old(decoder),
                *old(instruction),
            ).instruction,
            final(decoder).wf(),
            final(decoder).frame() == old(decoder).frame(),
    {
        reveal(OpCodeHandler_Gv_RX::spec_decode);
        let state: State = decoder.state;
        instruction.set_code(if state.flags.w { self.code64 } else { self.code32 });
        instruction.set_op0_register(state.reg_register(register::gpr32_or_64(state.flags.w)));
        decoder.op_reg(instruction, 1, state.rm_register(self.base_reg));
    }
}

/// `r, mm, imm8`, the first operand 64 bits wide under W, else 32; the memory form is invalid.
#[derive(Clone, Copy, Debug, PartialEq, Eq, Structural)]
pub struct OpCodeHandler_Gv_N_Ib_REX {
    pub has_modrm: bool,
    pub code32: u32,
    pub code64: u32,
}

impl OpCodeHandler_Gv_N_Ib_REX {
    /// A handler that yields `code64` under W, else `code32`.
    pub fn new(code32: u32, code64: u32) -> (handler: Self)
        ensures
            handler == (Self { has_modrm: true, code32, code64 }),
    {
        Self { has_modrm: true, code32, code64 }
    }

    /// Decoder and record as [`Self::decode`] leaves them.
    #[verifier::opaque]
    pub open spec fn spec_decode(&self, d: Decoder, i: Instruction) -> Decoded {
        let state = d.state;
        Decoded::at(d, i)
            .code(if state.flags.w { self.code64 } else { self.code32 })
            .op_register(0, state.reg_register(register::gpr32_or_64(state.flags.w)))
            .op_reg(1, register::offset(register::MM0, state.rm))
            .imm8(2, OpKind::Immediate8)
    }

    /// Decodes the operands of the instruction into `instruction`.
    pub fn decode(&self, decoder: &mut Decoder, instruction: &mut Instruction)
        requires
            old(decoder).wf(),
            old(decoder).state.encoding == EncodingKind::Legacy,
        ensures
            *final(decoder) == self.spec_decode(*old(decoder), *old(instruction)).decoder,
            *final(instruction) == self.spec_decode(
                *old(decoder),
                *old(instruction),
            ).instruction,
            final(decoder).wf(),
            final(decoder).frame() == old(decoder).frame(),
    {
        reveal(OpCodeHandler_Gv_N_Ib_REX::spec_decode);
        let state: State = decoder.state;
        instruction.set_code(if state.flags.w { self.code64 } else { self.code32 });
        instruction.set_op0_register(state.reg_register(register::gpr32_or_64(state.flags.w)));
        decoder.op_reg(instruction, 1, register::offset(register::MM0, state.rm));
        decoder.op_imm8(instruction, 2, OpKind::Immediate8);
    }
}

/// `r, mm`, the first operand 64 bits wide under W, else 32; the memory form is invalid.
#[derive(Clone, Copy, Debug, PartialEq, Eq, Structural)]
pub struct OpCodeHandler_Gv_N {
    pub has_modrm: bool,
    pub code32: u32,
    pub code64: u32,
}

impl OpCodeHandler_Gv_N {
    /// A handler that yields `code64` under W, else `code32`.
    pub fn new(code32: u32, code64: u32) -> (handler: Self)
        ensures
            handler == (Self { has_modrm: true, code32, code64 }),
    {
        Self { has_modrm: true, code32, code64 }
    }

    /// Decoder and record as [`Self::decode`] leaves them.
    #[verifier::opaque]
    pub open spec fn spec_decode(&self, d: Decoder, i: Instruction) -> Decoded {
        let state = d.state;
        Decoded::at(d, i)
            .code(if state.flags.w { self.code64 } else { self.code32 })
            .op_register(0, state.reg_register(register::gpr32_or_64(state.flags.w)))
            .op_reg(1, register::offset(register::MM0, state.rm))
    }

    /// Decodes the operands of the instruction into `instruction`.
    pub fn decode(&self, decoder: &mut Decoder, instruction: &mut Instruction)
        requires
            old(decoder).wf(),
            old(decoder).state.encoding == EncodingKind::Legacy,
        ensures
            *final(decoder) == self.spec_decode(*old(decoder), *old(instruction)).decoder,
            *final(instruction) == self.spec_decode(
                *old(decoder),
                *old(instruction),
            ).instruction,
            final(decoder).wf(),
            final(decoder).frame() == old(decoder).frame(),
    {
        reveal(OpCodeHandler_Gv_N::spec_decode);
        let state: State = decoder.state;
        instruction.set_code(if state.flags.w { self.code64 } else { self.code32 });
        instruction.set_op0_register(state.reg_register(register::gpr32_or_64(state.flags.w)));
        decoder.op_reg(instruction, 1, register::offset(register::MM0, state.rm));
    }
}

/// `v, mm`; the memory form is invalid.
#[derive(Clone, Copy, Debug, PartialEq, Eq, Structural)]
pub struct OpCodeHandler_VN {
    pub has_modrm: bool,
    pub base_reg: u32,
    pub code: u32,
}

impl OpCodeHandler_VN {
    /// A handler that yields `code` with the first operand in the class that starts at `base_reg`.
    pub fn new(base_reg: u32, code: u32) -> (handler: Self)
        ensures
            handler == (Self { has_modrm: true, base_reg, code }),
    {
        Self { has_modrm: true, base_reg, code }
    }

    /// The handler's registers are register numbers.
    pub open spec fn wf(&self) -> bool {
        self.base_reg < register::COUNT
    }

    /// Whether the handler is well-formed.
    #[verifier::when_used_as_spec(wf)]
    pub fn is_wf(&self) -> (b: bool)
        ensures
            b == self.wf(),
    {
        self.base_reg < register::COUNT
    }

    /// Decoder and record as [`Self::decode`] leaves them.
    #[verifier::opaque]
    pub open spec fn spec_decode(&self, d: Decoder, i: Instruction) -> Decoded {
        let state = d.state;
        Decoded::at(d, i)
            .code(self.code)
            .op_register(0, state.reg_register(self.base_reg))
            .op_reg(1, register::offset(register::MM0, state.rm))
    }

    /// Decodes the operands of the instruction into `instruction`.
    pub fn decode(&self, decoder: &mut Decoder, instruction: &mut Instruction)
        requires
            old(decoder).wf(),
            self.wf(),
            old(decoder).state.encoding == EncodingKind::Legacy,
        ensures
            *final(decoder) == self.spec_decode(*old(decoder), *old(instruction)).decoder,
            *final(instruction) == self.spec_decode(
                *old(decoder),
                *old(instruction),
            ).instruction,
            final(decoder).wf(),
            final(decoder).frame() == old(decoder).frame(),
    {
        reveal(OpCodeHandler_VN::spec_decode);
        let state: State = decoder.state;
        instruction.set_code(self.code);
        instruction.set_op0_register(state.reg_register(self.base_reg));
        decoder.op_reg(instruction, 1, register::offset(register::MM0, state.rm));
    }
}

/// `r/m, v, imm8`, the first operand 64 bits wide under W, else 32.
#[derive(Clone, Copy, Debug, PartialEq, Eq, Structural)]
pub struct OpCodeHandler_GvM_VX_Ib {
    pub has_modrm: bool,
    pub base_reg: u32,
    pub code32: u32,
    pub code64: u32,
}

impl OpCodeHandler_GvM_VX_Ib {
    /// A handler that yields `code64` under W, else `code32`.
    pub fn new(base_reg: u32, code32: u32, code64: u32) -> (handler: Self)
        ensures
            handler == (Self { has_modrm: true, base_reg, code32, code64 }),
    {
        Self { has_modrm: true, base_reg, code32, code64 }
    }

    /// The handler's registers are register numbers.
    pub open spec fn wf(&self) -> bool {
        self.base_reg < register::COUNT
    }

    /// Whether the handler is well-formed.
    #[verifier::when_used_as_spec(wf)]
    pub fn is_wf(&self) -> (b: bool)
        ensures
            b == self.wf(),
    {
        self.base_reg < register::COUNT
    }

    /// Decoder and record as [`Self::decode`] leaves them.
    #[verifier::opaque]
    pub open spec fn spec_decode(&self, d: Decoder, i: Instruction) -> Decoded {
        let state = d.state;
        Decoded::at(d, i)
            .code(if state.flags.w { self.code64 } else { self.code32 })
            .op_rm(0, state.rm_register(register::gpr32_or_64(state.flags.w)))
            .op_register(1, state.reg_register(self.base_reg))
            .imm8(2, OpKind::Immediate8)
    }

    /// Decodes the operands of the instruction into `instruction`.
    pub fn decode(&self, decoder: &mut Decoder, instruction: &mut Instruction)
        requires
            old(decoder).wf(),
            self.wf(),
            old(decoder).state.encoding == EncodingKind::Legacy,
        ensures
            *final(decoder) == self.spec_decode(*old(decoder), *old(instruction)).decoder,
            *final(instruction) == self.spec_decode(
                *old(decoder),
                *old(instruction),
            ).instruction,
            final(decoder).wf(),
            final(decoder).frame() == old(decoder).frame(),
    {
        reveal(OpCodeHandler_GvM_VX_Ib::spec_decode);
        let state: State = decoder.state;
        instruction.set_code(if state.flags.w { self.code64 } else { self.code32 });
        decoder.op_rm(instruction, 0, state.rm_register(register::gpr32_or_64(state.flags.w)));
        instruction.set_op1_register(state.reg_register(self.base_reg));
        decoder.op_imm8(instruction, 2, OpKind::Immediate8);
    }
}

/// A handler of an MMX or SSE instruction.
#[derive(Clone, Copy, Debug, PartialEq, Eq, Structural)]
pub enum SimdHandler {
    NIb(OpCodeHandler_NIb),
    VW(OpCodeHandler_VW),
    WV(OpCodeHandler_WV),
    rDI_VX_RX(OpCodeHandler_rDI_VX_RX),
    rDI_P_N(OpCodeHandler_rDI_P_N),
    VM(OpCodeHandler_VM),
    MV(OpCodeHandler_MV),
    VQ(OpCodeHandler_VQ),
    P_Q(OpCodeHandler_P_Q),
    Q_P(OpCodeHandler_Q_P),
    MP(OpCodeHandler_MP),
    P_Q_Ib(OpCodeHandler_P_Q_Ib),
    P_W(OpCodeHandler_P_W),
    P_R(OpCodeHandler_P_R),
    P_Ev(OpCodeHandler_P_Ev),
    P_Ev_Ib(OpCodeHandler_P_Ev_Ib),
    Ev_P(OpCodeHandler_Ev_P),
    Gv_W(OpCodeHandler_Gv_W),
    V_Ev(OpCodeHandler_V_Ev),
    VWIb(OpCodeHandler_VWIb),
    VRIbIb(OpCodeHandler_VRIbIb),
    RIbIb(OpCodeHandler_RIbIb),
    RIb(OpCodeHandler_RIb),
    Ed_V_Ib(OpCodeHandler_Ed_V_Ib),
    VX_Ev(OpCodeHandler_VX_Ev),
    Ev_VX(OpCodeHandler_Ev_VX),
    VX_E_Ib(OpCodeHandler_VX_E_Ib),
    Gv_RX(OpCodeHandler_Gv_RX),
    Gv_N_Ib_REX(OpCodeHandler_Gv_N_Ib_REX),
    Gv_N(OpCodeHandler_Gv_N),
    VN(OpCodeHandler_VN),
    GvM_VX_Ib(OpCodeHandler_GvM_VX_Ib),
}

impl SimdHandler {
    /// Whether a ModRM byte follows the opcode.
    pub open spec fn spec_has_modrm(&self) -> bool {
        match self {
            SimdHandler::NIb(h) => h.has_modrm,
            SimdHandler::VW(h) => h.has_modrm,
            SimdHandler::WV(h) => h.has_modrm,
            SimdHandler::rDI_VX_RX(h) => h.has_modrm,
            SimdHandler::rDI_P_N(h) => h.has_modrm,
            SimdHandler::VM(h) => h.has_modrm,
            SimdHandler::MV(h) => h.has_modrm,
            SimdHandler::VQ(h) => h.has_modrm,
            SimdHandler::P_Q(h) => h.has_modrm,
            SimdHandler::Q_P(h) => h.has_modrm,
            SimdHandler::MP(h) => h.has_modrm,
            SimdHandler::P_Q_Ib(h) => h.has_modrm,
            SimdHandler::P_W(h) => h.has_modrm,
            SimdHandler::P_R(h) => h.has_modrm,
            SimdHandler::P_Ev(h) => h.has_modrm,
            SimdHandler::P_Ev_Ib(h) => h.has_modrm,
            SimdHandler::Ev_P(h) => h.has_modrm,
            SimdHandler::Gv_W(h) => h.has_modrm,
            SimdHandler::V_Ev(h) => h.has_modrm,
            SimdHandler::VWIb(h) => h.has_modrm,
            SimdHandler::VRIbIb(h) => h.has_modrm,
            SimdHandler::RIbIb(h) => h.has_modrm,
            SimdHandler::RIb(h) => h.has_modrm,
            SimdHandler::Ed_V_Ib(h) => h.has_modrm,
            SimdHandler::VX_Ev(h) => h.has_modrm,
            SimdHandler::Ev_VX(h) => h.has_modrm,
            SimdHandler::VX_E_Ib(h) => h.has_modrm,
            SimdHandler::Gv_RX(h) => h.has_modrm,
            SimdHandler::Gv_N_Ib_REX(h) => h.has_modrm,
            SimdHandler::Gv_N(h) => h.has_modrm,
            SimdHandler::VN(h) => h.has_modrm,
            SimdHandler::GvM_VX_Ib(h) => h.has_modrm,
        }
    }

    /// Whether a ModRM byte follows the opcode.
    #[verifier::when_used_as_spec(spec_has_modrm)]
    pub fn has_modrm(&self) -> (b: bool)
        ensures
            b == self.spec_has_modrm(),
    {
        match self {
            SimdHandler::NIb(h) => h.has_modrm,
            SimdHandler::VW(h) => h.has_modrm,
            SimdHandler::WV(h) => h.has_modrm,
            SimdHandler::rDI_VX_RX(h) => h.has_modrm,
            SimdHandler::rDI_P_N(h) => h.has_modrm,
            SimdHandler::VM(h) => h.has_modrm,
            SimdHandler::MV(h) => h.has_modrm,
            SimdHandler::VQ(h) => h.has_modrm,
            SimdHandler::P_Q(h) => h.has_modrm,
            SimdHandler::Q_P(h) => h.has_modrm,
            SimdHandler::MP(h) => h.has_modrm,
            SimdHandler::P_Q_Ib(h) => h.has_modrm,
            SimdHandler::P_W(h) => h.has_modrm,
            SimdHandler::P_R(h) => h.has_modrm,
            SimdHandler::P_Ev(h) => h.has_modrm,
            SimdHandler::P_Ev_Ib(h) => h.has_modrm,
            SimdHandler::Ev_P(h) => h.has_modrm,
            SimdHandler::Gv_W(h) => h.has_modrm,
            SimdHandler::V_Ev(h) => h.has_modrm,
            SimdHandler::VWIb(h) => h.has_modrm,
            SimdHandler::VRIbIb(h) => h.has_modrm,
            SimdHandler::RIbIb(h) => h.has_modrm,
            SimdHandler::RIb(h) => h.has_modrm,
            SimdHandler::Ed_V_Ib(h) => h.has_modrm,
            SimdHandler::VX_Ev(h) => h.has_modrm,
            SimdHandler::Ev_VX(h) => h.has_modrm,
            SimdHandler::VX_E_Ib(h) => h.has_modrm,
            SimdHandler::Gv_RX(h) => h.has_modrm,
            SimdHandler::Gv_N_Ib_REX(h) => h.has_modrm,
            SimdHandler::Gv_N(h) => h.has_modrm,
            SimdHandler::VN(h) => h.has_modrm,
            SimdHandler::GvM_VX_Ib(h) => h.has_modrm,
        }
    }

    /// The handler is well-formed.
    pub open spec fn wf(&self) -> bool {
        match self {
            SimdHandler::NIb(_) => true,
            SimdHandler::VW(h) => h.wf(),
            SimdHandler::WV(h) => h.wf(),
            SimdHandler::rDI_VX_RX(h) => h.wf(),
            SimdHandler::rDI_P_N(_) => true,
            SimdHandler::VM(h) => h.wf(),
            SimdHandler::MV(h) => h.wf(),
            SimdHandler::VQ(h) => h.wf(),
            SimdHandler::P_Q(_) => true,
            SimdHandler::Q_P(_) => true,
            SimdHandler::MP(_) => true,
            SimdHandler::P_Q_Ib(_) => true,
            SimdHandler::P_W(h) => h.wf(),
            SimdHandler::P_R(h) => h.wf(),
            SimdHandler::P_Ev(_) => true,
            SimdHandler::P_Ev_Ib(_) => true,
            SimdHandler::Ev_P(_) => true,
            SimdHandler::Gv_W(h) => h.wf(),
            SimdHandler::V_Ev(h) => h.wf(),
            SimdHandler::VWIb(h) => h.wf(),
            SimdHandler::VRIbIb(h) => h.wf(),
            SimdHandler::RIbIb(h) => h.wf(),
            SimdHandler::RIb(h) => h.wf(),
            SimdHandler::Ed_V_Ib(h) => h.wf(),
            SimdHandler::VX_Ev(_) => true,
            SimdHandler::Ev_VX(_) => true,
            SimdHandler::VX_E_Ib(h) => h.wf(),
            SimdHandler::Gv_RX(h) => h.wf(),
            SimdHandler::Gv_N_Ib_REX(_) => true,
            SimdHandler::Gv_N(_) => true,
            SimdHandler::VN(h) => h.wf(),
            SimdHandler::GvM_VX_Ib(h) => h.wf(),
        }
    }

    /// Whether the handler is well-formed.
    #[verifier::when_used_as_spec(wf)]
    pub fn is_wf(&self) -> (b: bool)
        ensures
            b == self.wf(),
    {
        match self {
            SimdHandler::NIb(_) => true,
            SimdHandler::VW(h) => h.is_wf(),
            SimdHandler::WV(h) => h.is_wf(),
            SimdHandler::rDI_VX_RX(h) => h.is_wf(),
            SimdHandler::rDI_P_N(_) => true,
            SimdHandler::VM(h) => h.is_wf(),
            SimdHandler::MV(h) => h.is_wf(),
            SimdHandler::VQ(h) => h.is_wf(),
            SimdHandler::P_Q(_) => true,
            SimdHandler::Q_P(_) => true,
            SimdHandler::MP(_) => true,
            SimdHandler::P_Q_Ib(_) => true,
            SimdHandler::P_W(h) => h.is_wf(),
            SimdHandler::P_R(h) => h.is_wf(),
            SimdHandler::P_Ev(_) => true,
            SimdHandler::P_Ev_Ib(_) => true,
            SimdHandler::Ev_P(_) => true,
            SimdHandler::Gv_W(h) => h.is_wf(),
            SimdHandler::V_Ev(h) => h.is_wf(),
            SimdHandler::VWIb(h) => h.is_wf(),
            SimdHandler::VRIbIb(h) => h.is_wf(),
            SimdHandler::RIbIb(h) => h.is_wf(),
            SimdHandler::RIb(h) => h.is_wf(),
            SimdHandler::Ed_V_Ib(h) => h.is_wf(),
            SimdHandler::VX_Ev(_) => true,
            SimdHandler::Ev_VX(_) => true,
            SimdHandler::VX_E_Ib(h) => h.is_wf(),
            SimdHandler::Gv_RX(h) => h.is_wf(),
            SimdHandler::Gv_N_Ib_REX(_) => true,
            SimdHandler::Gv_N(_) => true,
            SimdHandler::VN(h) => h.is_wf(),
            SimdHandler::GvM_VX_Ib(h) => h.is_wf(),
        }
    }

    /// Decoder and record as [`Self::decode`] leaves them.
    #[verifier::opaque]
    pub open spec fn spec_decode(&self, d: Decoder, i: Instruction) -> Decoded {
        match self {
            SimdHandler::NIb(h) => h.spec_decode(d, i),
            SimdHandler::VW(h) => h.spec_decode(d, i),
            SimdHandler::WV(h) => h.spec_decode(d, i),
            SimdHandler::rDI_VX_RX(h) => h.spec_decode(d, i),
            SimdHandler::rDI_P_N(h) => h.spec_decode(d, i),
            SimdHandler::VM(h) => h.spec_decode(d, i),
            SimdHandler::MV(h) => h.spec_decode(d, i),
            SimdHandler::VQ(h) => h.spec_decode(d, i),
            SimdHandler::P_Q(h) => h.spec_decode(d, i),
            SimdHandler::Q_P(h) => h.spec_decode(d, i),
            SimdHandler::MP(h) => h.spec_decode(d, i),
            SimdHandler::P_Q_Ib(h) => h.spec_decode(d, i),
            SimdHandler::P_W(h) => h.spec_decode(d, i),
            SimdHandler::P_R(h) => h.spec_decode(d, i),
            SimdHandler::P_Ev(h) => h.spec_decode(d, i),
            SimdHandler::P_Ev_Ib(h) => h.spec_decode(d, i),
            SimdHandler::Ev_P(h) => h.spec_decode(d, i),
            SimdHandler::Gv_W(h) => h.spec_decode(d, i),
            SimdHandler::V_Ev(h) => h.spec_decode(d, i),
            SimdHandler::VWIb(h) => h.spec_decode(d, i),
            SimdHandler::VRIbIb(h) => h.spec_decode(d, i),
            SimdHandler::RIbIb(h) => h.spec_decode(d, i),
            SimdHandler::RIb(h) => h.spec_decode(d, i),
            SimdHandler::Ed_V_Ib(h) => h.spec_decode(d, i),
            SimdHandler::VX_Ev(h) => h.spec_decode(d, i),
            SimdHandler::Ev_VX(h) => h.spec_decode(d, i),
            SimdHandler::VX_E_Ib(h) => h.spec_decode(d, i),
            SimdHandler::Gv_RX(h) => h.spec_decode(d, i),
            SimdHandler::Gv_N_Ib_REX(h) => h.spec_decode(d, i),
            SimdHandler::Gv_N(h) => h.spec_decode(d, i),
            SimdHandler::VN(h) => h.spec_decode(d, i),
            SimdHandler::GvM_VX_Ib(h) => h.spec_decode(d, i),
        }
    }

    /// Decodes the operands of the instruction with the handler that `self` holds.
    pub fn decode(&self, decoder: &mut Decoder, instruction: &mut Instruction)
        requires
            old(decoder).wf(),
            self.wf(),
            old(decoder).state.encoding == EncodingKind::Legacy,
        ensures
            *final(decoder) == self.spec_decode(*old(decoder), *old(instruction)).decoder,
            *final(instruction) == self.spec_decode(
                *old(decoder),
                *old(instruction),
            ).instruction,
            final(decoder).wf(),
            final(decoder).frame() == old(decoder).frame(),
    {
        reveal(SimdHandler::spec_decode);
        match self {
            SimdHandler::NIb(h) => h.decode(decoder, instruction),
            SimdHandler::VW(h) => h.decode(decoder, instruction),
            SimdHandler::WV(h) => h.decode(decoder, instruction),
            SimdHandler::rDI_VX_RX(h) => h.decode(decoder, instruction),
            SimdHandler::rDI_P_N(h) => h.decode(decoder, instruction),
            SimdHandler::VM(h) => h.decode(decoder, instruction),
            SimdHandler::MV(h) => h.decode(decoder, instruction),
            SimdHandler::VQ(h) => h.decode(decoder, instruction),
            SimdHandler::P_Q(h) => h.decode(decoder, instruction),
            SimdHandler::Q_P(h) => h.decode(decoder, instruction),
            SimdHandler::MP(h) => h.decode(decoder, instruction),
            SimdHandler::P_Q_Ib(h) => h.decode(decoder, instruction),
            SimdHandler::P_W(h) => h.decode(decoder, instruction),
            SimdHandler::P_R(h) => h.decode(decoder, instruction),
            SimdHandler::P_Ev(h) => h.decode(decoder, instruction),
            SimdHandler::P_Ev_Ib(h) => h.decode(decoder, instruction),
            SimdHandler::Ev_P(h) => h.decode(decoder, instruction),
            SimdHandler::Gv_W(h) => h.decode(decoder, instruction),
            SimdHandler::V_Ev(h) => h.decode(decoder, instruction),
            SimdHandler::VWIb(h) => h.decode(decoder, instruction),
            SimdHandler::VRIbIb(h) => h.decode(decoder, instruction),
            SimdHandler::RIbIb(h) => h.decode(decoder, instruction),
            SimdHandler::RIb(h) => h.decode(decoder, instruction),
            SimdHandler::Ed_V_Ib(h) => h.decode(decoder, instruction),
            SimdHandler::VX_Ev(h) => h.decode(decoder, instruction),
            SimdHandler::Ev_VX(h) => h.decode(decoder, instruction),
            SimdHandler::VX_E_Ib(h) => h.decode(decoder, instruction),
            SimdHandler::Gv_RX(h) => h.decode(decoder, instruction),
            SimdHandler::Gv_N_Ib_REX(h) => h.decode(decoder, instruction),
            SimdHandler::Gv_N(h) => h.decode(decoder, instruction),
            SimdHandler::VN(h) => h.decode(decoder, instruction),
            SimdHandler::GvM_VX_Ib(h) => h.decode(decoder, instruction),
        }
    }
}

} // verus!
