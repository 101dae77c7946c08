//! Legacy handlers of the string instructions and of the moves to and from a memory offset.
//!
//! The memory operands of the string instructions are implicit: the address
//! size alone selects them.  No ModRM byte is read.
use vstd::prelude::*;
use crate::decoder::{Decoder, State};
use crate::enums::{EncodingKind, OpSize};
use crate::instruction::Instruction;
use crate::operand::{es_rdi_kind, seg_rsi_kind, select3, Decoded};
use crate::register;

verus! {

/// The operands `ES:[rDI]` and a fixed register.
#[derive(Clone, Copy, Debug, PartialEq, Eq, Structural)]
pub struct OpCodeHandler_Yb_Reg {
    pub has_modrm: bool,
    pub code: u32,
    pub reg: u32,
}

impl OpCodeHandler_Yb_Reg {
    /// A handler that yields `code` with the register operand `reg`.
    pub fn new(code: u32, reg: u32) -> (handler: Self)
        ensures
            handler == (Self { has_modrm: false, code, reg }),
    {
        Self { has_modrm: false, code, reg }
    }

    /// Decoder and record as [`Self::decode`] leaves them.
    #[verifier::opaque]
    pub open spec fn spec_decode(&self, d: Decoder, i: Instruction) -> Decoded {
        let state = d.state;
        Decoded::at(d, i)
            .code(self.code)
            .op_kind(0, es_rdi_kind(state.address_size))
            .op_register(1, self.reg)
    }

    /// Decodes the operands of the instruction into `instruction`.
    pub fn decode(&self, decoder: &mut Decoder, instruction: &mut Instruction)
        requires
            old(decoder).wf(),
            old(decoder).state.encoding == EncodingKind::Legacy,
        ensures
            *final(decoder) == self.spec_decode(*old(decoder), *old(instruction)).decoder,
            *final(instruction) == self.spec_decode(
                *old(decoder),
                *old(instruction),
            ).instruction,
            final(decoder).wf(),
            final(decoder).frame() == old(decoder).frame(),
    {
        reveal(OpCodeHandler_Yb_Reg::spec_decode);
        let state: State = decoder.state;
        instruction.set_code(self.code);
        instruction.set_op0_kind(es_rdi_kind(state.address_size));
        instruction.set_op1_register(self.reg);
    }
}

/// The operands `ES:[rDI]` and the accumulator of the operand size.
#[derive(Clone, Copy, Debug, PartialEq, Eq, Structural)]
pub struct OpCodeHandler_Yv_Reg {
    pub has_modrm: bool,
    pub code16: u32,
    pub code32: u32,
    pub code64: u32,
}

impl OpCodeHandler_Yv_Reg {
    /// A handler that yields one of three codes by operand size.
    pub fn new(code16: u32, code32: u32, code64: u32) -> (handler: Self)
        ensures
            handler == (Self { has_modrm: false, code16, code32, code64 }),
    {
        Self { has_modrm: false, code16, code32, code64 }
    }

    /// Decoder and record as [`Self::decode`] leaves them.
    #[verifier::opaque]
    pub open spec fn spec_decode(&self, d: Decoder, i: Instruction) -> Decoded {
        let state = d.state;
        Decoded::at(d, i)
            .op_kind(0, es_rdi_kind(state.address_size))
            .code(select3(state.operand_size, self.code16, self.code32, self.code64))
            .op_register(1, register::gpr_base(state.operand_size))
    }

    /// Decodes the operands of the instruction into `instruction`.
    pub fn decode(&self, decoder: &mut Decoder, instruction: &mut Instruction)
        requires
            old(decoder).wf(),
            old(decoder).state.encoding == EncodingKind::Legacy,
        ensures
            *final(decoder) == self.spec_decode(*old(decoder), *old(instruction)).decoder,
            *final(instruction) == self.spec_decode(
                *old(decoder),
                *old(instruction),
            ).instruction,
            final(decoder).wf(),
            final(decoder).frame() == old(decoder).frame(),
    {
        reveal(OpCodeHandler_Yv_Reg::spec_decode);
        let state: State = decoder.state;
        instruction.set_op0_kind(es_rdi_kind(state.address_size));
        instruction.set_code(select3(state.operand_size, self.code16, self.code32, self.code64));
        instruction.set_op1_register(register::gpr_base(state.operand_size));
    }
}

/// The operands `ES:[rDI]` and `DX`.
#[derive(Clone, Copy, Debug, PartialEq, Eq, Structural)]
pub struct OpCodeHandler_Yv_Reg2 {
    pub has_modrm: bool,
    pub code16: u32,
    pub code32: u32,
}

impl OpCodeHandler_Yv_Reg2 {
    /// A handler that yields `code16` for 16-bit operands, else `code32`.
    pub fn new(code16: u32, code32: u32) -> (handler: Self)
        ensures
            handler == (Self { has_modrm: false, code16, code32 }),
    {
        Self { has_modrm: false, code16, code32 }
    }

    /// Decoder and record as [`Self::decode`] leaves them.
    #[verifier::opaque]
    pub open spec fn spec_decode(&self, d: Decoder, i: Instruction) -> Decoded {
        let state = d.state;
        Decoded::at(d, i)
            .op_kind(0, es_rdi_kind(state.address_size))
            .code(if state.operand_size != OpSize::Size16 { self.code32 } else { self.code16 })
            .op_register(1, register::DX)
    }

    /// Decodes the operands of the instruction into `instruction`.
    pub fn decode(&self, decoder: &mut Decoder, instruction: &mut Instruction)
        requires
            old(decoder).wf(),
            old(decoder).state.encoding == EncodingKind::Legacy,
        ensures
            *final(decoder) == self.spec_decode(*old(decoder), *old(instruction)).decoder,
            *final(instruction) == self.spec_decode(
                *old(decoder),
                *old(instruction),
            ).instruction,
            final(decoder).wf(),
            final(decoder).frame() == old(decoder).frame(),
    {
        reveal(OpCodeHandler_Yv_Reg2::spec_decode);
        let state: State = decoder.state;
        instruction.set_op0_kind(es_rdi_kind(state.address_size));
        instruction.set_code(
            if state.operand_size != OpSize::Size16 { self.code32 } else { self.code16 },
        );
        instruction.set_op1_register(register::DX);
    }
}

/// A fixed register and `seg:[rSI]`.
#[derive(Clone, Copy, Debug, PartialEq, Eq, Structural)]
pub struct OpCodeHandler_Reg_Xb {
    pub has_modrm: bool,
    pub code: u32,
    pub reg: u32,
}

impl OpCodeHandler_Reg_Xb {
    /// A handler that yields `code` with the register operand `reg`.
    pub fn new(code: u32, reg: u32) -> (handler: Self)
        ensures
            handler == (Self { has_modrm: false, code, reg }),
    {
        Self { has_modrm: false, code, reg }
    }

    /// Decoder and record as [`Self::decode`] leaves them.
    #[verifier::opaque]
    pub open spec fn spec_decode(&self, d: Decoder, i: Instruction) -> Decoded {
        let state = d.state;
        Decoded::at(d, i)
            .code(self.code)
            .op_register(0, self.reg)
            .op_kind(1, seg_rsi_kind(state.address_size))
    }

    /// Decodes the operands of the instruction into `instruction`.
    pub fn decode(&self, decoder: &mut Decoder, instruction: &mut Instruction)
        requires
            old(decoder).wf(),
            old(decoder).state.encoding == EncodingKind::Legacy,
        ensures
            *final(decoder) == self.spec_decode(*old(decoder), *old(instruction)).decoder,
            *final(instruction) == self.spec_decode(
                *old(decoder),
                *old(instruction),
            ).instruction,
            final(decoder).wf(),
            final(decoder).frame() == old(decoder).frame(),
    {
        reveal(OpCodeHandler_Reg_Xb::spec_decode);
        let state: State = decoder.state;
        instruction.set_code(self.code);
        instruction.set_op0_register(self.reg);
        instruction.set_op1_kind(seg_rsi_kind(state.address_size));
    }
}

/// The accumulator of the operand size and `seg:[rSI]`.
#[derive(Clone, Copy, Debug, PartialEq, Eq, Structural)]
pub struct OpCodeHandler_Reg_Xv {
    pub has_modrm: bool,
    pub code16: u32,
    pub code32: u32,
    pub code64: u32,
}

impl OpCodeHandler_Reg_Xv {
    /// A handler that yields one of three codes by operand size.
    pub fn new(code16: u32, code32: u32, code64: u32) -> (handler: Self)
        ensures
            handler == (Self { has_modrm: false, code16, code32, code64 }),
    {
        Self { has_modrm: false, code16, code32, code64 }
    }

    /// Decoder and record as [`Self::decode`] leaves them.
    #[verifier::opaque]
    pub open spec fn spec_decode(&self, d: Decoder, i: Instruction) -> Decoded {
        let state = d.state;
        Decoded::at(d, i)
            .op_kind(1, seg_rsi_kind(state.address_size))
            .code(select3(state.operand_size, self.code16, self.code32, self.code64))
            .op_register(0, register::gpr_base(state.operand_size))
    }

    /// Decodes the operands of the instruction into `instruction`.
    pub fn decode(&self, decoder: &mut Decoder, instruction: &mut Instruction)
        requires
            old(decoder).wf(),
            old(decoder).state.encoding == EncodingKind::Legacy,
        ensures
            *final(decoder) == self.spec_decode(*old(decoder), *old(instruction)).decoder,
            *final(instruction) == self.spec_decode(
                *old(decoder),
                *old(instruction),
            ).instruction,
            final(decoder).wf(),
            final(decoder).frame() == old(decoder).frame(),
    {
        reveal(OpCodeHandler_Reg_Xv::spec_decode);
        let state: State = decoder.state;
        instruction.set_op1_kind(seg_rsi_kind(state.address_size));
        instruction.set_code(select3(state.operand_size, self.code16, self.code32, self.code64));
        instruction.set_op0_register(register::gpr_base(state.operand_size));
    }
}

/// The operands `DX` and `seg:[rSI]`.
#[derive(Clone, Copy, Debug, PartialEq, Eq, Structural)]
pub struct OpCodeHandler_Reg_Xv2 {
    pub has_modrm: bool,
    pub code16: u32,
    pub code32: u32,
}

impl OpCodeHandler_Reg_Xv2 {
    /// A handler that yields `code16` for 16-bit operands, else `code32`.
    pub fn new(code16: u32, code32: u32) -> (handler: Self)
        ensures
            handler == (Self { has_modrm: false, code16, code32 }),
    {
        Self { has_modrm: false, code16, code32 }
    }

    /// Decoder and record as [`Self::decode`] leaves them.
    #[verifier::opaque]
    pub open spec fn spec_decode(&self, d: Decoder, i: Instruction) -> Decoded {
        let state = d.state;
        Decoded::at(d, i)
            .op_kind(1, seg_rsi_kind(state.address_size))
            .code(if state.operand_size != OpSize::Size16 { self.code32 } else { self.code16 })
            .op_register(0, register::DX)
    }

    /// Decodes the operands of the instruction into `instruction`.
    pub fn decode(&self, decoder: &mut Decoder, instruction: &mut Instruction)
        requires
            old(decoder).wf(),
            old(decoder).state.encoding == EncodingKind::Legacy,
        ensures
            *final(decoder) == self.spec_decode(*old(decoder), *old(instruction)).decoder,
            *final(instruction) == self.spec_decode(
                *old(decoder),
                *old(instruction),
            ).instruction,
            final(decoder).wf(),
            final(decoder).frame() == old(decoder).frame(),
    {
        reveal(OpCodeHandler_Reg_Xv2::spec_decode);
        let state: State = decoder.state;
        instruction.set_op1_kind(seg_rsi_kind(state.address_size));
        instruction.set_code(
            if state.operand_size != OpSize::Size16 { self.code32 } else { self.code16 },
        );
        instruction.set_op0_register(register::DX);
    }
}

/// A fixed register and `ES:[rDI]`.
#[derive(Clone, Copy, Debug, PartialEq, Eq, Structural)]
pub struct OpCodeHandler_Reg_Yb {
    pub has_modrm: bool,
    pub code: u32,
    pub reg: u32,
}

impl OpCodeHandler_Reg_Yb {
    /// A handler that yields `code` with the register operand `reg`.
    pub fn new(code: u32, reg: u32) -> (handler: Self)
        ensures
            handler == (Self { has_modrm: false, code, reg }),
    {
        Self { has_modrm: false, code, reg }
    }

    /// Decoder and record as [`Self::decode`] leaves them.
    #[verifier::opaque]
    pub open spec fn spec_decode(&self, d: Decoder, i: Instruction) -> Decoded {
        let state = d.state;
        Decoded::at(d, i)
            .code(self.code)
            .op_register(0, self.reg)
            .op_kind(1, es_rdi_kind(state.address_size))
    }

    /// Decodes the operands of the instruction into `instruction`.
    pub fn decode(&self, decoder: &mut Decoder, instruction: &mut Instruction)
        requires
            old(decoder).wf(),
            old(decoder).state.encoding == EncodingKind::Legacy,
        ensures
            *final(decoder) == self.spec_decode(*old(decoder), *old(instruction)).decoder,
            *final(instruction) == self.spec_decode(
                *old(decoder),
                *old(instruction),
            ).instruction,
            final(decoder).wf(),
            final(decoder).frame() == old(decoder).frame(),
    {
        reveal(OpCodeHandler_Reg_Yb::spec_decode);
        let state: State = decoder.state;
        instruction.set_code(self.code);
        instruction.set_op0_register(self.reg);
        instruction.set_op1_kind(es_rdi_kind(state.address_size));
    }
}

/// The accumulator of the operand size and `ES:[rDI]`.
#[derive(Clone, Copy, Debug, PartialEq, Eq, Structural)]
pub struct OpCodeHandler_Reg_Yv {
    pub has_modrm: bool,
    pub code16: u32,
    pub code32: u32,
    pub code64: u32,
}

impl OpCodeHandler_Reg_Yv {
    /// A handler that yields one of three codes by operand size.
    pub fn new(code16: u32, code32: u32, code64: u32) -> (handler: Self)
        ensures
            handler == (Self { has_modrm: false, code16, code32, code64 }),
    {
        Self { has_modrm: false, code16, code32, code64 }
    }

    /// Decoder and record as [`Self::decode`] leaves them.
    #[verifier::opaque]
    pub open spec fn spec_decode(&self, d: Decoder, i: Instruction) -> Decoded {
        let state = d.state;
        Decoded::at(d, i)
            .op_kind(1, es_rdi_kind(state.address_size))
            .code(select3(state.operand_size, self.code16, self.code32, self.code64))
            .op_register(0, register::gpr_base(state.operand_size))
    }

    /// Decodes the operands of the instruction into `instruction`.
    pub fn decode(&self, decoder: &mut Decoder, instruction: &mut Instruction)
        requires
            old(decoder).wf(),
            old(decoder).state.encoding == EncodingKind::Legacy,
        ensures
            *final(decoder) == self.spec_decode(*old(decoder), *old(instruction)).decoder,
            *final(instruction) == self.spec_decode(
                *old(decoder),
                *old(instruction),
            ).instruction,
            final(decoder).wf(),
            final(decoder).frame() == old(decoder).frame(),
    {
        reveal(OpCodeHandler_Reg_Yv::spec_decode);
        let state: State = decoder.state;
        instruction.set_op1_kind(es_rdi_kind(state.address_size));
        instruction.set_code(select3(state.operand_size, self.code16, self.code32, self.code64));
        instruction.set_op0_register(register::gpr_base(state.operand_size));
    }
}

/// The operands `ES:[rDI]` and `seg:[rSI]`.
#[derive(Clone, Copy, Debug, PartialEq, Eq, Structural)]
pub struct OpCodeHandler_Yb_Xb {
    pub has_modrm: bool,
    pub code: u32,
}

impl OpCodeHandler_Yb_Xb {
    /// A handler that yields `code`.
    pub fn new(code: u32) -> (handler: Self)
        ensures
            handler == (Self { has_modrm: false, code }),
    {
        Self { has_modrm: false, code }
    }

    /// Decoder and record as [`Self::decode`] leaves them.
    #[verifier::opaque]
    pub open spec fn spec_decode(&self, d: Decoder, i: Instruction) -> Decoded {
        let state = d.state;
        Decoded::at(d, i)
            .code(self.code)
            .op_kind(0, es_rdi_kind(state.address_size))
            .op_kind(1, seg_rsi_kind(state.address_size))
    }

    /// Decodes the operands of the instruction into `instruction`.
    pub fn decode(&self, decoder: &mut Decoder, instruction: &mut Instruction)
        requires
            old(decoder).wf(),
            old(decoder).state.encoding == EncodingKind::Legacy,
        ensures
            *final(decoder) == self.spec_decode(*old(decoder), *old(instruction)).decoder,
            *final(instruction) == self.spec_decode(
                *old(decoder),
                *old(instruction),
            ).instruction,
            final(decoder).wf(),
            final(decoder).frame() == old(decoder).frame(),
    {
        reveal(OpCodeHandler_Yb_Xb::spec_decode);
        let state: State = decoder.state;
        instruction.set_code(self.code);
        instruction.set_op0_kind(es_rdi_kind(state.address_size));
        instruction.set_op1_kind(seg_rsi_kind(state.address_size));
    }
}

/// The operands `ES:[rDI]` and `seg:[rSI]`; the code goes by operand size.
#[derive(Clone, Copy, Debug, PartialEq, Eq, Structural)]
pub struct OpCodeHandler_Yv_Xv {
    pub has_modrm: bool,
    pub code16: u32,
    pub code32: u32,
    pub code64: u32,
}

impl OpCodeHandler_Yv_Xv {
    /// A handler that yields one of three codes by operand size.
    pub fn new(code16: u32, code32: u32, code64: u32) -> (handler: Self)
        ensures
            handler == (Self { has_modrm: false, code16, code32, code64 }),
    {
        Self { has_modrm: false, code16, code32, code64 }
    }

    /// Decoder and record as [`Self::decode`] leaves them.
    #[verifier::opaque]
    pub open spec fn spec_decode(&self, d: Decoder, i: Instruction) -> Decoded {
        let state = d.state;
        Decoded::at(d, i)
            .op_kind(0, es_rdi_kind(state.address_size))
            .op_kind(1, seg_rsi_kind(state.address_size))
            .code(select3(state.operand_size, self.code16, self.code32, self.code64))
    }

    /// Decodes the operands of the instruction into `instruction`.
    pub fn decode(&self, decoder: &mut Decoder, instruction: &mut Instruction)
        requires
            old(decoder).wf(),
            old(decoder).state.encoding == EncodingKind::Legacy,
        ensures
            *final(decoder) == self.spec_decode(*old(decoder), *old(instruction)).decoder,
            *final(instruction) == self.spec_decode(
                *old(decoder),
                *old(instruction),
            ).instruction,
            final(decoder).wf(),
            final(decoder).frame() == old(decoder).frame(),
    {
        reveal(OpCodeHandler_Yv_Xv::spec_decode);
        let state: State = decoder.state;
        instruction.set_op0_kind(es_rdi_kind(state.address_size));
        instruction.set_op1_kind(seg_rsi_kind(state.address_size));
        instruction.set_code(select3(state.operand_size, self.code16, self.code32, self.code64));
    }
}

/// The operands `seg:[rSI]` and `ES:[rDI]`.
#[derive(Clone, Copy, Debug, PartialEq, Eq, Structural)]
pub struct OpCodeHandler_Xb_Yb {
    pub has_modrm: bool,
    pub code: u32,
}

impl OpCodeHandler_Xb_Yb {
    /// A handler that yields `code`.
    pub fn new(code: u32) -> (handler: Self)
        ensures
            handler == (Self { has_modrm: false, code }),
    {
        Self { has_modrm: false, code }
    }

    /// Decoder and record as [`Self::decode`] leaves them.
    #[verifier::opaque]
    pub open spec fn spec_decode(&self, d: Decoder, i: Instruction) -> Decoded {
        let state = d.state;
        Decoded::at(d, i)
            .code(self.code)
            .op_kind(0, seg_rsi_kind(state.address_size))
            .op_kind(1, es_rdi_kind(state.address_size))
    }

    /// Decodes the operands of the instruction into `instruction`.
    pub fn decode(&self, decoder: &mut Decoder, instruction: &mut Instruction)
        requires
            old(decoder).wf(),
            old(decoder).state.encoding == EncodingKind::Legacy,
        ensures
            *final(decoder) == self.spec_decode(*old(decoder), *old(instruction)).decoder,
            *final(instruction) == self.spec_decode(
                *old(decoder),
                *old(instruction),
            ).instruction,
            final(decoder).wf(),
            final(decoder).frame() == old(decoder).frame(),
    {
        reveal(OpCodeHandler_Xb_Yb::spec_decode);
        let state: State = decoder.state;
        instruction.set_code(self.code);
        instruction.set_op0_kind(seg_rsi_kind(state.address_size));
        instruction.set_op1_kind(es_rdi_kind(state.address_size));
    }
}

/// The operands `seg:[rSI]` and `ES:[rDI]`; the code goes by operand size.
#[derive(Clone, Copy, Debug, PartialEq, Eq, Structural)]
pub struct OpCodeHandler_Xv_Yv {
    pub has_modrm: bool,
    pub code16: u32,
    pub code32: u32,
    pub code64: u32,
}

impl OpCodeHandler_Xv_Yv {
    /// A handler that yields one of three codes by operand size.
    pub fn new(code16: u32, code32: u32, code64: u32) -> (handler: Self)
        ensures
            handler == (Self { has_modrm: false, code16, code32, code64 }),
    {
        Self { has_modrm: false, code16, code32, code64 }
    }

    /// Decoder and record as [`Self::decode`] leaves them.
    #[verifier::opaque]
    pub open spec fn spec_decode(&self, d: Decoder, i: Instruction) -> Decoded {
        let state = d.state;
        Decoded::at(d, i)
            .op_kind(0, seg_rsi_kind(state.address_size))
            .op_kind(1, es_rdi_kind(state.address_size))
            .code(select3(state.operand_size, self.code16, self.code32, self.code64))
    }

    /// Decodes the operands of the instruction into `instruction`.
    pub fn decode(&self, decoder: &mut Decoder, instruction: &mut Instruction)
        requires
            old(decoder).wf(),
            old(decoder).state.encoding == EncodingKind::Legacy,
        ensures
            *final(decoder) == self.spec_decode(*old(decoder), *old(instruction)).decoder,
            *final(instruction) == self.spec_decode(
                *old(decoder),
                *old(instruction),
            ).instruction,
            final(decoder).wf(),
            final(decoder).frame() == old(decoder).frame(),
    {
        reveal(OpCodeHandler_Xv_Yv::spec_decode);
        let state: State = decoder.state;
        instruction.set_op0_kind(seg_rsi_kind(state.address_size));
        instruction.set_op1_kind(es_rdi_kind(state.address_size));
        instruction.set_code(select3(state.operand_size, self.code16, self.code32, self.code64));
    }
}

/// A fixed register and the memory at an offset that follows the opcode.
#[derive(Clone, Copy, Debug, PartialEq, Eq, Structural)]
pub struct OpCodeHandler_Reg_Ob {
    pub has_modrm: bool,
    pub code: u32,
    pub reg: u32,
}

impl OpCodeHandler_Reg_Ob {
    /// A handler that yields `code` with the register operand `reg`.
    pub fn new(code: u32, reg: u32) -> (handler: Self)
        ensures
            handler == (Self { has_modrm: false, code, reg }),
    {
        Self { has_modrm: false, code, reg }
    }

    /// Decoder and record as [`Self::decode`] leaves them.
    #[verifier::opaque]
    pub open spec fn spec_decode(&self, d: Decoder, i: Instruction) -> Decoded {
        Decoded::at(d, i).code(self.code).op_register(0, self.reg).moffs(1)
    }

    /// Decodes the operands of the instruction into `instruction`.
    pub fn decode(&self, decoder: &mut Decoder, instruction: &mut Instruction)
        requires
            old(decoder).wf(),
            old(decoder).state.encoding == EncodingKind::Legacy,
        ensures
            *final(decoder) == self.spec_decode(*old(decoder), *old(instruction)).decoder,
            *final(instruction) == self.spec_decode(
                *old(decoder),
                *old(instruction),
            ).instruction,
            final(decoder).wf(),
            final(decoder).frame() == old(decoder).frame(),
    {
        reveal(OpCodeHandler_Reg_Ob::spec_decode);
        instruction.set_code(self.code);
        instruction.set_op0_register(self.reg);
        decoder.op_moffs(instruction, 1);
    }
}

/// The memory at an offset that follows the opcode and a fixed register.
#[derive(Clone, Copy, Debug, PartialEq, Eq, Structural)]
pub struct OpCodeHandler_Ob_Reg {
    pub has_modrm: bool,
    pub code: u32,
    pub reg: u32,
}

impl OpCodeHandler_Ob_Reg {
    /// A handler that yields `code` with the register operand `reg`.
    pub fn new(code: u32, reg: u32) -> (handler: Self)
        ensures
            handler == (Self { has_modrm: false, code, reg }),
    {
        Self { has_modrm: false, code, reg }
    }

    /// Decoder and record as [`Self::decode`] leaves them.
    #[verifier::opaque]
    pub open spec fn spec_decode(&self, d: Decoder, i: Instruction) -> Decoded {
        Decoded::at(d, i).code(self.code).moffs(0).op_register(1, self.reg)
    }

    /// Decodes the operands of the instruction into `instruction`.
    pub fn decode(&self, decoder: &mut Decoder, instruction: &mut Instruction)
        requires
            old(decoder).wf(),
            old(decoder).state.encoding == EncodingKind::Legacy,
        ensures
            *final(decoder) == self.spec_decode(*old(decoder), *old(instruction)).decoder,
            *final(instruction) == self.spec_decode(
                *old(decoder),
                *old(instruction),
            ).instruction,
            final(decoder).wf(),
            final(decoder).frame() == old(decoder).frame(),
    {
        reveal(OpCodeHandler_Ob_Reg::spec_decode);
        instruction.set_code(self.code);
        decoder.op_moffs(instruction, 0);
        instruction.set_op1_register(self.reg);
    }
}

/// The accumulator of the operand size and the memory at an offset that follows the opcode.
#[derive(Clone, Copy, Debug, PartialEq, Eq, Structural)]
pub struct OpCodeHandler_Reg_Ov {
    pub has_modrm: bool,
    pub code16: u32,
    pub code32: u32,
    pub code64: u32,
}

impl OpCodeHandler_Reg_Ov {
    /// A handler that yields one of three codes by operand size.
    pub fn new(code16: u32, code32: u32, code64: u32) -> (handler: Self)
        ensures
            handler == (Self { has_modrm: false, code16, code32, code64 }),
    {
        Self { has_modrm: false, code16, code32, code64 }
    }

    /// Decoder and record as [`Self::decode`] leaves them.
    #[verifier::opaque]
    pub open spec fn spec_decode(&self, d: Decoder, i: Instruction) -> Decoded {
        let state = d.state;
        Decoded::at(d, i)
            .moffs(1)
            .code(select3(state.operand_size, self.code16, self.code32, self.code64))
            .op_register(0, register::gpr_base(state.operand_size))
    }

    /// Decodes the operands of the instruction into `instruction`.
    pub fn decode(&self, decoder: &mut Decoder, instruction: &mut Instruction)
        requires
            old(decoder).wf(),
            old(decoder).state.encoding == EncodingKind::Legacy,
        ensures
            *final(decoder) == self.spec_decode(*old(decoder), *old(instruction)).decoder,
            *final(instruction) == self.spec_decode(
                *old(decoder),
                *old(instruction),
            ).instruction,
            final(decoder).wf(),
            final(decoder).frame() == old(decoder).frame(),
    {
        reveal(OpCodeHandler_Reg_Ov::spec_decode);
        let state: State = decoder.state;
        decoder.op_moffs(instruction, 1);
        instruction.set_code(select3(state.operand_size, self.code16, self.code32, self.code64));
        instruction.set_op0_register(register::gpr_base(state.operand_size));
    }
}

/// The memory at an offset that follows the opcode and the accumulator of the operand size.
#[derive(Clone, Copy, Debug, PartialEq, Eq, Structural)]
pub struct OpCodeHandler_Ov_Reg {
    pub has_modrm: bool,
    pub code16: u32,
    pub code32: u32,
    pub code64: u32,
}

impl OpCodeHandler_Ov_Reg {
    /// A handler that yields one of three codes by operand size.
    pub fn new(code16: u32, code32: u32, code64: u32) -> (handler: Self)
        ensures
            handler == (Self { has_modrm: false, code16, code32, code64 }),
    {
        Self { has_modrm: false, code16, code32, code64 }
    }

    /// Decoder and record as [`Self::decode`] leaves them.
    #[verifier::opaque]
    pub open spec fn spec_decode(&self, d: Decoder, i: Instruction) -> Decoded {
        let state = d.state;
        Decoded::at(d, i)
            .moffs(0)
            .code(select3(state.operand_size, self.code16, self.code32, self.code64))
            .op_register(1, register::gpr_base(state.operand_size))
    }

    /// Decodes the operands of the instruction into `instruction`.
    pub fn decode(&self, decoder: &mut Decoder, instruction: &mut Instruction)
        requires
            old(decoder).wf(),
            old(decoder).state.encoding == EncodingKind::Legacy,
        ensures
            *final(decoder) == self.spec_decode(*old(decoder), *old(instruction)).decoder,
            *final(instruction) == self.spec_decode(
                *old(decoder),
                *old(instruction),
            ).instruction,
            final(decoder).wf(),
            final(decoder).frame() == old(decoder).frame(),
    {
        reveal(OpCodeHandler_Ov_Reg::spec_decode);
        let state: State = decoder.state;
        decoder.op_moffs(instruction, 0);
        instruction.set_code(select3(state.operand_size, self.code16, self.code32, self.code64));
        instruction.set_op1_register(register::gpr_base(state.operand_size));
    }
}

/// A handler of a string instruction or of a move to or from a memory offset.
#[derive(Clone, Copy, Debug, PartialEq, Eq, Structural)]
pub enum StringHandler {
    Yb_Reg(OpCodeHandler_Yb_Reg),
    Yv_Reg(OpCodeHandler_Yv_Reg),
    Yv_Reg2(OpCodeHandler_Yv_Reg2),
    Reg_Xb(OpCodeHandler_Reg_Xb),
    Reg_Xv(OpCodeHandler_Reg_Xv),
    Reg_Xv2(OpCodeHandler_Reg_Xv2),
    Reg_Yb(OpCodeHandler_Reg_Yb),
    Reg_Yv(OpCodeHandler_Reg_Yv),
    Yb_Xb(OpCodeHandler_Yb_Xb),
    Yv_Xv(OpCodeHandler_Yv_Xv),
    Xb_Yb(OpCodeHandler_Xb_Yb),
    Xv_Yv(OpCodeHandler_Xv_Yv),
    Reg_Ob(OpCodeHandler_Reg_Ob),
    Ob_Reg(OpCodeHandler_Ob_Reg),
    Reg_Ov(OpCodeHandler_Reg_Ov),
    Ov_Reg(OpCodeHandler_Ov_Reg),
}

impl StringHandler {
    /// Whether a ModRM byte follows the opcode.
    pub open spec fn spec_has_modrm(&self) -> bool {
        match self {
            StringHandler::Yb_Reg(h) => h.has_modrm,
            StringHandler::Yv_Reg(h) => h.has_modrm,
            StringHandler::Yv_Reg2(h) => h.has_modrm,
            StringHandler::Reg_Xb(h) => h.has_modrm,
            StringHandler::Reg_Xv(h) => h.has_modrm,
            StringHandler::Reg_Xv2(h) => h.has_modrm,
            StringHandler::Reg_Yb(h) => h.has_modrm,
            StringHandler::Reg_Yv(h) => h.has_modrm,
            StringHandler::Yb_Xb(h) => h.has_modrm,
            StringHandler::Yv_Xv(h) => h.has_modrm,
            StringHandler::Xb_Yb(h) => h.has_modrm,
            StringHandler::Xv_Yv(h) => h.has_modrm,
            StringHandler::Reg_Ob(h) => h.has_modrm,
            StringHandler::Ob_Reg(h) => h.has_modrm,
            StringHandler::Reg_Ov(h) => h.has_modrm,
            StringHandler::Ov_Reg(h) => h.has_modrm,
        }
    }

    /// Whether a ModRM byte follows the opcode.
    #[verifier::when_used_as_spec(spec_has_modrm)]
    pub fn has_modrm(&self) -> (b: bool)
        ensures
            b == self.spec_has_modrm(),
    {
        match self {
            StringHandler::Yb_Reg(h) => h.has_modrm,
            StringHandler::Yv_Reg(h) => h.has_modrm,
            StringHandler::Yv_Reg2(h) => h.has_modrm,
            StringHandler::Reg_Xb(h) => h.has_modrm,
            StringHandler::Reg_Xv(h) => h.has_modrm,
            StringHandler::Reg_Xv2(h) => h.has_modrm,
            StringHandler::Reg_Yb(h) => h.has_modrm,
            StringHandler::Reg_Yv(h) => h.has_modrm,
            StringHandler::Yb_Xb(h) => h.has_modrm,
            StringHandler::Yv_Xv(h) => h.has_modrm,
            StringHandler::Xb_Yb(h) => h.has_modrm,
            StringHandler::Xv_Yv(h) => h.has_modrm,
            StringHandler::Reg_Ob(h) => h.has_modrm,
            StringHandler::Ob_Reg(h) => h.has_modrm,
            StringHandler::Reg_Ov(h) => h.has_modrm,
            StringHandler::Ov_Reg(h) => h.has_modrm,
        }
    }

    /// The handler is well-formed.
    pub open spec fn wf(&self) -> bool {
        match self {
            StringHandler::Yb_Reg(_) => true,
            StringHandler::Yv_Reg(_) => true,
            StringHandler::Yv_Reg2(_) => true,
            StringHandler::Reg_Xb(_) => true,
            StringHandler::Reg_Xv(_) => true,
            StringHandler::Reg_Xv2(_) => true,
            StringHandler::Reg_Yb(_) => true,
            StringHandler::Reg_Yv(_) => true,
            StringHandler::Yb_Xb(_) => true,
            StringHandler::Yv_Xv(_) => true,
            StringHandler::Xb_Yb(_) => true,
            StringHandler::Xv_Yv(_) => true,
            StringHandler::Reg_Ob(_) => true,
            StringHandler::Ob_Reg(_) => true,
            StringHandler::Reg_Ov(_) => true,
            StringHandler::Ov_Reg(_) => true,
        }
    }

    /// Whether the handler is well-formed.
    #[verifier::when_used_as_spec(wf)]
    pub fn is_wf(&self) -> (b: bool)
        ensures
            b == self.wf(),
    {
        match self {
            StringHandler::Yb_Reg(_) => true,
            StringHandler::Yv_Reg(_) => true,
            StringHandler::Yv_Reg2(_) => true,
            StringHandler::Reg_Xb(_) => true,
            StringHandler::Reg_Xv(_) => true,
            StringHandler::Reg_Xv2(_) => true,
            StringHandler::Reg_Yb(_) => true,
            StringHandler::Reg_Yv(_) => true,
            StringHandler::Yb_Xb(_) => true,
            StringHandler::Yv_Xv(_) => true,
            StringHandler::Xb_Yb(_) => true,
            StringHandler::Xv_Yv(_) => true,
            StringHandler::Reg_Ob(_) => true,
            StringHandler::Ob_Reg(_) => true,
            StringHandler::Reg_Ov(_) => true,
            StringHandler::Ov_Reg(_) => true,
        }
    }

    /// Decoder and record as [`Self::decode`] leaves them.
    #[verifier::opaque]
    pub open spec fn spec_decode(&self, d: Decoder, i: Instruction) -> Decoded {
        match self {
            StringHandler::Yb_Reg(h) => h.spec_decode(d, i),
            StringHandler::Yv_Reg(h) => h.spec_decode(d, i),
            StringHandler::Yv_Reg2(h) => h.spec_decode(d, i),
            StringHandler::Reg_Xb(h) => h.spec_decode(d, i),
            StringHandler::Reg_Xv(h) => h.spec_decode(d, i),
            StringHandler::Reg_Xv2(h) => h.spec_decode(d, i),
            StringHandler::Reg_Yb(h) => h.spec_decode(d, i),
            StringHandler::Reg_Yv(h) => h.spec_decode(d, i),
            StringHandler::Yb_Xb(h) => h.spec_decode(d, i),
            StringHandler::Yv_Xv(h) => h.spec_decode(d, i),
            StringHandler::Xb_Yb(h) => h.spec_decode(d, i),
            StringHandler::Xv_Yv(h) => h.spec_decode(d, i),
            StringHandler::Reg_Ob(h) => h.spec_decode(d, i),
            StringHandler::Ob_Reg(h) => h.spec_decode(d, i),
            StringHandler::Reg_Ov(h) => h.spec_decode(d, i),
            StringHandler::Ov_Reg(h) => h.spec_decode(d, i),
        }
    }

    /// Decodes the operands of the instruction with the handler that `self` holds.
    pub fn decode(&self, decoder: &mut Decoder, instruction: &mut Instruction)
        requires
            old(decoder).wf(),
            self.wf(),
            old(decoder).state.encoding == EncodingKind::Legacy,
        ensures
            *final(decoder) == self.spec_decode(*old(decoder), *old(instruction)).decoder,
            *final(instruction) == self.spec_decode(
                *old(decoder),
                *old(instruction),
            ).instruction,
            final(decoder).wf(),
            final(decoder).frame() == old(decoder).frame(),
    {
        reveal(StringHandler::spec_decode);
        match self {
            StringHandler::Yb_Reg(h) => h.decode(decoder, instruction),
            StringHandler::Yv_Reg(h) => h.decode(decoder, instruction),
            StringHandler::Yv_Reg2(h) => h.decode(decoder, instruction),
            StringHandler::Reg_Xb(h) => h.decode(decoder, instruction),
            StringHandler::Reg_Xv(h) => h.decode(decoder, instruction),
            StringHandler::Reg_Xv2(h) => h.decode(decoder, instruction),
            StringHandler::Reg_Yb(h) => h.decode(decoder, instruction),
            StringHandler::Reg_Yv(h) => h.decode(decoder, instruction),
            StringHandler::Yb_Xb(h) => h.decode(decoder, instruction),
            StringHandler::Yv_Xv(h) => h.decode(decoder, instruction),
            StringHandler::Xb_Yb(h) => h.decode(decoder, instruction),
            StringHandler::Xv_Yv(h) => h.decode(decoder, instruction),
            StringHandler::Reg_Ob(h) => h.decode(decoder, instruction),
            StringHandler::Ob_Reg(h) => h.decode(decoder, instruction),
            StringHandler::Reg_Ov(h) => h.decode(decoder, instruction),
            StringHandler::Ov_Reg(h) => h.decode(decoder, instruction),
        }
    }
}

} // verus!
