//! Legacy handlers whose operands are fixed registers and immediates.
use vstd::prelude::*;
use crate::code;
use crate::decoder::{Decoder, State};
use crate::enums::{EncodingKind, OpKind, OpSize};
use crate::instruction::Instruction;
use crate::operand::{select3, stack_size, Decoded};
use crate::register;

verus! {

/// One register operand that the opcode fixes.
#[derive(Clone, Copy, Debug, PartialEq, Eq, Structural)]
pub struct OpCodeHandler_Reg {
    pub has_modrm: bool,
    pub code: u32,
    pub reg: u32,
}

impl OpCodeHandler_Reg {
    /// A handler that yields `code` with the operand `reg`.
    pub fn new(code: u32, reg: u32) -> (handler: Self)
        ensures
            handler == (Self { has_modrm: false, code, reg }),
    {
        Self { has_modrm: false, code, reg }
    }

    /// Decoder and record as [`Self::decode`] leaves them.
    #[verifier::opaque]
    pub open spec fn spec_decode(&self, d: Decoder, i: Instruction) -> Decoded {
        Decoded::at(d, i).code(self.code).op_register(0, self.reg)
    }

    /// Decodes the operands of the instruction into `instruction`.
    pub fn decode(&self, decoder: &mut Decoder, instruction: &mut Instruction)
        requires
            old(decoder).wf(),
            old(decoder).state.encoding == EncodingKind::Legacy,
        ensures
            *final(decoder) == self.spec_decode(*old(decoder), *old(instruction)).decoder,
            *final(instruction) == self.spec_decode(
                *old(decoder),
                *old(instruction),
            ).instruction,
            final(decoder).wf(),
            final(decoder).frame() == old(decoder).frame(),
    {
        reveal(OpCodeHandler_Reg::spec_decode);
        instruction.set_code(self.code);
        instruction.set_op0_register(self.reg);
    }
}

/// A fixed register, then an 8-bit immediate.
#[derive(Clone, Copy, Debug, PartialEq, Eq, Structural)]
pub struct OpCodeHandler_RegIb {
    pub has_modrm: bool,
    pub code: u32,
    pub reg: u32,
}

impl OpCodeHandler_RegIb {
    /// A handler that yields `code` with the operands `reg` and an immediate.
    pub fn new(code: u32, reg: u32) -> (handler: Self)
        ensures
            handler == (Self { has_modrm: false, code, reg }),
    {
        Self { has_modrm: false, code, reg }
    }

    /// Decoder and record as [`Self::decode`] leaves them.
    #[verifier::opaque]
    pub open spec fn spec_decode(&self, d: Decoder, i: Instruction) -> Decoded {
        Decoded::at(d, i)
            .code(self.code)
            .op_register(0, self.reg)
            .imm8(1, OpKind::Immediate8)
    }

    /// Decodes the operands of the instruction into `instruction`.
    pub fn decode(&self, decoder: &mut Decoder, instruction: &mut Instruction)
        requires
            old(decoder).wf(),
            old(decoder).state.encoding == EncodingKind::Legacy,
        ensures
            *final(decoder) == self.spec_decode(*old(decoder), *old(instruction)).decoder,
            *final(instruction) == self.spec_decode(
                *old(decoder),
                *old(instruction),
            ).instruction,
            final(decoder).wf(),
            final(decoder).frame() == old(decoder).frame(),
    {
        reveal(OpCodeHandler_RegIb::spec_decode);
        instruction.set_code(self.code);
        instruction.set_op0_register(self.reg);
        decoder.op_imm8(instruction, 1, OpKind::Immediate8);
    }
}

/// An 8-bit immediate, then a fixed register.
#[derive(Clone, Copy, Debug, PartialEq, Eq, Structural)]
pub struct OpCodeHandler_IbReg {
    pub has_modrm: bool,
    pub code: u32,
    pub reg: u32,
}

impl OpCodeHandler_IbReg {
    /// A handler that yields `code` with an immediate and the operand `reg`.
    pub fn new(code: u32, reg: u32) -> (handler: Self)
        ensures
            handler == (Self { has_modrm: false, code, reg }),
    {
        Self { has_modrm: false, code, reg }
    }

    /// Decoder and record as [`Self::decode`] leaves them.
    #[verifier::opaque]
    pub open spec fn spec_decode(&self, d: Decoder, i: Instruction) -> Decoded {
        Decoded::at(d, i)
            .code(self.code)
            .imm8(0, OpKind::Immediate8)
            .op_register(1, self.reg)
    }

    /// Decodes the operands of the instruction into `instruction`.
    pub fn decode(&self, decoder: &mut Decoder, instruction: &mut Instruction)
        requires
            old(decoder).wf(),
            old(decoder).state.encoding == EncodingKind::Legacy,
        ensures
            *final(decoder) == self.spec_decode(*old(decoder), *old(instruction)).decoder,
            *final(instruction) == self.spec_decode(
                *old(decoder),
                *old(instruction),
            ).instruction,
            final(decoder).wf(),
            final(decoder).frame() == old(decoder).frame(),
    {
        reveal(OpCodeHandler_IbReg::spec_decode);
        instruction.set_code(self.code);
        decoder.op_imm8(instruction, 0, OpKind::Immediate8);
        instruction.set_op1_register(self.reg);
    }
}

/// The operands `AL, DX`.
#[derive(Clone, Copy, Debug, PartialEq, Eq, Structural)]
pub struct OpCodeHandler_AL_DX {
    pub has_modrm: bool,
    pub code: u32,
}

impl OpCodeHandler_AL_DX {
    /// A handler that yields `code`.
    pub fn new(code: u32) -> (handler: Self)
        ensures
            handler == (Self { has_modrm: false, code }),
    {
        Self { has_modrm: false, code }
    }

    /// Decoder and record as [`Self::decode`] leaves them.
    #[verifier::opaque]
    pub open spec fn spec_decode(&self, d: Decoder, i: Instruction) -> Decoded {
        Decoded::at(d, i)
            .code(self.code)
            .op_register(0, register::AL)
            .op_register(1, register::DX)
    }

    /// Decodes the operands of the instruction into `instruction`.
    pub fn decode(&self, decoder: &mut Decoder, instruction: &mut Instruction)
        requires
            old(decoder).wf(),
            old(decoder).state.encoding == EncodingKind::Legacy,
        ensures
            *final(decoder) == self.spec_decode(*old(decoder), *old(instruction)).decoder,
            *final(instruction) == self.spec_decode(
                *old(decoder),
                *old(instruction),
            ).instruction,
            final(decoder).wf(),
            final(decoder).frame() == old(decoder).frame(),
    {
        reveal(OpCodeHandler_AL_DX::spec_decode);
        instruction.set_code(self.code);
        instruction.set_op0_register(register::AL);
        instruction.set_op1_register(register::DX);
    }
}

/// The operands `DX, AL`.
#[derive(Clone, Copy, Debug, PartialEq, Eq, Structural)]
pub struct OpCodeHandler_DX_AL {
    pub has_modrm: bool,
    pub code: u32,
}

impl OpCodeHandler_DX_AL {
    /// A handler that yields `code`.
    pub fn new(code: u32) -> (handler: Self)
        ensures
            handler == (Self { has_modrm: false, code }),
    {
        Self { has_modrm: false, code }
    }

    /// Decoder and record as [`Self::decode`] leaves them.
    #[verifier::opaque]
    pub open spec fn spec_decode(&self, d: Decoder, i: Instruction) -> Decoded {
        Decoded::at(d, i)
            .code(self.code)
            .op_register(0, register::DX)
            .op_register(1, register::AL)
    }

    /// Decodes the operands of the instruction into `instruction`.
    pub fn decode(&self, decoder: &mut Decoder, instruction: &mut Instruction)
        requires
            old(decoder).wf(),
            old(decoder).state.encoding == EncodingKind::Legacy,
        ensures
            *final(decoder) == self.spec_decode(*old(decoder), *old(instruction)).decoder,
            *final(instruction) == self.spec_decode(
                *old(decoder),
                *old(instruction),
            ).instruction,
            final(decoder).wf(),
            final(decoder).frame() == old(decoder).frame(),
    {
        reveal(OpCodeHandler_DX_AL::spec_decode);
        instruction.set_code(self.code);
        instruction.set_op0_register(register::DX);
        instruction.set_op1_register(register::AL);
    }
}

/// One 8-bit immediate.
#[derive(Clone, Copy, Debug, PartialEq, Eq, Structural)]
pub struct OpCodeHandler_Ib {
    pub has_modrm: bool,
    pub code: u32,
}

impl OpCodeHandler_Ib {
    /// A handler that yields `code`.
    pub fn new(code: u32) -> (handler: Self)
        ensures
            handler == (Self { has_modrm: false, code }),
    {
        Self { has_modrm: false, code }
    }

    /// Decoder and record as [`Self::decode`] leaves them.
    #[verifier::opaque]
    pub open spec fn spec_decode(&self, d: Decoder, i: Instruction) -> Decoded {
        Decoded::at(d, i).code(self.code).imm8(0, OpKind::Immediate8)
    }

    /// Decodes the operands of the instruction into `instruction`.
    pub fn decode(&self, decoder: &mut Decoder, instruction: &mut Instruction)
        requires
            old(decoder).wf(),
            old(decoder).state.encoding == EncodingKind::Legacy,
        ensures
            *final(decoder) == self.spec_decode(*old(decoder), *old(instruction)).decoder,
            *final(instruction) == self.spec_decode(
                *old(decoder),
                *old(instruction),
            ).instruction,
            final(decoder).wf(),
            final(decoder).frame() == old(decoder).frame(),
    {
        reveal(OpCodeHandler_Ib::spec_decode);
        instruction.set_code(self.code);
        decoder.op_imm8(instruction, 0, OpKind::Immediate8);
    }
}

/// One 8-bit immediate after a ModRM byte that encodes no operand.
#[derive(Clone, Copy, Debug, PartialEq, Eq, Structural)]
pub struct OpCodeHandler_Ib3 {
    pub has_modrm: bool,
    pub code: u32,
}

impl OpCodeHandler_Ib3 {
    /// A handler that yields `code`.
    pub fn new(code: u32) -> (handler: Self)
        ensures
            handler == (Self { has_modrm: true, code }),
    {
        Self { has_modrm: true, code }
    }

    /// Decoder and record as [`Self::decode`] leaves them.
    #[verifier::opaque]
    pub open spec fn spec_decode(&self, d: Decoder, i: Instruction) -> Decoded {
        Decoded::at(d, i).code(self.code).imm8(0, OpKind::Immediate8)
    }

    /// Decodes the operands of the instruction into `instruction`.
    pub fn decode(&self, decoder: &mut Decoder, instruction: &mut Instruction)
        requires
            old(decoder).wf(),
            old(decoder).state.encoding == EncodingKind::Legacy,
        ensures
            *final(decoder) == self.spec_decode(*old(decoder), *old(instruction)).decoder,
            *final(instruction) == self.spec_decode(
                *old(decoder),
                *old(instruction),
            ).instruction,
            final(decoder).wf(),
            final(decoder).frame() == old(decoder).frame(),
    {
        reveal(OpCodeHandler_Ib3::spec_decode);
        instruction.set_code(self.code);
        decoder.op_imm8(instruction, 0, OpKind::Immediate8);
    }
}

/// The accumulator of the operand size, then an immediate of that size.
/// With 64-bit operands the immediate has 32 bits and is sign-extended.
#[derive(Clone, Copy, Debug, PartialEq, Eq, Structural)]
pub struct OpCodeHandler_Reg_Iz {
    pub has_modrm: bool,
    pub code16: u32,
    pub code32: u32,
    pub code64: u32,
}

impl OpCodeHandler_Reg_Iz {
    /// A handler that yields one of three codes by operand size.
    pub fn new(code16: u32, code32: u32, code64: u32) -> (handler: Self)
        ensures
            handler == (Self { has_modrm: false, code16, code32, code64 }),
    {
        Self { has_modrm: false, code16, code32, code64 }
    }

    /// Decoder and record as [`Self::decode`] leaves them.
    #[verifier::opaque]
    pub open spec fn spec_decode(&self, d: Decoder, i: Instruction) -> Decoded {
        let state = d.state;
        let x = Decoded::at(d, i);
        if state.operand_size == OpSize::Size32 {
            x
                .code(self.code32)
                .op_register(0, register::EAX)
                .imm32(1, OpKind::Immediate32)
        } else if state.operand_size == OpSize::Size64 {
            x
                .code(self.code64)
                .op_register(0, register::RAX)
                .imm32(1, OpKind::Immediate32to64)
        } else {
            x.code(self.code16).op_register(0, register::AX).imm16(1, OpKind::Immediate16)
        }
    }

    /// Decodes the operands of the instruction into `instruction`.
    pub fn decode(&self, decoder: &mut Decoder, instruction: &mut Instruction)
        requires
            old(decoder).wf(),
            old(decoder).state.encoding == EncodingKind::Legacy,
        ensures
            *final(decoder) == self.spec_decode(*old(decoder), *old(instruction)).decoder,
            *final(instruction) == self.spec_decode(
                *old(decoder),
                *old(instruction),
            ).instruction,
            final(decoder).wf(),
            final(decoder).frame() == old(decoder).frame(),
    {
        reveal(OpCodeHandler_Reg_Iz::spec_decode);
        let state: State = decoder.state;
        if state.operand_size == OpSize::Size32 {
            instruction.set_code(self.code32);
            instruction.set_op0_register(register::EAX);
            decoder.op_imm32(instruction, 1, OpKind::Immediate32);
        } else if state.operand_size == OpSize::Size64 {
            instruction.set_code(self.code64);
            instruction.set_op0_register(register::RAX);
            decoder.op_imm32(instruction, 1, OpKind::Immediate32to64);
        } else {
            instruction.set_code(self.code16);
            instruction.set_op0_register(register::AX);
            decoder.op_imm16(instruction, 1, OpKind::Immediate16);
        }
    }
}

/// `MOV r8, imm8`, the register given by the low bits of the opcode.
/// With a REX prefix the numbers 4 to 7 are SPL, BPL, SIL and DIL.
#[derive(Clone, Copy, Debug, PartialEq, Eq, Structural)]
pub struct OpCodeHandler_RegIb3 {
    pub has_modrm: bool,
    pub index: u32,
}

impl OpCodeHandler_RegIb3 {
    /// A handler for the opcode whose low bits are `index`.
    pub fn new(index: u32) -> (handler: Self)
        ensures
            handler == (Self { has_modrm: false, index }),
    {
        Self { has_modrm: false, index }
    }

    /// The low bits of an opcode are at most 7.
    pub open spec fn wf(&self) -> bool {
        self.index <= 7
    }

    /// Whether the handler is well-formed.
    #[verifier::when_used_as_spec(wf)]
    pub fn is_wf(&self) -> (b: bool)
        ensures
            b == self.wf(),
    {
        self.index <= 7
    }

    /// Decoder and record as [`Self::decode`] leaves them.
    #[verifier::opaque]
    pub open spec fn spec_decode(&self, d: Decoder, i: Instruction) -> Decoded {
        let state = d.state;
        Decoded::at(d, i)
            .code(code::Mov_r8_imm8)
            .op_register(0, state.opcode_byte_register(self.index))
            .imm8(1, OpKind::Immediate8)
    }

    /// Decodes the operands of the instruction into `instruction`.
    pub fn decode(&self, decoder: &mut Decoder, instruction: &mut Instruction)
        requires
            old(decoder).wf(),
            self.wf(),
            old(decoder).state.encoding == EncodingKind::Legacy,
        ensures
            *final(decoder) == self.spec_decode(*old(decoder), *old(instruction)).decoder,
            *final(instruction) == self.spec_decode(
                *old(decoder),
                *old(instruction),
            ).instruction,
            final(decoder).wf(),
            final(decoder).frame() == old(decoder).frame(),
    {
        reveal(OpCodeHandler_RegIb3::spec_decode);
        let state: State = decoder.state;
        instruction.set_code(code::Mov_r8_imm8);
        instruction.set_op0_register(state.opcode_byte_register(self.index));
        decoder.op_imm8(instruction, 1, OpKind::Immediate8);
    }
}

/// `MOV r, imm` in the operand size, the register given by the low bits of the opcode.
/// With 64-bit operands the immediate has all 64 bits.
#[derive(Clone, Copy, Debug, PartialEq, Eq, Structural)]
pub struct OpCodeHandler_RegIz2 {
    pub has_modrm: bool,
    pub index: u32,
}

impl OpCodeHandler_RegIz2 {
    /// A handler for the opcode whose low bits are `index`.
    pub fn new(index: u32) -> (handler: Self)
        ensures
            handler == (Self { has_modrm: false, index }),
    {
        Self { has_modrm: false, index }
    }

    /// The low bits of an opcode are at most 7.
    pub open spec fn wf(&self) -> bool {
        self.index <= 7
    }

    /// Whether the handler is well-formed.
    #[verifier::when_used_as_spec(wf)]
    pub fn is_wf(&self) -> (b: bool)
        ensures
            b == self.wf(),
    {
        self.index <= 7
    }

    /// Decoder and record as [`Self::decode`] leaves them.
    #[verifier::opaque]
    pub open spec fn spec_decode(&self, d: Decoder, i: Instruction) -> Decoded {
        let state = d.state;
        let x = Decoded::at(d, i);
        if state.operand_size == OpSize::Size32 {
            x
                .code(code::Mov_r32_imm32)
                .op_register(0, state.opcode_register(self.index, register::EAX))
                .imm32(1, OpKind::Immediate32)
        } else if state.operand_size == OpSize::Size64 {
            x
                .code(code::Mov_r64_imm64)
                .op_register(0, state.opcode_register(self.index, register::RAX))
                .imm64(1)
        } else {
            x
                .code(code::Mov_r16_imm16)
                .op_register(0, state.opcode_register(self.index, register::AX))
                .imm16(1, OpKind::Immediate16)
        }
    }

    /// Decodes the operands of the instruction into `instruction`.
    pub fn decode(&self, decoder: &mut Decoder, instruction: &mut Instruction)
        requires
            old(decoder).wf(),
            self.wf(),
            old(decoder).state.encoding == EncodingKind::Legacy,
        ensures
            *final(decoder) == self.spec_decode(*old(decoder), *old(instruction)).decoder,
            *final(instruction) == self.spec_decode(
                *old(decoder),
                *old(instruction),
            ).instruction,
            final(decoder).wf(),
            final(decoder).frame() == old(decoder).frame(),
    {
        reveal(OpCodeHandler_RegIz2::spec_decode);
        let state: State = decoder.state;
        if state.operand_size == OpSize::Size32 {
            instruction.set_code(code::Mov_r32_imm32);
            instruction.set_op0_register(state.opcode_register(self.index, register::EAX));
            decoder.op_imm32(instruction, 1, OpKind::Immediate32);
        } else if state.operand_size == OpSize::Size64 {
            instruction.set_code(code::Mov_r64_imm64);
            instruction.set_op0_register(state.opcode_register(self.index, register::RAX));
            decoder.op_imm64(instruction, 1);
        } else {
            instruction.set_code(code::Mov_r16_imm16);
            instruction.set_op0_register(state.opcode_register(self.index, register::AX));
            decoder.op_imm16(instruction, 1, OpKind::Immediate16);
        }
    }
}

/// An 8-bit immediate that is sign-extended to the size of a stack operand.
#[derive(Clone, Copy, Debug, PartialEq, Eq, Structural)]
pub struct OpCodeHandler_PushIb2 {
    pub has_modrm: bool,
    pub code16: u32,
    pub code32: u32,
    pub code64: u32,
}

impl OpCodeHandler_PushIb2 {
    /// A handler that yields one of three codes by stack operand size.
    pub fn new(code16: u32, code32: u32, code64: u32) -> (handler: Self)
        ensures
            handler == (Self { has_modrm: false, code16, code32, code64 }),
    {
        Self { has_modrm: false, code16, code32, code64 }
    }

    /// Decoder and record as [`Self::decode`] leaves them.
    #[verifier::opaque]
    pub open spec fn spec_decode(&self, d: Decoder, i: Instruction) -> Decoded {
        let state = d.state;
        let is64_mode = d.is64_mode;
        let x = Decoded::at(d, i);
        if is64_mode {
            if state.operand_size != OpSize::Size16 {
                x.code(self.code64).imm8(0, OpKind::Immediate8to64)
            } else {
                x.code(self.code16).imm8(0, OpKind::Immediate8to16)
            }
        } else {
            if state.operand_size == OpSize::Size32 {
                x.code(self.code32).imm8(0, OpKind::Immediate8to32)
            } else {
                x.code(self.code16).imm8(0, OpKind::Immediate8to16)
            }
        }
    }

    /// Decodes the operands of the instruction into `instruction`.
    pub fn decode(&self, decoder: &mut Decoder, instruction: &mut Instruction)
        requires
            old(decoder).wf(),
            old(decoder).state.encoding == EncodingKind::Legacy,
        ensures
            *final(decoder) == self.spec_decode(*old(decoder), *old(instruction)).decoder,
            *final(instruction) == self.spec_decode(
                *old(decoder),
                *old(instruction),
            ).instruction,
            final(decoder).wf(),
            final(decoder).frame() == old(decoder).frame(),
    {
        reveal(OpCodeHandler_PushIb2::spec_decode);
        let state: State = decoder.state;
        let is64_mode: bool = decoder.is64_mode;
        if is64_mode {
            if state.operand_size != OpSize::Size16 {
                instruction.set_code(self.code64);
                decoder.op_imm8(instruction, 0, OpKind::Immediate8to64);
            } else {
                instruction.set_code(self.code16);
                decoder.op_imm8(instruction, 0, OpKind::Immediate8to16);
            }
        } else {
            if state.operand_size == OpSize::Size32 {
                instruction.set_code(self.code32);
                decoder.op_imm8(instruction, 0, OpKind::Immediate8to32);
            } else {
                instruction.set_code(self.code16);
                decoder.op_imm8(instruction, 0, OpKind::Immediate8to16);
            }
        }
    }
}

/// An immediate of the size of a stack operand; for 64 bits it has 32 and is sign-extended.
#[derive(Clone, Copy, Debug, PartialEq, Eq, Structural)]
pub struct OpCodeHandler_PushIz {
    pub has_modrm: bool,
    pub code16: u32,
    pub code32: u32,
    pub code64: u32,
}

impl OpCodeHandler_PushIz {
    /// A handler that yields one of three codes by stack operand size.
    pub fn new(code16: u32, code32: u32, code64: u32) -> (handler: Self)
        ensures
            handler == (Self { has_modrm: false, code16, code32, code64 }),
    {
        Self { has_modrm: false, code16, code32, code64 }
    }

    /// Decoder and record as [`Self::decode`] leaves them.
    #[verifier::opaque]
    pub open spec fn spec_decode(&self, d: Decoder, i: Instruction) -> Decoded {
        let state = d.state;
        let is64_mode = d.is64_mode;
        let x = Decoded::at(d, i);
        if is64_mode {
            if state.operand_size != OpSize::Size16 {
                x.code(self.code64).imm32(0, OpKind::Immediate32to64)
            } else {
                x.code(self.code16).imm16(0, OpKind::Immediate16)
            }
        } else {
            if state.operand_size == OpSize::Size32 {
                x.code(self.code32).imm32(0, OpKind::Immediate32)
            } else {
                x.code(self.code16).imm16(0, OpKind::Immediate16)
            }
        }
    }

    /// Decodes the operands of the instruction into `instruction`.
    pub fn decode(&self, decoder: &mut Decoder, instruction: &mut Instruction)
        requires
            old(decoder).wf(),
            old(decoder).state.encoding == EncodingKind::Legacy,
        ensures
            *final(decoder) == self.spec_decode(*old(decoder), *old(instruction)).decoder,
            *final(instruction) == self.spec_decode(
                *old(decoder),
                *old(instruction),
            ).instruction,
            final(decoder).wf(),
            final(decoder).frame() == old(decoder).frame(),
    {
        reveal(OpCodeHandler_PushIz::spec_decode);
        let state: State = decoder.state;
        let is64_mode: bool = decoder.is64_mode;
        if is64_mode {
            if state.operand_size != OpSize::Size16 {
                instruction.set_code(self.code64);
                decoder.op_imm32(instruction, 0, OpKind::Immediate32to64);
            } else {
                instruction.set_code(self.code16);
                decoder.op_imm16(instruction, 0, OpKind::Immediate16);
            }
        } else {
            if state.operand_size == OpSize::Size32 {
                instruction.set_code(self.code32);
                decoder.op_imm32(instruction, 0, OpKind::Immediate32);
            } else {
                instruction.set_code(self.code16);
                decoder.op_imm16(instruction, 0, OpKind::Immediate16);
            }
        }
    }
}

/// One 16-bit immediate; the code goes by operand size.
#[derive(Clone, Copy, Debug, PartialEq, Eq, Structural)]
pub struct OpCodeHandler_Simple2Iw {
    pub has_modrm: bool,
    pub code16: u32,
    pub code32: u32,
    pub code64: u32,
}

impl OpCodeHandler_Simple2Iw {
    /// A handler that yields one of three codes by operand size.
    pub fn new(code16: u32, code32: u32, code64: u32) -> (handler: Self)
        ensures
            handler == (Self { has_modrm: false, code16, code32, code64 }),
    {
        Self { has_modrm: false, code16, code32, code64 }
    }

    /// Decoder and record as [`Self::decode`] leaves them.
    #[verifier::opaque]
    pub open spec fn spec_decode(&self, d: Decoder, i: Instruction) -> Decoded {
        let state = d.state;
        Decoded::at(d, i)
            .code(select3(state.operand_size, self.code16, self.code32, self.code64))
            .imm16(0, OpKind::Immediate16)
    }

    /// Decodes the operands of the instruction into `instruction`.
    pub fn decode(&self, decoder: &mut Decoder, instruction: &mut Instruction)
        requires
            old(decoder).wf(),
            old(decoder).state.encoding == EncodingKind::Legacy,
        ensures
            *final(decoder) == self.spec_decode(*old(decoder), *old(instruction)).decoder,
            *final(instruction) == self.spec_decode(
                *old(decoder),
                *old(instruction),
            ).instruction,
            final(decoder).wf(),
            final(decoder).frame() == old(decoder).frame(),
    {
        reveal(OpCodeHandler_Simple2Iw::spec_decode);
        let state: State = decoder.state;
        instruction.set_code(select3(state.operand_size, self.code16, self.code32, self.code64));
        decoder.op_imm16(instruction, 0, OpKind::Immediate16);
    }
}

/// A 16-bit immediate, then an 8-bit one; the code goes by stack operand size.
#[derive(Clone, Copy, Debug, PartialEq, Eq, Structural)]
pub struct OpCodeHandler_Iw_Ib {
    pub has_modrm: bool,
    pub code16: u32,
    pub code32: u32,
    pub code64: u32,
}

impl OpCodeHandler_Iw_Ib {
    /// A handler that yields one of three codes by stack operand size.
    pub fn new(code16: u32, code32: u32, code64: u32) -> (handler: Self)
        ensures
            handler == (Self { has_modrm: false, code16, code32, code64 }),
    {
        Self { has_modrm: false, code16, code32, code64 }
    }

    /// Decoder and record as [`Self::decode`] leaves them.
    #[verifier::opaque]
    pub open spec fn spec_decode(&self, d: Decoder, i: Instruction) -> Decoded {
        let state = d.state;
        let is64_mode = d.is64_mode;
        let x = Decoded::at(d, i);
        let size = stack_size(is64_mode, state.operand_size);
        x
            .code(select3(size, self.code16, self.code32, self.code64))
            .imm16(0, OpKind::Immediate16)
            .imm8_2nd(1)
    }

    /// Decodes the operands of the instruction into `instruction`.
    pub fn decode(&self, decoder: &mut Decoder, instruction: &mut Instruction)
        requires
            old(decoder).wf(),
            old(decoder).state.encoding == EncodingKind::Legacy,
        ensures
            *final(decoder) == self.spec_decode(*old(decoder), *old(instruction)).decoder,
            *final(instruction) == self.spec_decode(
                *old(decoder),
                *old(instruction),
            ).instruction,
            final(decoder).wf(),
            final(decoder).frame() == old(decoder).frame(),
    {
        reveal(OpCodeHandler_Iw_Ib::spec_decode);
        let state: State = decoder.state;
        let is64_mode: bool = decoder.is64_mode;
        let size: OpSize = stack_size(is64_mode, state.operand_size);
        instruction.set_code(select3(size, self.code16, self.code32, self.code64));
        decoder.op_imm16(instruction, 0, OpKind::Immediate16);
        decoder.op_imm8_2nd(instruction, 1);
    }
}

/// `AX` or `EAX`, then an 8-bit immediate.
#[derive(Clone, Copy, Debug, PartialEq, Eq, Structural)]
pub struct OpCodeHandler_Reg_Ib2 {
    pub has_modrm: bool,
    pub code16: u32,
    pub code32: u32,
}

impl OpCodeHandler_Reg_Ib2 {
    /// A handler that yields `code16` for 16-bit operands, else `code32`.
    pub fn new(code16: u32, code32: u32) -> (handler: Self)
        ensures
            handler == (Self { has_modrm: false, code16, code32 }),
    {
        Self { has_modrm: false, code16, code32 }
    }

    /// Decoder and record as [`Self::decode`] leaves them.
    #[verifier::opaque]
    pub open spec fn spec_decode(&self, d: Decoder, i: Instruction) -> Decoded {
        let state = d.state;
        Decoded::at(d, i)
            .code(if state.operand_size != OpSize::Size16 { self.code32 } else { self.code16 })
            .op_register(0, register::gpr16_or_32(state.operand_size))
            .imm8(1, OpKind::Immediate8)
    }

    /// Decodes the operands of the instruction into `instruction`.
    pub fn decode(&self, decoder: &mut Decoder, instruction: &mut Instruction)
        requires
            old(decoder).wf(),
            old(decoder).state.encoding == EncodingKind::Legacy,
        ensures
            *final(decoder) == self.spec_decode(*old(decoder), *old(instruction)).decoder,
            *final(instruction) == self.spec_decode(
                *old(decoder),
                *old(instruction),
            ).instruction,
            final(decoder).wf(),
            final(decoder).frame() == old(decoder).frame(),
    {
        reveal(OpCodeHandler_Reg_Ib2::spec_decode);
        let state: State = decoder.state;
        instruction.set_code(
            if state.operand_size != OpSize::Size16 { self.code32 } else { self.code16 },
        );
        instruction.set_op0_register(register::gpr16_or_32(state.operand_size));
        decoder.op_imm8(instruction, 1, OpKind::Immediate8);
    }
}

/// An 8-bit immediate, then `AX` or `EAX`.
#[derive(Clone, Copy, Debug, PartialEq, Eq, Structural)]
pub struct OpCodeHandler_IbReg2 {
    pub has_modrm: bool,
    pub code16: u32,
    pub code32: u32,
}

impl OpCodeHandler_IbReg2 {
    /// A handler that yields `code16` for 16-bit operands, else `code32`.
    pub fn new(code16: u32, code32: u32) -> (handler: Self)
        ensures
            handler == (Self { has_modrm: false, code16, code32 }),
    {
        Self { has_modrm: false, code16, code32 }
    }

    /// Decoder and record as [`Self::decode`] leaves them.
    #[verifier::opaque]
    pub open spec fn spec_decode(&self, d: Decoder, i: Instruction) -> Decoded {
        let state = d.state;
        Decoded::at(d, i)
            .imm8(0, OpKind::Immediate8)
            .code(if state.operand_size != OpSize::Size16 { self.code32 } else { self.code16 })
            .op_register(1, register::gpr16_or_32(state.operand_size))
    }

    /// Decodes the operands of the instruction into `instruction`.
    pub fn decode(&self, decoder: &mut Decoder, instruction: &mut Instruction)
        requires
            old(decoder).wf(),
            old(decoder).state.encoding == EncodingKind::Legacy,
        ensures
            *final(decoder) == self.spec_decode(*old(decoder), *old(instruction)).decoder,
            *final(instruction) == self.spec_decode(
                *old(decoder),
                *old(instruction),
            ).instruction,
            final(decoder).wf(),
            final(decoder).frame() == old(decoder).frame(),
    {
        reveal(OpCodeHandler_IbReg2::spec_decode);
        let state: State = decoder.state;
        decoder.op_imm8(instruction, 0, OpKind::Immediate8);
        instruction.set_code(
            if state.operand_size != OpSize::Size16 { self.code32 } else { self.code16 },
        );
        instruction.set_op1_register(register::gpr16_or_32(state.operand_size));
    }
}

/// The operands `AX, DX` or `EAX, DX`.
#[derive(Clone, Copy, Debug, PartialEq, Eq, Structural)]
pub struct OpCodeHandler_eAX_DX {
    pub has_modrm: bool,
    pub code16: u32,
    pub code32: u32,
}

impl OpCodeHandler_eAX_DX {
    /// A handler that yields `code16` for 16-bit operands, else `code32`.
    pub fn new(code16: u32, code32: u32) -> (handler: Self)
        ensures
            handler == (Self { has_modrm: false, code16, code32 }),
    {
        Self { has_modrm: false, code16, code32 }
    }

    /// Decoder and record as [`Self::decode`] leaves them.
    #[verifier::opaque]
    pub open spec fn spec_decode(&self, d: Decoder, i: Instruction) -> Decoded {
        let state = d.state;
        Decoded::at(d, i)
            .code(if state.operand_size != OpSize::Size16 { self.code32 } else { self.code16 })
            .op_register(0, register::gpr16_or_32(state.operand_size))
            .op_register(1, register::DX)
    }

    /// Decodes the operands of the instruction into `instruction`.
    pub fn decode(&self, decoder: &mut Decoder, instruction: &mut Instruction)
        requires
            old(decoder).wf(),
            old(decoder).state.encoding == EncodingKind::Legacy,
        ensures
            *final(decoder) == self.spec_decode(*old(decoder), *old(instruction)).decoder,
            *final(instruction) == self.spec_decode(
                *old(decoder),
                *old(instruction),
            ).instruction,
            final(decoder).wf(),
            final(decoder).frame() == old(decoder).frame(),
    {
        reveal(OpCodeHandler_eAX_DX::spec_decode);
        let state: State = decoder.state;
        instruction.set_code(
            if state.operand_size != OpSize::Size16 { self.code32 } else { self.code16 },
        );
        instruction.set_op0_register(register::gpr16_or_32(state.operand_size));
        instruction.set_op1_register(register::DX);
    }
}

/// The operands `DX, AX` or `DX, EAX`.
#[derive(Clone, Copy, Debug, PartialEq, Eq, Structural)]
pub struct OpCodeHandler_DX_eAX {
    pub has_modrm: bool,
    pub code16: u32,
    pub code32: u32,
}

impl OpCodeHandler_DX_eAX {
    /// A handler that yields `code16` for 16-bit operands, else `code32`.
    pub fn new(code16: u32, code32: u32) -> (handler: Self)
        ensures
            handler == (Self { has_modrm: false, code16, code32 }),
    {
        Self { has_modrm: false, code16, code32 }
    }

    /// Decoder and record as [`Self::decode`] leaves them.
    #[verifier::opaque]
    pub open spec fn spec_decode(&self, d: Decoder, i: Instruction) -> Decoded {
        let state = d.state;
        Decoded::at(d, i)
            .op_register(0, register::DX)
            .code(if state.operand_size != OpSize::Size16 { self.code32 } else { self.code16 })
            .op_register(1, register::gpr16_or_32(state.operand_size))
    }

    /// Decodes the operands of the instruction into `instruction`.
    pub fn decode(&self, decoder: &mut Decoder, instruction: &mut Instruction)
        requires
            old(decoder).wf(),
            old(decoder).state.encoding == EncodingKind::Legacy,
        ensures
            *final(decoder) == self.spec_decode(*old(decoder), *old(instruction)).decoder,
            *final(instruction) == self.spec_decode(
                *old(decoder),
                *old(instruction),
            ).instruction,
            final(decoder).wf(),
            final(decoder).frame() == old(decoder).frame(),
    {
        reveal(OpCodeHandler_DX_eAX::spec_decode);
        let state: State = decoder.state;
        instruction.set_op0_register(register::DX);
        instruction.set_code(
            if state.operand_size != OpSize::Size16 { self.code32 } else { self.code16 },
        );
        instruction.set_op1_register(register::gpr16_or_32(state.operand_size));
    }
}

/// A handler of fixed registers and immediates.
#[derive(Clone, Copy, Debug, PartialEq, Eq, Structural)]
pub enum ImmHandler {
    Reg(OpCodeHandler_Reg),
    RegIb(OpCodeHandler_RegIb),
    IbReg(OpCodeHandler_IbReg),
    AL_DX(OpCodeHandler_AL_DX),
    DX_AL(OpCodeHandler_DX_AL),
    Ib(OpCodeHandler_Ib),
    Ib3(OpCodeHandler_Ib3),
    Reg_Iz(OpCodeHandler_Reg_Iz),
    RegIb3(OpCodeHandler_RegIb3),
    RegIz2(OpCodeHandler_RegIz2),
    PushIb2(OpCodeHandler_PushIb2),
    PushIz(OpCodeHandler_PushIz),
    Simple2Iw(OpCodeHandler_Simple2Iw),
    Iw_Ib(OpCodeHandler_Iw_Ib),
    Reg_Ib2(OpCodeHandler_Reg_Ib2),
    IbReg2(OpCodeHandler_IbReg2),
    eAX_DX(OpCodeHandler_eAX_DX),
    DX_eAX(OpCodeHandler_DX_eAX),
}

impl ImmHandler {
    /// Whether a ModRM byte follows the opcode.
    pub open spec fn spec_has_modrm(&self) -> bool {
        match self {
            ImmHandler::Reg(h) => h.has_modrm,
            ImmHandler::RegIb(h) => h.has_modrm,
            ImmHandler::IbReg(h) => h.has_modrm,
            ImmHandler::AL_DX(h) => h.has_modrm,
            ImmHandler::DX_AL(h) => h.has_modrm,
            ImmHandler::Ib(h) => h.has_modrm,
            ImmHandler::Ib3(h) => h.has_modrm,
            ImmHandler::Reg_Iz(h) => h.has_modrm,
            ImmHandler::RegIb3(h) => h.has_modrm,
            ImmHandler::RegIz2(h) => h.has_modrm,
            ImmHandler::PushIb2(h) => h.has_modrm,
            ImmHandler::PushIz(h) => h.has_modrm,
            ImmHandler::Simple2Iw(h) => h.has_modrm,
            ImmHandler::Iw_Ib(h) => h.has_modrm,
            ImmHandler::Reg_Ib2(h) => h.has_modrm,
            ImmHandler::IbReg2(h) => h.has_modrm,
            ImmHandler::eAX_DX(h) => h.has_modrm,
            ImmHandler::DX_eAX(h) => h.has_modrm,
        }
    }

    /// Whether a ModRM byte follows the opcode.
    #[verifier::when_used_as_spec(spec_has_modrm)]
    pub fn has_modrm(&self) -> (b: bool)
        ensures
            b == self.spec_has_modrm(),
    {
        match self {
            ImmHandler::Reg(h) => h.has_modrm,
            ImmHandler::RegIb(h) => h.has_modrm,
            ImmHandler::IbReg(h) => h.has_modrm,
            ImmHandler::AL_DX(h) => h.has_modrm,
            ImmHandler::DX_AL(h) => h.has_modrm,
            ImmHandler::Ib(h) => h.has_modrm,
            ImmHandler::Ib3(h) => h.has_modrm,
            ImmHandler::Reg_Iz(h) => h.has_modrm,
            ImmHandler::RegIb3(h) => h.has_modrm,
            ImmHandler::RegIz2(h) => h.has_modrm,
            ImmHandler::PushIb2(h) => h.has_modrm,
            ImmHandler::PushIz(h) => h.has_modrm,
            ImmHandler::Simple2Iw(h) => h.has_modrm,
            ImmHandler::Iw_Ib(h) => h.has_modrm,
            ImmHandler::Reg_Ib2(h) => h.has_modrm,
            ImmHandler::IbReg2(h) => h.has_modrm,
            ImmHandler::eAX_DX(h) => h.has_modrm,
            ImmHandler::DX_eAX(h) => h.has_modrm,
        }
    }

    /// The handler is well-formed.
    pub open spec fn wf(&self) -> bool {
        match self {
            ImmHandler::Reg(_) => true,
            ImmHandler::RegIb(_) => true,
            ImmHandler::IbReg(_) => true,
            ImmHandler::AL_DX(_) => true,
            ImmHandler::DX_AL(_) => true,
            ImmHandler::Ib(_) => true,
            ImmHandler::Ib3(_) => true,
            ImmHandler::Reg_Iz(_) => true,
            ImmHandler::RegIb3(h) => h.wf(),
            ImmHandler::RegIz2(h) => h.wf(),
            ImmHandler::PushIb2(_) => true,
            ImmHandler::PushIz(_) => true,
            ImmHandler::Simple2Iw(_) => true,
            ImmHandler::Iw_Ib(_) => true,
            ImmHandler::Reg_Ib2(_) => true,
            ImmHandler::IbReg2(_) => true,
            ImmHandler::eAX_DX(_) => true,
            ImmHandler::DX_eAX(_) => true,
        }
    }

    /// Whether the handler is well-formed.
    #[verifier::when_used_as_spec(wf)]
    pub fn is_wf(&self) -> (b: bool)
        ensures
            b == self.wf(),
    {
        match self {
            ImmHandler::Reg(_) => true,
            ImmHandler::RegIb(_) => true,
            ImmHandler::IbReg(_) => true,
            ImmHandler::AL_DX(_) => true,
            ImmHandler::DX_AL(_) => true,
            ImmHandler::Ib(_) => true,
            ImmHandler::Ib3(_) => true,
            ImmHandler::Reg_Iz(_) => true,
            ImmHandler::RegIb3(h) => h.is_wf(),
            ImmHandler::RegIz2(h) => h.is_wf(),
            ImmHandler::PushIb2(_) => true,
            ImmHandler::PushIz(_) => true,
            ImmHandler::Simple2Iw(_) => true,
            ImmHandler::Iw_Ib(_) => true,
            ImmHandler::Reg_Ib2(_) => true,
            ImmHandler::IbReg2(_) => true,
            ImmHandler::eAX_DX(_) => true,
            ImmHandler::DX_eAX(_) => true,
        }
    }

    /// Decoder and record as [`Self::decode`] leaves them.
    #[verifier::opaque]
    pub open spec fn spec_decode(&self, d: Decoder, i: Instruction) -> Decoded {
        match self {
            ImmHandler::Reg(h) => h.spec_decode(d, i),
            ImmHandler::RegIb(h) => h.spec_decode(d, i),
            ImmHandler::IbReg(h) => h.spec_decode(d, i),
            ImmHandler::AL_DX(h) => h.spec_decode(d, i),
            ImmHandler::DX_AL(h) => h.spec_decode(d, i),
            ImmHandler::Ib(h) => h.spec_decode(d, i),
            ImmHandler::Ib3(h) => h.spec_decode(d, i),
            ImmHandler::Reg_Iz(h) => h.spec_decode(d, i),
            ImmHandler::RegIb3(h) => h.spec_decode(d, i),
            ImmHandler::RegIz2(h) => h.spec_decode(d, i),
            ImmHandler::PushIb2(h) => h.spec_decode(d, i),
            ImmHandler::PushIz(h) => h.spec_decode(d, i),
            ImmHandler::Simple2Iw(h) => h.spec_decode(d, i),
            ImmHandler::Iw_Ib(h) => h.spec_decode(d, i),
            ImmHandler::Reg_Ib2(h) => h.spec_decode(d, i),
            ImmHandler::IbReg2(h) => h.spec_decode(d, i),
            ImmHandler::eAX_DX(h) => h.spec_decode(d, i),
            ImmHandler::DX_eAX(h) => h.spec_decode(d, i),
        }
    }

    /// Decodes the operands of the instruction with the handler that `self` holds.
    pub fn decode(&self, decoder: &mut Decoder, instruction: &mut Instruction)
        requires
            old(decoder).wf(),
            self.wf(),
            old(decoder).state.encoding == EncodingKind::Legacy,
        ensures
            *final(decoder) == self.spec_decode(*old(decoder), *old(instruction)).decoder,
            *final(instruction) == self.spec_decode(
                *old(decoder),
                *old(instruction),
            ).instruction,
            final(decoder).wf(),
            final(decoder).frame() == old(decoder).frame(),
    {
        reveal(ImmHandler::spec_decode);
        match self {
            ImmHandler::Reg(h) => h.decode(decoder, instruction),
            ImmHandler::RegIb(h) => h.decode(decoder, instruction),
            ImmHandler::IbReg(h) => h.decode(decoder, instruction),
            ImmHandler::AL_DX(h) => h.decode(decoder, instruction),
            ImmHandler::DX_AL(h) => h.decode(decoder, instruction),
            ImmHandler::Ib(h) => h.decode(decoder, instruction),
            ImmHandler::Ib3(h) => h.decode(decoder, instruction),
            ImmHandler::Reg_Iz(h) => h.decode(decoder, instruction),
            ImmHandler::RegIb3(h) => h.decode(decoder, instruction),
            ImmHandler::RegIz2(h) => h.decode(decoder, instruction),
            ImmHandler::PushIb2(h) => h.decode(decoder, instruction),
            ImmHandler::PushIz(h) => h.decode(decoder, instruction),
            ImmHandler::Simple2Iw(h) => h.decode(decoder, instruction),
            ImmHandler::Iw_Ib(h) => h.decode(decoder, instruction),
            ImmHandler::Reg_Ib2(h) => h.decode(decoder, instruction),
            ImmHandler::IbReg2(h) => h.decode(decoder, instruction),
            ImmHandler::eAX_DX(h) => h.decode(decoder, instruction),
            ImmHandler::DX_eAX(h) => h.decode(decoder, instruction),
        }
    }
}

} // verus!
