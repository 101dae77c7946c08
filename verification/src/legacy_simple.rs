//! Legacy handlers without an encoded operand, or with one that the opcode alone gives.
use vstd::prelude::*;
use crate::code;
use crate::decoder::{Decoder, State};
use crate::enums::{EncodingKind, MandatoryPrefixByte, OpKind, OpSize};
use crate::instruction::Instruction;
use crate::operand::{branch_size, offset_code, select3, stack_size, xchg_reg_rax_code, Decoded};
use crate::options::{has_flag, DecoderOptions};
use crate::register;

verus! {

/// No operand; the code goes by stack operand size.
#[derive(Clone, Copy, Debug, PartialEq, Eq, Structural)]
pub struct OpCodeHandler_PushSimple2 {
    pub has_modrm: bool,
    pub code16: u32,
    pub code32: u32,
    pub code64: u32,
}

impl OpCodeHandler_PushSimple2 {
    /// A handler that yields one of three codes by stack operand size.
    pub fn new(code16: u32, code32: u32, code64: u32) -> (handler: Self)
        ensures
            handler == (Self { has_modrm: false, code16, code32, code64 }),
    {
        Self { has_modrm: false, code16, code32, code64 }
    }

    /// Decoder and record as [`Self::decode`] leaves them.
    #[verifier::opaque]
    pub open spec fn spec_decode(&self, d: Decoder, i: Instruction) -> Decoded {
        let state = d.state;
        let is64_mode = d.is64_mode;
        let x = Decoded::at(d, i);
        let size = stack_size(is64_mode, state.operand_size);
        x.code(select3(size, self.code16, self.code32, self.code64))
    }

    /// Decodes the operands of the instruction into `instruction`.
    pub fn decode(&self, decoder: &mut Decoder, instruction: &mut Instruction)
        requires
            old(decoder).wf(),
            old(decoder).state.encoding == EncodingKind::Legacy,
        ensures
            *final(decoder) == self.spec_decode(*old(decoder), *old(instruction)).decoder,
            *final(instruction) == self.spec_decode(
                *old(decoder),
                *old(instruction),
            ).instruction,
            final(decoder).wf(),
            final(decoder).frame() == old(decoder).frame(),
    {
        reveal(OpCodeHandler_PushSimple2::spec_decode);
        let state: State = decoder.state;
        let is64_mode: bool = decoder.is64_mode;
        let size: OpSize = stack_size(is64_mode, state.operand_size);
        instruction.set_code(select3(size, self.code16, self.code32, self.code64));
    }
}

/// No operand; the code goes by operand size.
#[derive(Clone, Copy, Debug, PartialEq, Eq, Structural)]
pub struct OpCodeHandler_Simple2 {
    pub has_modrm: bool,
    pub code16: u32,
    pub code32: u32,
    pub code64: u32,
}

impl OpCodeHandler_Simple2 {
    /// A handler that yields one of three codes by operand size.
    pub fn new(code16: u32, code32: u32, code64: u32) -> (handler: Self)
        ensures
            handler == (Self { has_modrm: false, code16, code32, code64 }),
    {
        Self { has_modrm: false, code16, code32, code64 }
    }

    /// Decoder and record as [`Self::decode`] leaves them.
    #[verifier::opaque]
    pub open spec fn spec_decode(&self, d: Decoder, i: Instruction) -> Decoded {
        let state = d.state;
        Decoded::at(d, i)
            .code(select3(state.operand_size, self.code16, self.code32, self.code64))
    }

    /// Decodes the operands of the instruction into `instruction`.
    pub fn decode(&self, decoder: &mut Decoder, instruction: &mut Instruction)
        requires
            old(decoder).wf(),
            old(decoder).state.encoding == EncodingKind::Legacy,
        ensures
            *final(decoder) == self.spec_decode(*old(decoder), *old(instruction)).decoder,
            *final(instruction) == self.spec_decode(
                *old(decoder),
                *old(instruction),
            ).instruction,
            final(decoder).wf(),
            final(decoder).frame() == old(decoder).frame(),
    {
        reveal(OpCodeHandler_Simple2::spec_decode);
        let state: State = decoder.state;
        instruction.set_code(select3(state.operand_size, self.code16, self.code32, self.code64));
    }
}

/// No operand; the code goes by stack operand size.
#[derive(Clone, Copy, Debug, PartialEq, Eq, Structural)]
pub struct OpCodeHandler_Simple3 {
    pub has_modrm: bool,
    pub code16: u32,
    pub code32: u32,
    pub code64: u32,
}

impl OpCodeHandler_Simple3 {
    /// A handler that yields one of three codes by stack operand size.
    pub fn new(code16: u32, code32: u32, code64: u32) -> (handler: Self)
        ensures
            handler == (Self { has_modrm: false, code16, code32, code64 }),
    {
        Self { has_modrm: false, code16, code32, code64 }
    }

    /// Decoder and record as [`Self::decode`] leaves them.
    #[verifier::opaque]
    pub open spec fn spec_decode(&self, d: Decoder, i: Instruction) -> Decoded {
        let state = d.state;
        let is64_mode = d.is64_mode;
        let x = Decoded::at(d, i);
        let size = stack_size(is64_mode, state.operand_size);
        x.code(select3(size, self.code16, self.code32, self.code64))
    }

    /// Decodes the operands of the instruction into `instruction`.
    pub fn decode(&self, decoder: &mut Decoder, instruction: &mut Instruction)
        requires
            old(decoder).wf(),
            old(decoder).state.encoding == EncodingKind::Legacy,
        ensures
            *final(decoder) == self.spec_decode(*old(decoder), *old(instruction)).decoder,
            *final(instruction) == self.spec_decode(
                *old(decoder),
                *old(instruction),
            ).instruction,
            final(decoder).wf(),
            final(decoder).frame() == old(decoder).frame(),
    {
        reveal(OpCodeHandler_Simple3::spec_decode);
        let state: State = decoder.state;
        let is64_mode: bool = decoder.is64_mode;
        let size: OpSize = stack_size(is64_mode, state.operand_size);
        instruction.set_code(select3(size, self.code16, self.code32, self.code64));
    }
}

/// No operand; the code goes by address size.
#[derive(Clone, Copy, Debug, PartialEq, Eq, Structural)]
pub struct OpCodeHandler_Simple5 {
    pub has_modrm: bool,
    pub code16: u32,
    pub code32: u32,
    pub code64: u32,
}

impl OpCodeHandler_Simple5 {
    /// A handler that yields one of three codes by address size.
    pub fn new(code16: u32, code32: u32, code64: u32) -> (handler: Self)
        ensures
            handler == (Self { has_modrm: false, code16, code32, code64 }),
    {
        Self { has_modrm: false, code16, code32, code64 }
    }

    /// Decoder and record as [`Self::decode`] leaves them.
    #[verifier::opaque]
    pub open spec fn spec_decode(&self, d: Decoder, i: Instruction) -> Decoded {
        let state = d.state;
        Decoded::at(d, i)
            .code(select3(state.address_size, self.code16, self.code32, self.code64))
    }

    /// Decodes the operands of the instruction into `instruction`.
    pub fn decode(&self, decoder: &mut Decoder, instruction: &mut Instruction)
        requires
            old(decoder).wf(),
            old(decoder).state.encoding == EncodingKind::Legacy,
        ensures
            *final(decoder) == self.spec_decode(*old(decoder), *old(instruction)).decoder,
            *final(instruction) == self.spec_decode(
                *old(decoder),
                *old(instruction),
            ).instruction,
            final(decoder).wf(),
            final(decoder).frame() == old(decoder).frame(),
    {
        reveal(OpCodeHandler_Simple5::spec_decode);
        let state: State = decoder.state;
        instruction.set_code(select3(state.address_size, self.code16, self.code32, self.code64));
    }
}

/// The register that rm selects, in the address size.
#[derive(Clone, Copy, Debug, PartialEq, Eq, Structural)]
pub struct OpCodeHandler_Simple5_ModRM_as {
    pub has_modrm: bool,
    pub code16: u32,
    pub code32: u32,
    pub code64: u32,
}

impl OpCodeHandler_Simple5_ModRM_as {
    /// A handler that yields one of three codes by address size.
    pub fn new(code16: u32, code32: u32, code64: u32) -> (handler: Self)
        ensures
            handler == (Self { has_modrm: true, code16, code32, code64 }),
    {
        Self { has_modrm: true, code16, code32, code64 }
    }

    /// Decoder and record as [`Self::decode`] leaves them.
    #[verifier::opaque]
    pub open spec fn spec_decode(&self, d: Decoder, i: Instruction) -> Decoded {
        let state = d.state;
        Decoded::at(d, i)
            .code(select3(state.address_size, self.code16, self.code32, self.code64))
            .op_register(0, state.rm_register(register::gpr_base(state.address_size)))
    }

    /// Decodes the operands of the instruction into `instruction`.
    pub fn decode(&self, decoder: &mut Decoder, instruction: &mut Instruction)
        requires
            old(decoder).wf(),
            old(decoder).state.encoding == EncodingKind::Legacy,
        ensures
            *final(decoder) == self.spec_decode(*old(decoder), *old(instruction)).decoder,
            *final(instruction) == self.spec_decode(
                *old(decoder),
                *old(instruction),
            ).instruction,
            final(decoder).wf(),
            final(decoder).frame() == old(decoder).frame(),
    {
        reveal(OpCodeHandler_Simple5_ModRM_as::spec_decode);
        let state: State = decoder.state;
        instruction.set_code(select3(state.address_size, self.code16, self.code32, self.code64));
        instruction.set_op0_register(state.rm_register(register::gpr_base(state.address_size)));
    }
}

/// No operand; the code goes by the W bit.
#[derive(Clone, Copy, Debug, PartialEq, Eq, Structural)]
pub struct OpCodeHandler_Simple4 {
    pub has_modrm: bool,
    pub code32: u32,
    pub code64: u32,
}

impl OpCodeHandler_Simple4 {
    /// A handler that yields `code64` under W, else `code32`.
    pub fn new(code32: u32, code64: u32) -> (handler: Self)
        ensures
            handler == (Self { has_modrm: false, code32, code64 }),
    {
        Self { has_modrm: false, code32, code64 }
    }

    /// Decoder and record as [`Self::decode`] leaves them.
    #[verifier::opaque]
    pub open spec fn spec_decode(&self, d: Decoder, i: Instruction) -> Decoded {
        let state = d.state;
        Decoded::at(d, i).code(if state.flags.w { self.code64 } else { self.code32 })
    }

    /// Decodes the operands of the instruction into `instruction`.
    pub fn decode(&self, decoder: &mut Decoder, instruction: &mut Instruction)
        requires
            old(decoder).wf(),
            old(decoder).state.encoding == EncodingKind::Legacy,
        ensures
            *final(decoder) == self.spec_decode(*old(decoder), *old(instruction)).decoder,
            *final(instruction) == self.spec_decode(
                *old(decoder),
                *old(instruction),
            ).instruction,
            final(decoder).wf(),
            final(decoder).frame() == old(decoder).frame(),
    {
        reveal(OpCodeHandler_Simple4::spec_decode);
        let state: State = decoder.state;
        instruction.set_code(if state.flags.w { self.code64 } else { self.code32 });
    }
}

/// The register given by the low bits of the opcode, in the stack operand size.
#[derive(Clone, Copy, Debug, PartialEq, Eq, Structural)]
pub struct OpCodeHandler_PushSimpleReg {
    pub has_modrm: bool,
    pub index: u32,
    pub code16: u32,
    pub code32: u32,
    pub code64: u32,
}

impl OpCodeHandler_PushSimpleReg {
    /// A handler for the opcode whose low bits are `index`.
    pub fn new(index: u32, code16: u32, code32: u32, code64: u32) -> (handler: Self)
        ensures
            handler == (Self { has_modrm: false, index, code16, code32, code64 }),
    {
        Self { has_modrm: false, index, code16, code32, code64 }
    }

    /// The low bits of an opcode are at most 7.
    pub open spec fn wf(&self) -> bool {
        self.index <= 7
    }

    /// Whether the handler is well-formed.
    #[verifier::when_used_as_spec(wf)]
    pub fn is_wf(&self) -> (b: bool)
        ensures
            b == self.wf(),
    {
        self.index <= 7
    }

    /// Decoder and record as [`Self::decode`] leaves them.
    #[verifier::opaque]
    pub open spec fn spec_decode(&self, d: Decoder, i: Instruction) -> Decoded {
        let state = d.state;
        let is64_mode = d.is64_mode;
        let x = Decoded::at(d, i);
        let size = stack_size(is64_mode, state.operand_size);
        x
            .code(select3(size, self.code16, self.code32, self.code64))
            .op_register(0, state.opcode_register(self.index, register::gpr_base(size)))
    }

    /// Decodes the operands of the instruction into `instruction`.
    pub fn decode(&self, decoder: &mut Decoder, instruction: &mut Instruction)
        requires
            old(decoder).wf(),
            self.wf(),
            old(decoder).state.encoding == EncodingKind::Legacy,
        ensures
            *final(decoder) == self.spec_decode(*old(decoder), *old(instruction)).decoder,
            *final(instruction) == self.spec_decode(
                *old(decoder),
                *old(instruction),
            ).instruction,
            final(decoder).wf(),
            final(decoder).frame() == old(decoder).frame(),
    {
        reveal(OpCodeHandler_PushSimpleReg::spec_decode);
        let state: State = decoder.state;
        let is64_mode: bool = decoder.is64_mode;
        let size: OpSize = stack_size(is64_mode, state.operand_size);
        instruction.set_code(select3(size, self.code16, self.code32, self.code64));
        instruction.set_op0_register(state.opcode_register(self.index, register::gpr_base(size)));
    }
}

/// The register given by the low bits of the opcode, in the operand size.
/// The codes of the three sizes follow one another, the 16-bit one first.
#[derive(Clone, Copy, Debug, PartialEq, Eq, Structural)]
pub struct OpCodeHandler_SimpleReg {
    pub has_modrm: bool,
    pub code: u32,
    pub index: u32,
}

impl OpCodeHandler_SimpleReg {
    /// A handler for the opcode whose low bits are `index`; `code` is the 16-bit code.
    pub fn new(code: u32, index: u32) -> (handler: Self)
        ensures
            handler == (Self { has_modrm: false, code, index }),
    {
        Self { has_modrm: false, code, index }
    }

    /// The low bits of an opcode are at most 7, and two more codes follow `code`.
    pub open spec fn wf(&self) -> bool {
        &&& self.index <= 7
        &&& self.code <= 0xFFFF_FFFD
    }

    /// Whether the handler is well-formed.
    #[verifier::when_used_as_spec(wf)]
    pub fn is_wf(&self) -> (b: bool)
        ensures
            b == self.wf(),
    {
        self.index <= 7 && self.code <= 0xFFFF_FFFD
    }

    /// Decoder and record as [`Self::decode`] leaves them.
    #[verifier::opaque]
    pub open spec fn spec_decode(&self, d: Decoder, i: Instruction) -> Decoded {
        let state = d.state;
        Decoded::at(d, i)
            .code(offset_code(self.code, state.operand_size))
            .op_register(
                0,
                state.opcode_register(self.index, register::gpr_base(state.operand_size)),
            )
    }

    /// Decodes the operands of the instruction into `instruction`.
    pub fn decode(&self, decoder: &mut Decoder, instruction: &mut Instruction)
        requires
            old(decoder).wf(),
            self.wf(),
            old(decoder).state.encoding == EncodingKind::Legacy,
        ensures
            *final(decoder) == self.spec_decode(*old(decoder), *old(instruction)).decoder,
            *final(instruction) == self.spec_decode(
                *old(decoder),
                *old(instruction),
            ).instruction,
            final(decoder).wf(),
            final(decoder).frame() == old(decoder).frame(),
    {
        reveal(OpCodeHandler_SimpleReg::spec_decode);
        let state: State = decoder.state;
        instruction.set_code(offset_code(self.code, state.operand_size));
        instruction.set_op0_register(
            state.opcode_register(self.index, register::gpr_base(state.operand_size)),
        );
    }
}

/// `XCHG r, rAX`, the register given by the low bits of the opcode.
///
/// The register with number 0 is the accumulator itself: that form is `NOP`,
/// and with a mandatory `F3` it is `PAUSE`, unless the options say otherwise.
/// An extension bit selects another register, and so an `XCHG`.
#[derive(Clone, Copy, Debug, PartialEq, Eq, Structural)]
pub struct OpCodeHandler_Xchg_Reg_rAX {
    pub has_modrm: bool,
    pub index: u32,
}

impl OpCodeHandler_Xchg_Reg_rAX {
    /// A handler for the opcode whose low bits are `index`.
    pub fn new(index: u32) -> (handler: Self)
        ensures
            handler == (Self { has_modrm: false, index }),
    {
        Self { has_modrm: false, index }
    }

    /// The low bits of an opcode are at most 7.
    pub open spec fn wf(&self) -> bool {
        self.index <= 7
    }

    /// Whether the handler is well-formed.
    #[verifier::when_used_as_spec(wf)]
    pub fn is_wf(&self) -> (b: bool)
        ensures
            b == self.wf(),
    {
        self.index <= 7
    }

    /// Decoder and record as [`Self::decode`] leaves them.
    #[verifier::opaque]
    pub open spec fn spec_decode(&self, d: Decoder, i: Instruction) -> Decoded {
        let state = d.state;
        let options = d.options;
        let x = Decoded::at(d, i);
        let code_index = state.opcode_index(self.index);
        if code_index == 0
            && state.mandatory_prefix == MandatoryPrefixByte::PF3
            && !has_flag(options, DecoderOptions::NO_PAUSE)
        {
            x.clear_mandatory_prefix_f3().code(code::Pause)
        } else {
            let x = x.code(xchg_reg_rax_code(state.operand_size, code_index));
            if code_index != 0 {
                x
                    .op_register(
                        0,
                        state.opcode_register(self.index, register::gpr_base(state.operand_size)),
                    )
                    .op_register(1, register::gpr_base(state.operand_size))
            } else {
                x
            }
        }
    }

    /// Decodes the operands of the instruction into `instruction`.
    pub fn decode(&self, decoder: &mut Decoder, instruction: &mut Instruction)
        requires
            old(decoder).wf(),
            self.wf(),
            old(decoder).state.encoding == EncodingKind::Legacy,
        ensures
            *final(decoder) == self.spec_decode(*old(decoder), *old(instruction)).decoder,
            *final(instruction) == self.spec_decode(
                *old(decoder),
                *old(instruction),
            ).instruction,
            final(decoder).wf(),
            final(decoder).frame() == old(decoder).frame(),
    {
        reveal(OpCodeHandler_Xchg_Reg_rAX::spec_decode);
        let state: State = decoder.state;
        let options: u32 = decoder.options;
        let code_index: u32 = state.opcode_index(self.index);
        if code_index == 0
            && state.mandatory_prefix == MandatoryPrefixByte::PF3
            && !has_flag(options, DecoderOptions::NO_PAUSE)
        {
            decoder.clear_mandatory_prefix_f3(instruction);
            instruction.set_code(code::Pause);
        } else {
            instruction.set_code(xchg_reg_rax_code(state.operand_size, code_index));
            if code_index != 0 {
                instruction.set_op0_register(
                    state.opcode_register(self.index, register::gpr_base(state.operand_size)),
                );
                instruction.set_op1_register(register::gpr_base(state.operand_size));
            }
        }
    }
}

/// A fixed register; the code goes by stack operand size.
#[derive(Clone, Copy, Debug, PartialEq, Eq, Structural)]
pub struct OpCodeHandler_PushOpSizeReg {
    pub has_modrm: bool,
    pub code16: u32,
    pub code32: u32,
    pub code64: u32,
    pub reg: u32,
}

impl OpCodeHandler_PushOpSizeReg {
    /// A handler that yields one of three codes with the operand `reg`.
    pub fn new(code16: u32, code32: u32, code64: u32, reg: u32) -> (handler: Self)
        ensures
            handler == (Self { has_modrm: false, code16, code32, code64, reg }),
    {
        Self { has_modrm: false, code16, code32, code64, reg }
    }

    /// Decoder and record as [`Self::decode`] leaves them.
    #[verifier::opaque]
    pub open spec fn spec_decode(&self, d: Decoder, i: Instruction) -> Decoded {
        let state = d.state;
        let is64_mode = d.is64_mode;
        let x = Decoded::at(d, i);
        let size = stack_size(is64_mode, state.operand_size);
        x
            .code(select3(size, self.code16, self.code32, self.code64))
            .op_register(0, self.reg)
    }

    /// Decodes the operands of the instruction into `instruction`.
    pub fn decode(&self, decoder: &mut Decoder, instruction: &mut Instruction)
        requires
            old(decoder).wf(),
            old(decoder).state.encoding == EncodingKind::Legacy,
        ensures
            *final(decoder) == self.spec_decode(*old(decoder), *old(instruction)).decoder,
            *final(instruction) == self.spec_decode(
                *old(decoder),
                *old(instruction),
            ).instruction,
            final(decoder).wf(),
            final(decoder).frame() == old(decoder).frame(),
    {
        reveal(OpCodeHandler_PushOpSizeReg::spec_decode);
        let state: State = decoder.state;
        let is64_mode: bool = decoder.is64_mode;
        let size: OpSize = stack_size(is64_mode, state.operand_size);
        instruction.set_code(select3(size, self.code16, self.code32, self.code64));
        instruction.set_op0_register(self.reg);
    }
}

/// A 16-bit immediate; the code goes by the operand size of a near branch.
#[derive(Clone, Copy, Debug, PartialEq, Eq, Structural)]
pub struct OpCodeHandler_BranchIw {
    pub has_modrm: bool,
    pub code16: u32,
    pub code32: u32,
    pub code64: u32,
}

impl OpCodeHandler_BranchIw {
    /// A handler that yields one of three codes by branch operand size.
    pub fn new(code16: u32, code32: u32, code64: u32) -> (handler: Self)
        ensures
            handler == (Self { has_modrm: false, code16, code32, code64 }),
    {
        Self { has_modrm: false, code16, code32, code64 }
    }

    /// Decoder and record as [`Self::decode`] leaves them.
    #[verifier::opaque]
    pub open spec fn spec_decode(&self, d: Decoder, i: Instruction) -> Decoded {
        let state = d.state;
        let is64_mode = d.is64_mode;
        let amd = has_flag(d.options, DecoderOptions::AMD_BRANCHES);
        Decoded::at(d, i)
            .code(
                select3(
                    branch_size(is64_mode, amd, state.operand_size),
                    self.code16,
                    self.code32,
                    self.code64,
                ),
            )
            .imm16(0, OpKind::Immediate16)
    }

    /// Decodes the operands of the instruction into `instruction`.
    pub fn decode(&self, decoder: &mut Decoder, instruction: &mut Instruction)
        requires
            old(decoder).wf(),
            old(decoder).state.encoding == EncodingKind::Legacy,
        ensures
            *final(decoder) == self.spec_decode(*old(decoder), *old(instruction)).decoder,
            *final(instruction) == self.spec_decode(
                *old(decoder),
                *old(instruction),
            ).instruction,
            final(decoder).wf(),
            final(decoder).frame() == old(decoder).frame(),
    {
        reveal(OpCodeHandler_BranchIw::spec_decode);
        let state: State = decoder.state;
        let is64_mode: bool = decoder.is64_mode;
        let amd: bool = has_flag(decoder.options, DecoderOptions::AMD_BRANCHES);
        instruction.set_code(
            select3(
                branch_size(is64_mode, amd, state.operand_size),
                self.code16,
                self.code32,
                self.code64,
            ),
        );
        decoder.op_imm16(instruction, 0, OpKind::Immediate16);
    }
}

/// No operand; the code goes by the operand size of a near branch.
#[derive(Clone, Copy, Debug, PartialEq, Eq, Structural)]
pub struct OpCodeHandler_BranchSimple {
    pub has_modrm: bool,
    pub code16: u32,
    pub code32: u32,
    pub code64: u32,
}

impl OpCodeHandler_BranchSimple {
    /// A handler that yields one of three codes by branch operand size.
    pub fn new(code16: u32, code32: u32, code64: u32) -> (handler: Self)
        ensures
            handler == (Self { has_modrm: false, code16, code32, code64 }),
    {
        Self { has_modrm: false, code16, code32, code64 }
    }

    /// Decoder and record as [`Self::decode`] leaves them.
    #[verifier::opaque]
    pub open spec fn spec_decode(&self, d: Decoder, i: Instruction) -> Decoded {
        let state = d.state;
        let is64_mode = d.is64_mode;
        let amd = has_flag(d.options, DecoderOptions::AMD_BRANCHES);
        Decoded::at(d, i)
            .code(
                select3(
                    branch_size(is64_mode, amd, state.operand_size),
                    self.code16,
                    self.code32,
                    self.code64,
                ),
            )
    }

    /// Decodes the operands of the instruction into `instruction`.
    pub fn decode(&self, decoder: &mut Decoder, instruction: &mut Instruction)
        requires
            old(decoder).wf(),
            old(decoder).state.encoding == EncodingKind::Legacy,
        ensures
            *final(decoder) == self.spec_decode(*old(decoder), *old(instruction)).decoder,
            *final(instruction) == self.spec_decode(
                *old(decoder),
                *old(instruction),
            ).instruction,
            final(decoder).wf(),
            final(decoder).frame() == old(decoder).frame(),
    {
        reveal(OpCodeHandler_BranchSimple::spec_decode);
        let state: State = decoder.state;
        let is64_mode: bool = decoder.is64_mode;
        let amd: bool = has_flag(decoder.options, DecoderOptions::AMD_BRANCHES);
        instruction.set_code(
            select3(
                branch_size(is64_mode, amd, state.operand_size),
                self.code16,
                self.code32,
                self.code64,
            ),
        );
    }
}

/// The memory at `[rBX + AL]`, the base in the address size.
#[derive(Clone, Copy, Debug, PartialEq, Eq, Structural)]
pub struct OpCodeHandler_MemBx {
    pub has_modrm: bool,
    pub code: u32,
}

impl OpCodeHandler_MemBx {
    /// A handler that yields `code`.
    pub fn new(code: u32) -> (handler: Self)
        ensures
            handler == (Self { has_modrm: false, code }),
    {
        Self { has_modrm: false, code }
    }

    /// Decoder and record as [`Self::decode`] leaves them.
    #[verifier::opaque]
    pub open spec fn spec_decode(&self, d: Decoder, i: Instruction) -> Decoded {
        let state = d.state;
        Decoded::at(d, i)
            .code(self.code)
            .memory_base(select3(state.address_size, register::BX, register::EBX, register::RBX))
            .memory_index(register::AL)
            .op_kind(0, OpKind::Memory)
    }

    /// Decodes the operands of the instruction into `instruction`.
    pub fn decode(&self, decoder: &mut Decoder, instruction: &mut Instruction)
        requires
            old(decoder).wf(),
            old(decoder).state.encoding == EncodingKind::Legacy,
        ensures
            *final(decoder) == self.spec_decode(*old(decoder), *old(instruction)).decoder,
            *final(instruction) == self.spec_decode(
                *old(decoder),
                *old(instruction),
            ).instruction,
            final(decoder).wf(),
            final(decoder).frame() == old(decoder).frame(),
    {
        reveal(OpCodeHandler_MemBx::spec_decode);
        let state: State = decoder.state;
        instruction.set_code(self.code);
        instruction.set_memory_base(
            select3(state.address_size, register::BX, register::EBX, register::RBX),
        );
        instruction.set_memory_index(register::AL);
        instruction.set_op0_kind(OpKind::Memory);
    }
}

/// `WBINVD`, or with a mandatory `F3` `WBNOINVD`, unless the options say otherwise.
#[derive(Clone, Copy, Debug, PartialEq, Eq, Structural)]
pub struct OpCodeHandler_Wbinvd {
    pub has_modrm: bool,
}

impl OpCodeHandler_Wbinvd {
    /// The handler.
    pub fn new() -> (handler: Self)
        ensures
            handler == (Self { has_modrm: false }),
    {
        Self { has_modrm: false }
    }

    /// Decoder and record as [`Self::decode`] leaves them.
    #[verifier::opaque]
    pub open spec fn spec_decode(&self, d: Decoder, i: Instruction) -> Decoded {
        let state = d.state;
        let options = d.options;
        let x = Decoded::at(d, i);
        if has_flag(options, DecoderOptions::NO_WBNOINVD)
            || state.mandatory_prefix != MandatoryPrefixByte::PF3
        {
            x.code(code::Wbinvd)
        } else {
            x.clear_mandatory_prefix_f3().code(code::Wbnoinvd)
        }
    }

    /// Decodes the operands of the instruction into `instruction`.
    pub fn decode(&self, decoder: &mut Decoder, instruction: &mut Instruction)
        requires
            old(decoder).wf(),
            old(decoder).state.encoding == EncodingKind::Legacy,
        ensures
            *final(decoder) == self.spec_decode(*old(decoder), *old(instruction)).decoder,
            *final(instruction) == self.spec_decode(
                *old(decoder),
                *old(instruction),
            ).instruction,
            final(decoder).wf(),
            final(decoder).frame() == old(decoder).frame(),
    {
        reveal(OpCodeHandler_Wbinvd::spec_decode);
        let state: State = decoder.state;
        let options: u32 = decoder.options;
        if has_flag(options, DecoderOptions::NO_WBNOINVD)
            || state.mandatory_prefix != MandatoryPrefixByte::PF3
        {
            instruction.set_code(code::Wbinvd);
        } else {
            decoder.clear_mandatory_prefix_f3(instruction);
            instruction.set_code(code::Wbnoinvd);
        }
    }
}

/// A handler without an encoded operand.
#[derive(Clone, Copy, Debug, PartialEq, Eq, Structural)]
pub enum SimpleHandler {
    PushSimple2(OpCodeHandler_PushSimple2),
    Simple2(OpCodeHandler_Simple2),
    Simple3(OpCodeHandler_Simple3),
    Simple5(OpCodeHandler_Simple5),
    Simple5_ModRM_as(OpCodeHandler_Simple5_ModRM_as),
    Simple4(OpCodeHandler_Simple4),
    PushSimpleReg(OpCodeHandler_PushSimpleReg),
    SimpleReg(OpCodeHandler_SimpleReg),
    Xchg_Reg_rAX(OpCodeHandler_Xchg_Reg_rAX),
    PushOpSizeReg(OpCodeHandler_PushOpSizeReg),
    BranchIw(OpCodeHandler_BranchIw),
    BranchSimple(OpCodeHandler_BranchSimple),
    MemBx(OpCodeHandler_MemBx),
    Wbinvd(OpCodeHandler_Wbinvd),
}

impl SimpleHandler {
    /// Whether a ModRM byte follows the opcode.
    pub open spec fn spec_has_modrm(&self) -> bool {
        match self {
            SimpleHandler::PushSimple2(h) => h.has_modrm,
            SimpleHandler::Simple2(h) => h.has_modrm,
            SimpleHandler::Simple3(h) => h.has_modrm,
            SimpleHandler::Simple5(h) => h.has_modrm,
            SimpleHandler::Simple5_ModRM_as(h) => h.has_modrm,
            SimpleHandler::Simple4(h) => h.has_modrm,
            SimpleHandler::PushSimpleReg(h) => h.has_modrm,
            SimpleHandler::SimpleReg(h) => h.has_modrm,
            SimpleHandler::Xchg_Reg_rAX(h) => h.has_modrm,
            SimpleHandler::PushOpSizeReg(h) => h.has_modrm,
            SimpleHandler::BranchIw(h) => h.has_modrm,
            SimpleHandler::BranchSimple(h) => h.has_modrm,
            SimpleHandler::MemBx(h) => h.has_modrm,
            SimpleHandler::Wbinvd(h) => h.has_modrm,
        }
    }

    /// Whether a ModRM byte follows the opcode.
    #[verifier::when_used_as_spec(spec_has_modrm)]
    pub fn has_modrm(&self) -> (b: bool)
        ensures
            b == self.spec_has_modrm(),
    {
        match self {
            SimpleHandler::PushSimple2(h) => h.has_modrm,
            SimpleHandler::Simple2(h) => h.has_modrm,
            SimpleHandler::Simple3(h) => h.has_modrm,
            SimpleHandler::Simple5(h) => h.has_modrm,
            SimpleHandler::Simple5_ModRM_as(h) => h.has_modrm,
            SimpleHandler::Simple4(h) => h.has_modrm,
            SimpleHandler::PushSimpleReg(h) => h.has_modrm,
            SimpleHandler::SimpleReg(h) => h.has_modrm,
            SimpleHandler::Xchg_Reg_rAX(h) => h.has_modrm,
            SimpleHandler::PushOpSizeReg(h) => h.has_modrm,
            SimpleHandler::BranchIw(h) => h.has_modrm,
            SimpleHandler::BranchSimple(h) => h.has_modrm,
            SimpleHandler::MemBx(h) => h.has_modrm,
            SimpleHandler::Wbinvd(h) => h.has_modrm,
        }
    }

    /// The handler is well-formed.
    pub open spec fn wf(&self) -> bool {
        match self {
            SimpleHandler::PushSimple2(_) => true,
            SimpleHandler::Simple2(_) => true,
            SimpleHandler::Simple3(_) => true,
            SimpleHandler::Simple5(_) => true,
            SimpleHandler::Simple5_ModRM_as(_) => true,
            SimpleHandler::Simple4(_) => true,
            SimpleHandler::PushSimpleReg(h) => h.wf(),
            SimpleHandler::SimpleReg(h) => h.wf(),
            SimpleHandler::Xchg_Reg_rAX(h) => h.wf(),
            SimpleHandler::PushOpSizeReg(_) => true,
            SimpleHandler::BranchIw(_) => true,
            SimpleHandler::BranchSimple(_) => true,
            SimpleHandler::MemBx(_) => true,
            SimpleHandler::Wbinvd(_) => true,
        }
    }

    /// Whether the handler is well-formed.
    #[verifier::when_used_as_spec(wf)]
    pub fn is_wf(&self) -> (b: bool)
        ensures
            b == self.wf(),
    {
        match self {
            SimpleHandler::PushSimple2(_) => true,
            SimpleHandler::Simple2(_) => true,
            SimpleHandler::Simple3(_) => true,
            SimpleHandler::Simple5(_) => true,
            SimpleHandler::Simple5_ModRM_as(_) => true,
            SimpleHandler::Simple4(_) => true,
            SimpleHandler::PushSimpleReg(h) => h.is_wf(),
            SimpleHandler::SimpleReg(h) => h.is_wf(),
            SimpleHandler::Xchg_Reg_rAX(h) => h.is_wf(),
            SimpleHandler::PushOpSizeReg(_) => true,
            SimpleHandler::BranchIw(_) => true,
            SimpleHandler::BranchSimple(_) => true,
            SimpleHandler::MemBx(_) => true,
            SimpleHandler::Wbinvd(_) => true,
        }
    }

    /// Decoder and record as [`Self::decode`] leaves them.
    #[verifier::opaque]
    pub open spec fn spec_decode(&self, d: Decoder, i: Instruction) -> Decoded {
        match self {
            SimpleHandler::PushSimple2(h) => h.spec_decode(d, i),
            SimpleHandler::Simple2(h) => h.spec_decode(d, i),
            SimpleHandler::Simple3(h) => h.spec_decode(d, i),
            SimpleHandler::Simple5(h) => h.spec_decode(d, i),
            SimpleHandler::Simple5_ModRM_as(h) => h.spec_decode(d, i),
            SimpleHandler::Simple4(h) => h.spec_decode(d, i),
            SimpleHandler::PushSimpleReg(h) => h.spec_decode(d, i),
            SimpleHandler::SimpleReg(h) => h.spec_decode(d, i),
            SimpleHandler::Xchg_Reg_rAX(h) => h.spec_decode(d, i),
            SimpleHandler::PushOpSizeReg(h) => h.spec_decode(d, i),
            SimpleHandler::BranchIw(h) => h.spec_decode(d, i),
            SimpleHandler::BranchSimple(h) => h.spec_decode(d, i),
            SimpleHandler::MemBx(h) => h.spec_decode(d, i),
            SimpleHandler::Wbinvd(h) => h.spec_decode(d, i),
        }
    }

    /// Decodes the operands of the instruction with the handler that `self` holds.
    pub fn decode(&self, decoder: &mut Decoder, instruction: &mut Instruction)
        requires
            old(decoder).wf(),
            self.wf(),
            old(decoder).state.encoding == EncodingKind::Legacy,
        ensures
            *final(decoder) == self.spec_decode(*old(decoder), *old(instruction)).decoder,
            *final(instruction) == self.spec_decode(
                *old(decoder),
                *old(instruction),
            ).instruction,
            final(decoder).wf(),
            final(decoder).frame() == old(decoder).frame(),
    {
        reveal(SimpleHandler::spec_decode);
        match self {
            SimpleHandler::PushSimple2(h) => h.decode(decoder, instruction),
            SimpleHandler::Simple2(h) => h.decode(decoder, instruction),
            SimpleHandler::Simple3(h) => h.decode(decoder, instruction),
            SimpleHandler::Simple5(h) => h.decode(decoder, instruction),
            SimpleHandler::Simple5_ModRM_as(h) => h.decode(decoder, instruction),
            SimpleHandler::Simple4(h) => h.decode(decoder, instruction),
            SimpleHandler::PushSimpleReg(h) => h.decode(decoder, instruction),
            SimpleHandler::SimpleReg(h) => h.decode(decoder, instruction),
            SimpleHandler::Xchg_Reg_rAX(h) => h.decode(decoder, instruction),
            SimpleHandler::PushOpSizeReg(h) => h.decode(decoder, instruction),
            SimpleHandler::BranchIw(h) => h.decode(decoder, instruction),
            SimpleHandler::BranchSimple(h) => h.decode(decoder, instruction),
            SimpleHandler::MemBx(h) => h.decode(decoder, instruction),
            SimpleHandler::Wbinvd(h) => h.decode(decoder, instruction),
        }
    }
}

} // verus!
