//! Legacy handlers whose first operand is the register or memory that rm encodes.
use vstd::prelude::*;
use crate::decoder::{Decoder, State};
use crate::enums::{EncodingKind, OpKind, OpSize};
use crate::instruction::Instruction;
use crate::operand::{branch_size, select3, stack_size, Decoded};
use crate::options::{has_flag, DecoderOptions};
use crate::register;

verus! {

/// `r/m, imm` in the operand size; for 64 bits the immediate has 32 and is sign-extended.
/// The memory form may be locked.
#[derive(Clone, Copy, Debug, PartialEq, Eq, Structural)]
pub struct OpCodeHandler_Ev_Iz {
    pub has_modrm: bool,
    pub flags: u32,
    pub code16: u32,
    pub code32: u32,
    pub code64: u32,
}

impl OpCodeHandler_Ev_Iz {
    /// A handler that yields one of three codes by operand size, with the lock flags `flags`.
    pub fn new(code16: u32, code32: u32, code64: u32, flags: u32) -> (handler: Self)
        ensures
            handler == (Self { has_modrm: true, flags, code16, code32, code64 }),
    {
        Self { has_modrm: true, flags, code16, code32, code64 }
    }

    /// Decoder and record as [`Self::decode`] leaves them.
    #[verifier::opaque]
    pub open spec fn spec_decode(&self, d: Decoder, i: Instruction) -> Decoded {
        let state = d.state;
        let x = Decoded::at(d, i)
            .op_rm_lock(0, state.rm_register(register::gpr_base(state.operand_size)), self.flags);
        if state.operand_size == OpSize::Size32 {
            x.code(self.code32).imm32(1, OpKind::Immediate32)
        } else if state.operand_size == OpSize::Size64 {
            x.code(self.code64).imm32(1, OpKind::Immediate32to64)
        } else {
            x.code(self.code16).imm16(1, OpKind::Immediate16)
        }
    }

    /// Decodes the operands of the instruction into `instruction`.
    pub fn decode(&self, decoder: &mut Decoder, instruction: &mut Instruction)
        requires
            old(decoder).wf(),
            old(decoder).state.encoding == EncodingKind::Legacy,
        ensures
            *final(decoder) == self.spec_decode(*old(decoder), *old(instruction)).decoder,
            *final(instruction) == self.spec_decode(
                *old(decoder),
                *old(instruction),
            ).instruction,
            final(decoder).wf(),
            final(decoder).frame() == old(decoder).frame(),
    {
        reveal(OpCodeHandler_Ev_Iz::spec_decode);
        let state: State = decoder.state;
        decoder.op_rm_lock(
            instruction,
            0,
            state.rm_register(register::gpr_base(state.operand_size)),
            self.flags,
        );
        if state.operand_size == OpSize::Size32 {
            instruction.set_code(self.code32);
            decoder.op_imm32(instruction, 1, OpKind::Immediate32);
        } else if state.operand_size == OpSize::Size64 {
            instruction.set_code(self.code64);
            decoder.op_imm32(instruction, 1, OpKind::Immediate32to64);
        } else {
            instruction.set_code(self.code16);
            decoder.op_imm16(instruction, 1, OpKind::Immediate16);
        }
    }
}

/// `r/m, imm8` in the operand size, the immediate sign-extended to it.
/// The memory form may be locked.
#[derive(Clone, Copy, Debug, PartialEq, Eq, Structural)]
pub struct OpCodeHandler_Ev_Ib {
    pub has_modrm: bool,
    pub flags: u32,
    pub code16: u32,
    pub code32: u32,
    pub code64: u32,
}

impl OpCodeHandler_Ev_Ib {
    /// A handler that yields one of three codes by operand size, with the lock flags `flags`.
    pub fn new(code16: u32, code32: u32, code64: u32, flags: u32) -> (handler: Self)
        ensures
            handler == (Self { has_modrm: true, flags, code16, code32, code64 }),
    {
        Self { has_modrm: true, flags, code16, code32, code64 }
    }

    /// Decoder and record as [`Self::decode`] leaves them.
    #[verifier::opaque]
    pub open spec fn spec_decode(&self, d: Decoder, i: Instruction) -> Decoded {
        let state = d.state;
        let x = Decoded::at(d, i)
            .op_rm_lock(0, state.rm_register(register::gpr_base(state.operand_size)), self.flags);
        if state.operand_size == OpSize::Size32 {
            x.code(self.code32).imm8(1, OpKind::Immediate8to32)
        } else if state.operand_size == OpSize::Size64 {
            x.code(self.code64).imm8(1, OpKind::Immediate8to64)
        } else {
            x.code(self.code16).imm8(1, OpKind::Immediate8to16)
        }
    }

    /// Decodes the operands of the instruction into `instruction`.
    pub fn decode(&self, decoder: &mut Decoder, instruction: &mut Instruction)
        requires
            old(decoder).wf(),
            old(decoder).state.encoding == EncodingKind::Legacy,
        ensures
            *final(decoder) == self.spec_decode(*old(decoder), *old(instruction)).decoder,
            *final(instruction) == self.spec_decode(
                *old(decoder),
                *old(instruction),
            ).instruction,
            final(decoder).wf(),
            final(decoder).frame() == old(decoder).frame(),
    {
        reveal(OpCodeHandler_Ev_Ib::spec_decode);
        let state: State = decoder.state;
        decoder.op_rm_lock(
            instruction,
            0,
            state.rm_register(register::gpr_base(state.operand_size)),
            self.flags,
        );
        if state.operand_size == OpSize::Size32 {
            instruction.set_code(self.code32);
            decoder.op_imm8(instruction, 1, OpKind::Immediate8to32);
        } else if state.operand_size == OpSize::Size64 {
            instruction.set_code(self.code64);
            decoder.op_imm8(instruction, 1, OpKind::Immediate8to64);
        } else {
            instruction.set_code(self.code16);
            decoder.op_imm8(instruction, 1, OpKind::Immediate8to16);
        }
    }
}

/// `r/m, imm8` in the operand size, the immediate as it is.
/// The memory form may be locked.
#[derive(Clone, Copy, Debug, PartialEq, Eq, Structural)]
pub struct OpCodeHandler_Ev_Ib2 {
    pub has_modrm: bool,
    pub flags: u32,
    pub code16: u32,
    pub code32: u32,
    pub code64: u32,
}

impl OpCodeHandler_Ev_Ib2 {
    /// A handler that yields one of three codes by operand size, with the lock flags `flags`.
    pub fn new(code16: u32, code32: u32, code64: u32, flags: u32) -> (handler: Self)
        ensures
            handler == (Self { has_modrm: true, flags, code16, code32, code64 }),
    {
        Self { has_modrm: true, flags, code16, code32, code64 }
    }

    /// Decoder and record as [`Self::decode`] leaves them.
    #[verifier::opaque]
    pub open spec fn spec_decode(&self, d: Decoder, i: Instruction) -> Decoded {
        let state = d.state;
        Decoded::at(d, i)
            .code(select3(state.operand_size, self.code16, self.code32, self.code64))
            .op_rm_lock(0, state.rm_register(register::gpr_base(state.operand_size)), self.flags)
            .imm8(1, OpKind::Immediate8)
    }

    /// Decodes the operands of the instruction into `instruction`.
    pub fn decode(&self, decoder: &mut Decoder, instruction: &mut Instruction)
        requires
            old(decoder).wf(),
            old(decoder).state.encoding == EncodingKind::Legacy,
        ensures
            *final(decoder) == self.spec_decode(*old(decoder), *old(instruction)).decoder,
            *final(instruction) == self.spec_decode(
                *old(decoder),
                *old(instruction),
            ).instruction,
            final(decoder).wf(),
            final(decoder).frame() == old(decoder).frame(),
    {
        reveal(OpCodeHandler_Ev_Ib2::spec_decode);
        let state: State = decoder.state;
        instruction.set_code(select3(state.operand_size, self.code16, self.code32, self.code64));
        decoder.op_rm_lock(
            instruction,
            0,
            state.rm_register(register::gpr_base(state.operand_size)),
            self.flags,
        );
        decoder.op_imm8(instruction, 1, OpKind::Immediate8);
    }
}

/// `r/m, 1` in the operand size: the shifts by one.  The immediate is part of
/// the opcode and takes no byte of its own.
#[derive(Clone, Copy, Debug, PartialEq, Eq, Structural)]
pub struct OpCodeHandler_Ev_1 {
    pub has_modrm: bool,
    pub code16: u32,
    pub code32: u32,
    pub code64: u32,
}

impl OpCodeHandler_Ev_1 {
    /// A handler that yields one of three codes by operand size.
    pub fn new(code16: u32, code32: u32, code64: u32) -> (handler: Self)
        ensures
            handler == (Self { has_modrm: true, code16, code32, code64 }),
    {
        Self { has_modrm: true, code16, code32, code64 }
    }

    /// Decoder and record as [`Self::decode`] leaves them.
    #[verifier::opaque]
    pub open spec fn spec_decode(&self, d: Decoder, i: Instruction) -> Decoded {
        let state = d.state;
        Decoded::at(d, i)
            .code(select3(state.operand_size, self.code16, self.code32, self.code64))
            .op_rm(0, state.rm_register(register::gpr_base(state.operand_size)))
            .op_kind(1, OpKind::Immediate8)
            .immediate(1)
            .no_imm()
    }

    /// Decodes the operands of the instruction into `instruction`.
    pub fn decode(&self, decoder: &mut Decoder, instruction: &mut Instruction)
        requires
            old(decoder).wf(),
            old(decoder).state.encoding == EncodingKind::Legacy,
        ensures
            *final(decoder) == self.spec_decode(*old(decoder), *old(instruction)).decoder,
            *final(instruction) == self.spec_decode(
                *old(decoder),
                *old(instruction),
            ).instruction,
            final(decoder).wf(),
            final(decoder).frame() == old(decoder).frame(),
    {
        reveal(OpCodeHandler_Ev_1::spec_decode);
        let state: State = decoder.state;
        instruction.set_code(select3(state.operand_size, self.code16, self.code32, self.code64));
        decoder.op_rm(instruction, 0, state.rm_register(register::gpr_base(state.operand_size)));
        instruction.set_op1_kind(OpKind::Immediate8);
        instruction.set_immediate8(1);
        decoder.set_no_imm();
    }
}

/// `r/m, CL` in the operand size.
#[derive(Clone, Copy, Debug, PartialEq, Eq, Structural)]
pub struct OpCodeHandler_Ev_CL {
    pub has_modrm: bool,
    pub code16: u32,
    pub code32: u32,
    pub code64: u32,
}

impl OpCodeHandler_Ev_CL {
    /// A handler that yields one of three codes by operand size.
    pub fn new(code16: u32, code32: u32, code64: u32) -> (handler: Self)
        ensures
            handler == (Self { has_modrm: true, code16, code32, code64 }),
    {
        Self { has_modrm: true, code16, code32, code64 }
    }

    /// Decoder and record as [`Self::decode`] leaves them.
    #[verifier::opaque]
    pub open spec fn spec_decode(&self, d: Decoder, i: Instruction) -> Decoded {
        let state = d.state;
        Decoded::at(d, i)
            .code(select3(state.operand_size, self.code16, self.code32, self.code64))
            .op_rm(0, state.rm_register(register::gpr_base(state.operand_size)))
            .op_register(1, register::CL)
    }

    /// Decodes the operands of the instruction into `instruction`.
    pub fn decode(&self, decoder: &mut Decoder, instruction: &mut Instruction)
        requires
            old(decoder).wf(),
            old(decoder).state.encoding == EncodingKind::Legacy,
        ensures
            *final(decoder) == self.spec_decode(*old(decoder), *old(instruction)).decoder,
            *final(instruction) == self.spec_decode(
                *old(decoder),
                *old(instruction),
            ).instruction,
            final(decoder).wf(),
            final(decoder).frame() == old(decoder).frame(),
    {
        reveal(OpCodeHandler_Ev_CL::spec_decode);
        let state: State = decoder.state;
        instruction.set_code(select3(state.operand_size, self.code16, self.code32, self.code64));
        decoder.op_rm(instruction, 0, state.rm_register(register::gpr_base(state.operand_size)));
        instruction.set_op1_register(register::CL);
    }
}

/// `r/m` in the operand size.  The memory form may be locked.
#[derive(Clone, Copy, Debug, PartialEq, Eq, Structural)]
pub struct OpCodeHandler_Ev {
    pub has_modrm: bool,
    pub flags: u32,
    pub code16: u32,
    pub code32: u32,
    pub code64: u32,
}

impl OpCodeHandler_Ev {
    /// A handler that yields one of three codes by operand size, with the lock flags `flags`.
    pub fn new(code16: u32, code32: u32, code64: u32, flags: u32) -> (handler: Self)
        ensures
            handler == (Self { has_modrm: true, flags, code16, code32, code64 }),
    {
        Self { has_modrm: true, flags, code16, code32, code64 }
    }

    /// Decoder and record as [`Self::decode`] leaves them.
    #[verifier::opaque]
    pub open spec fn spec_decode(&self, d: Decoder, i: Instruction) -> Decoded {
        let state = d.state;
        Decoded::at(d, i)
            .code(select3(state.operand_size, self.code16, self.code32, self.code64))
            .op_rm_lock(0, state.rm_register(register::gpr_base(state.operand_size)), self.flags)
    }

    /// Decodes the operands of the instruction into `instruction`.
    pub fn decode(&self, decoder: &mut Decoder, instruction: &mut Instruction)
        requires
            old(decoder).wf(),
            old(decoder).state.encoding == EncodingKind::Legacy,
        ensures
            *final(decoder) == self.spec_decode(*old(decoder), *old(instruction)).decoder,
            *final(instruction) == self.spec_decode(
                *old(decoder),
                *old(instruction),
            ).instruction,
            final(decoder).wf(),
            final(decoder).frame() == old(decoder).frame(),
    {
        reveal(OpCodeHandler_Ev::spec_decode);
        let state: State = decoder.state;
        instruction.set_code(select3(state.operand_size, self.code16, self.code32, self.code64));
        decoder.op_rm_lock(
            instruction,
            0,
            state.rm_register(register::gpr_base(state.operand_size)),
            self.flags,
        );
    }
}

/// The register that rm selects, in the operand size.  The opcode table
/// uses the handler for the register form only.
#[derive(Clone, Copy, Debug, PartialEq, Eq, Structural)]
pub struct OpCodeHandler_Rv {
    pub has_modrm: bool,
    pub code16: u32,
    pub code32: u32,
    pub code64: u32,
}

impl OpCodeHandler_Rv {
    /// A handler that yields one of three codes by operand size.
    pub fn new(code16: u32, code32: u32, code64: u32) -> (handler: Self)
        ensures
            handler == (Self { has_modrm: true, code16, code32, code64 }),
    {
        Self { has_modrm: true, code16, code32, code64 }
    }

    /// Decoder and record as [`Self::decode`] leaves them.
    #[verifier::opaque]
    pub open spec fn spec_decode(&self, d: Decoder, i: Instruction) -> Decoded {
        let state = d.state;
        Decoded::at(d, i)
            .code(select3(state.operand_size, self.code16, self.code32, self.code64))
            .op_register(0, state.rm_register(register::gpr_base(state.operand_size)))
    }

    /// Decodes the operands of the instruction into `instruction`.
    pub fn decode(&self, decoder: &mut Decoder, instruction: &mut Instruction)
        requires
            old(decoder).wf(),
            old(decoder).state.encoding == EncodingKind::Legacy,
        ensures
            *final(decoder) == self.spec_decode(*old(decoder), *old(instruction)).decoder,
            *final(instruction) == self.spec_decode(
                *old(decoder),
                *old(instruction),
            ).instruction,
            final(decoder).wf(),
            final(decoder).frame() == old(decoder).frame(),
    {
        reveal(OpCodeHandler_Rv::spec_decode);
        let state: State = decoder.state;
        instruction.set_code(select3(state.operand_size, self.code16, self.code32, self.code64));
        instruction.set_op0_register(state.rm_register(register::gpr_base(state.operand_size)));
    }
}

/// The register that rm selects: 64 bits wide in 64-bit mode, else 32.
#[derive(Clone, Copy, Debug, PartialEq, Eq, Structural)]
pub struct OpCodeHandler_Rv_32_64 {
    pub has_modrm: bool,
    pub code32: u32,
    pub code64: u32,
}

impl OpCodeHandler_Rv_32_64 {
    /// A handler that yields `code64` in 64-bit mode, else `code32`.
    pub fn new(code32: u32, code64: u32) -> (handler: Self)
        ensures
            handler == (Self { has_modrm: true, code32, code64 }),
    {
        Self { has_modrm: true, code32, code64 }
    }

    /// Decoder and record as [`Self::decode`] leaves them.
    #[verifier::opaque]
    pub open spec fn spec_decode(&self, d: Decoder, i: Instruction) -> Decoded {
        let state = d.state;
        let is64_mode = d.is64_mode;
        Decoded::at(d, i)
            .code(if is64_mode { self.code64 } else { self.code32 })
            .op_register(0, state.rm_register(register::gpr32_or_64(is64_mode)))
    }

    /// Decodes the operands of the instruction into `instruction`.
    pub fn decode(&self, decoder: &mut Decoder, instruction: &mut Instruction)
        requires
            old(decoder).wf(),
            old(decoder).state.encoding == EncodingKind::Legacy,
        ensures
            *final(decoder) == self.spec_decode(*old(decoder), *old(instruction)).decoder,
            *final(instruction) == self.spec_decode(
                *old(decoder),
                *old(instruction),
            ).instruction,
            final(decoder).wf(),
            final(decoder).frame() == old(decoder).frame(),
    {
        reveal(OpCodeHandler_Rv_32_64::spec_decode);
        let state: State = decoder.state;
        let is64_mode: bool = decoder.is64_mode;
        instruction.set_code(if is64_mode { self.code64 } else { self.code32 });
        instruction.set_op0_register(state.rm_register(register::gpr32_or_64(is64_mode)));
    }
}

/// `r/m`, 64 bits wide under W, else 32.  The register form or the memory
/// form may be one that the instruction does not have.
#[derive(Clone, Copy, Debug, PartialEq, Eq, Structural)]
pub struct OpCodeHandler_Ev_REXW {
    pub has_modrm: bool,
    pub disallow_reg: bool,
    pub disallow_mem: bool,
    pub code32: u32,
    pub code64: u32,
}

impl OpCodeHandler_Ev_REXW {
    /// A handler that yields `code64` under W, else `code32`, and has the forms that are allowed.
    pub fn new(code32: u32, code64: u32, allow_reg: bool, allow_mem: bool) -> (handler: Self)
        ensures
            handler == (Self {
                has_modrm: true,
                disallow_reg: !allow_reg,
                disallow_mem: !allow_mem,
                code32,
                code64,
            }),
    {
        Self {
            has_modrm: true,
            disallow_reg: !allow_reg,
            disallow_mem: !allow_mem,
            code32,
            code64,
        }
    }

    /// Decoder and record as [`Self::decode`] leaves them.
    #[verifier::opaque]
    pub open spec fn spec_decode(&self, d: Decoder, i: Instruction) -> Decoded {
        let state = d.state;
        let check = d.invalid_check;
        let x = Decoded::at(d, i)
            .code(if state.flags.w { self.code64 } else { self.code32 })
            .op_rm(0, state.rm_register(register::gpr32_or_64(state.flags.w)));
        if state.mod_ == 3 {
            x.invalid_if(self.disallow_reg && check)
        } else {
            x.invalid_if(self.disallow_mem && check)
        }
    }

    /// Decodes the operands of the instruction into `instruction`.
    pub fn decode(&self, decoder: &mut Decoder, instruction: &mut Instruction)
        requires
            old(decoder).wf(),
            old(decoder).state.encoding == EncodingKind::Legacy,
        ensures
            *final(decoder) == self.spec_decode(*old(decoder), *old(instruction)).decoder,
            *final(instruction) == self.spec_decode(
                *old(decoder),
                *old(instruction),
            ).instruction,
            final(decoder).wf(),
            final(decoder).frame() == old(decoder).frame(),
    {
        reveal(OpCodeHandler_Ev_REXW::spec_decode);
        let state: State = decoder.state;
        let check: bool = decoder.invalid_check;
        instruction.set_code(if state.flags.w { self.code64 } else { self.code32 });
        decoder.op_rm(instruction, 0, state.rm_register(register::gpr32_or_64(state.flags.w)));
        if state.mod_ == 3 {
            decoder.set_invalid_instruction_if(self.disallow_reg && check);
        } else {
            decoder.set_invalid_instruction_if(self.disallow_mem && check);
        }
    }
}

/// `r/m` as the target of an indirect near branch, in the operand size of a near branch.
#[derive(Clone, Copy, Debug, PartialEq, Eq, Structural)]
pub struct OpCodeHandler_Evj {
    pub has_modrm: bool,
    pub code16: u32,
    pub code32: u32,
    pub code64: u32,
}

impl OpCodeHandler_Evj {
    /// A handler that yields one of three codes by branch operand size.
    pub fn new(code16: u32, code32: u32, code64: u32) -> (handler: Self)
        ensures
            handler == (Self { has_modrm: true, code16, code32, code64 }),
    {
        Self { has_modrm: true, code16, code32, code64 }
    }

    /// Decoder and record as [`Self::decode`] leaves them.
    #[verifier::opaque]
    pub open spec fn spec_decode(&self, d: Decoder, i: Instruction) -> Decoded {
        let state = d.state;
        let is64_mode = d.is64_mode;
        let amd = has_flag(d.options, DecoderOptions::AMD_BRANCHES);
        let x = Decoded::at(d, i);
        let size = branch_size(is64_mode, amd, state.operand_size);
        let x = x.code(select3(size, self.code16, self.code32, self.code64));
        if is64_mode {
            x.op_rm(0, state.rm_register(register::gpr_base(size)))
        } else {
            x.op_rm(0, register::offset(register::gpr_base(size), state.rm))
        }
    }

    /// Decodes the operands of the instruction into `instruction`.
    pub fn decode(&self, decoder: &mut Decoder, instruction: &mut Instruction)
        requires
            old(decoder).wf(),
            old(decoder).state.encoding == EncodingKind::Legacy,
        ensures
            *final(decoder) == self.spec_decode(*old(decoder), *old(instruction)).decoder,
            *final(instruction) == self.spec_decode(
                *old(decoder),
                *old(instruction),
            ).instruction,
            final(decoder).wf(),
            final(decoder).frame() == old(decoder).frame(),
    {
        reveal(OpCodeHandler_Evj::spec_decode);
        let state: State = decoder.state;
        let is64_mode: bool = decoder.is64_mode;
        let amd: bool = has_flag(decoder.options, DecoderOptions::AMD_BRANCHES);
        let size: OpSize = branch_size(is64_mode, amd, state.operand_size);
        instruction.set_code(select3(size, self.code16, self.code32, self.code64));
        if is64_mode {
            decoder.op_rm(instruction, 0, state.rm_register(register::gpr_base(size)));
        } else {
            decoder.op_rm(instruction, 0, register::offset(register::gpr_base(size), state.rm));
        }
    }
}

/// A far pointer in memory; the register form is invalid.
#[derive(Clone, Copy, Debug, PartialEq, Eq, Structural)]
pub struct OpCodeHandler_Ep {
    pub has_modrm: bool,
    pub code16: u32,
    pub code32: u32,
    pub code64: u32,
}

impl OpCodeHandler_Ep {
    /// A handler that yields one of three codes by operand size.
    pub fn new(code16: u32, code32: u32, code64: u32) -> (handler: Self)
        ensures
            handler == (Self { has_modrm: true, code16, code32, code64 }),
    {
        Self { has_modrm: true, code16, code32, code64 }
    }

    /// Decoder and record as [`Self::decode`] leaves them.
    #[verifier::opaque]
    pub open spec fn spec_decode(&self, d: Decoder, i: Instruction) -> Decoded {
        let state = d.state;
        Decoded::at(d, i)
            .code(select3(state.operand_size, self.code16, self.code32, self.code64))
            .op_mem(0)
    }

    /// Decodes the operands of the instruction into `instruction`.
    pub fn decode(&self, decoder: &mut Decoder, instruction: &mut Instruction)
        requires
            old(decoder).wf(),
            old(decoder).state.encoding == EncodingKind::Legacy,
        ensures
            *final(decoder) == self.spec_decode(*old(decoder), *old(instruction)).decoder,
            *final(instruction) == self.spec_decode(
                *old(decoder),
                *old(instruction),
            ).instruction,
            final(decoder).wf(),
            final(decoder).frame() == old(decoder).frame(),
    {
        reveal(OpCodeHandler_Ep::spec_decode);
        let state: State = decoder.state;
        instruction.set_code(select3(state.operand_size, self.code16, self.code32, self.code64));
        decoder.op_mem(instruction, 0);
    }
}

/// `r/m` in the operand size, where the memory form is 16 bits wide.
#[derive(Clone, Copy, Debug, PartialEq, Eq, Structural)]
pub struct OpCodeHandler_Evw {
    pub has_modrm: bool,
    pub code16: u32,
    pub code32: u32,
    pub code64: u32,
}

impl OpCodeHandler_Evw {
    /// A handler that yields one of three codes by operand size.
    pub fn new(code16: u32, code32: u32, code64: u32) -> (handler: Self)
        ensures
            handler == (Self { has_modrm: true, code16, code32, code64 }),
    {
        Self { has_modrm: true, code16, code32, code64 }
    }

    /// Decoder and record as [`Self::decode`] leaves them.
    #[verifier::opaque]
    pub open spec fn spec_decode(&self, d: Decoder, i: Instruction) -> Decoded {
        let state = d.state;
        Decoded::at(d, i)
            .code(select3(state.operand_size, self.code16, self.code32, self.code64))
            .op_rm(0, state.rm_register(register::gpr_base(state.operand_size)))
    }

    /// Decodes the operands of the instruction into `instruction`.
    pub fn decode(&self, decoder: &mut Decoder, instruction: &mut Instruction)
        requires
            old(decoder).wf(),
            old(decoder).state.encoding == EncodingKind::Legacy,
        ensures
            *final(decoder) == self.spec_decode(*old(decoder), *old(instruction)).decoder,
            *final(instruction) == self.spec_decode(
                *old(decoder),
                *old(instruction),
            ).instruction,
            final(decoder).wf(),
            final(decoder).frame() == old(decoder).frame(),
    {
        reveal(OpCodeHandler_Evw::spec_decode);
        let state: State = decoder.state;
        instruction.set_code(select3(state.operand_size, self.code16, self.code32, self.code64));
        decoder.op_rm(instruction, 0, state.rm_register(register::gpr_base(state.operand_size)));
    }
}

/// `r/m` in the operand size, of which 16 bits are used.
#[derive(Clone, Copy, Debug, PartialEq, Eq, Structural)]
pub struct OpCodeHandler_Ew {
    pub has_modrm: bool,
    pub code16: u32,
    pub code32: u32,
    pub code64: u32,
}

impl OpCodeHandler_Ew {
    /// A handler that yields one of three codes by operand size.
    pub fn new(code16: u32, code32: u32, code64: u32) -> (handler: Self)
        ensures
            handler == (Self { has_modrm: true, code16, code32, code64 }),
    {
        Self { has_modrm: true, code16, code32, code64 }
    }

    /// Decoder and record as [`Self::decode`] leaves them.
    #[verifier::opaque]
    pub open spec fn spec_decode(&self, d: Decoder, i: Instruction) -> Decoded {
        let state = d.state;
        Decoded::at(d, i)
            .code(select3(state.operand_size, self.code16, self.code32, self.code64))
            .op_rm(0, state.rm_register(register::gpr_base(state.operand_size)))
    }

    /// Decodes the operands of the instruction into `instruction`.
    pub fn decode(&self, decoder: &mut Decoder, instruction: &mut Instruction)
        requires
            old(decoder).wf(),
            old(decoder).state.encoding == EncodingKind::Legacy,
        ensures
            *final(decoder) == self.spec_decode(*old(decoder), *old(instruction)).decoder,
            *final(instruction) == self.spec_decode(
                *old(decoder),
                *old(instruction),
            ).instruction,
            final(decoder).wf(),
            final(decoder).frame() == old(decoder).frame(),
    {
        reveal(OpCodeHandler_Ew::spec_decode);
        let state: State = decoder.state;
        instruction.set_code(select3(state.operand_size, self.code16, self.code32, self.code64));
        decoder.op_rm(instruction, 0, state.rm_register(register::gpr_base(state.operand_size)));
    }
}

/// A descriptor table register in memory.  The opcode table uses the
/// handler for the memory form only.
#[derive(Clone, Copy, Debug, PartialEq, Eq, Structural)]
pub struct OpCodeHandler_Ms {
    pub has_modrm: bool,
    pub code16: u32,
    pub code32: u32,
    pub code64: u32,
}

impl OpCodeHandler_Ms {
    /// A handler that yields `code64` in 64-bit mode, else a code by operand size.
    pub fn new(code16: u32, code32: u32, code64: u32) -> (handler: Self)
        ensures
            handler == (Self { has_modrm: true, code16, code32, code64 }),
    {
        Self { has_modrm: true, code16, code32, code64 }
    }

    /// Decoder and record as [`Self::decode`] leaves them.
    #[verifier::opaque]
    pub open spec fn spec_decode(&self, d: Decoder, i: Instruction) -> Decoded {
        let state = d.state;
        let is64_mode = d.is64_mode;
        let x = Decoded::at(d, i);
        let x = if is64_mode {
            x.code(self.code64)
        } else if state.operand_size == OpSize::Size32 {
            x.code(self.code32)
        } else {
            x.code(self.code16)
        };
        x.op_mem_any(0)
    }

    /// Decodes the operands of the instruction into `instruction`.
    pub fn decode(&self, decoder: &mut Decoder, instruction: &mut Instruction)
        requires
            old(decoder).wf(),
            old(decoder).state.encoding == EncodingKind::Legacy,
        ensures
            *final(decoder) == self.spec_decode(*old(decoder), *old(instruction)).decoder,
            *final(instruction) == self.spec_decode(
                *old(decoder),
                *old(instruction),
            ).instruction,
            final(decoder).wf(),
            final(decoder).frame() == old(decoder).frame(),
    {
        reveal(OpCodeHandler_Ms::spec_decode);
        let state: State = decoder.state;
        let is64_mode: bool = decoder.is64_mode;
        if is64_mode {
            instruction.set_code(self.code64);
        } else if state.operand_size == OpSize::Size32 {
            instruction.set_code(self.code32);
        } else {
            instruction.set_code(self.code16);
        }
        decoder.op_mem_any(instruction, 0);
    }
}

/// `r/m` in the stack operand size.
#[derive(Clone, Copy, Debug, PartialEq, Eq, Structural)]
pub struct OpCodeHandler_PushEv {
    pub has_modrm: bool,
    pub code16: u32,
    pub code32: u32,
    pub code64: u32,
}

impl OpCodeHandler_PushEv {
    /// A handler that yields one of three codes by stack operand size.
    pub fn new(code16: u32, code32: u32, code64: u32) -> (handler: Self)
        ensures
            handler == (Self { has_modrm: true, code16, code32, code64 }),
    {
        Self { has_modrm: true, code16, code32, code64 }
    }

    /// Decoder and record as [`Self::decode`] leaves them.
    #[verifier::opaque]
    pub open spec fn spec_decode(&self, d: Decoder, i: Instruction) -> Decoded {
        let state = d.state;
        let is64_mode = d.is64_mode;
        let x = Decoded::at(d, i);
        let size = stack_size(is64_mode, state.operand_size);
        x
            .code(select3(size, self.code16, self.code32, self.code64))
            .op_rm(0, state.rm_register(register::gpr_base(size)))
    }

    /// Decodes the operands of the instruction into `instruction`.
    pub fn decode(&self, decoder: &mut Decoder, instruction: &mut Instruction)
        requires
            old(decoder).wf(),
            old(decoder).state.encoding == EncodingKind::Legacy,
        ensures
            *final(decoder) == self.spec_decode(*old(decoder), *old(instruction)).decoder,
            *final(instruction) == self.spec_decode(
                *old(decoder),
                *old(instruction),
            ).instruction,
            final(decoder).wf(),
            final(decoder).frame() == old(decoder).frame(),
    {
        reveal(OpCodeHandler_PushEv::spec_decode);
        let state: State = decoder.state;
        let is64_mode: bool = decoder.is64_mode;
        let size: OpSize = stack_size(is64_mode, state.operand_size);
        instruction.set_code(select3(size, self.code16, self.code32, self.code64));
        decoder.op_rm(instruction, 0, state.rm_register(register::gpr_base(size)));
    }
}

/// `r/m, r` in the operand size.  The memory form may be locked.
#[derive(Clone, Copy, Debug, PartialEq, Eq, Structural)]
pub struct OpCodeHandler_Ev_Gv {
    pub has_modrm: bool,
    pub flags: u32,
    pub code16: u32,
    pub code32: u32,
    pub code64: u32,
}

impl OpCodeHandler_Ev_Gv {
    /// A handler that yields one of three codes by operand size, with the lock flags `flags`.
    pub fn new(code16: u32, code32: u32, code64: u32, flags: u32) -> (handler: Self)
        ensures
            handler == (Self { has_modrm: true, flags, code16, code32, code64 }),
    {
        Self { has_modrm: true, flags, code16, code32, code64 }
    }

    /// Decoder and record as [`Self::decode`] leaves them.
    #[verifier::opaque]
    pub open spec fn spec_decode(&self, d: Decoder, i: Instruction) -> Decoded {
        let state = d.state;
        Decoded::at(d, i)
            .op_rm_lock(0, state.rm_register(register::gpr_base(state.operand_size)), self.flags)
            .code(select3(state.operand_size, self.code16, self.code32, self.code64))
            .op_register(1, state.reg_register(register::gpr_base(state.operand_size)))
    }

    /// Decodes the operands of the instruction into `instruction`.
    pub fn decode(&self, decoder: &mut Decoder, instruction: &mut Instruction)
        requires
            old(decoder).wf(),
            old(decoder).state.encoding == EncodingKind::Legacy,
        ensures
            *final(decoder) == self.spec_decode(*old(decoder), *old(instruction)).decoder,
            *final(instruction) == self.spec_decode(
                *old(decoder),
                *old(instruction),
            ).instruction,
            final(decoder).wf(),
            final(decoder).frame() == old(decoder).frame(),
    {
        reveal(OpCodeHandler_Ev_Gv::spec_decode);
        let state: State = decoder.state;
        decoder.op_rm_lock(
            instruction,
            0,
            state.rm_register(register::gpr_base(state.operand_size)),
            self.flags,
        );
        instruction.set_code(select3(state.operand_size, self.code16, self.code32, self.code64));
        instruction.set_op1_register(state.reg_register(register::gpr_base(state.operand_size)));
    }
}

/// `r/m, r`, 64 bits wide in 64-bit mode, else 32.
#[derive(Clone, Copy, Debug, PartialEq, Eq, Structural)]
pub struct OpCodeHandler_Ev_Gv_32_64 {
    pub has_modrm: bool,
    pub code32: u32,
    pub code64: u32,
}

impl OpCodeHandler_Ev_Gv_32_64 {
    /// A handler that yields `code64` in 64-bit mode, else `code32`.
    pub fn new(code32: u32, code64: u32) -> (handler: Self)
        ensures
            handler == (Self { has_modrm: true, code32, code64 }),
    {
        Self { has_modrm: true, code32, code64 }
    }

    /// Decoder and record as [`Self::decode`] leaves them.
    #[verifier::opaque]
    pub open spec fn spec_decode(&self, d: Decoder, i: Instruction) -> Decoded {
        let state = d.state;
        let is64_mode = d.is64_mode;
        Decoded::at(d, i)
            .code(if is64_mode { self.code64 } else { self.code32 })
            .op_rm(0, state.rm_register(register::gpr32_or_64(is64_mode)))
            .op_register(1, state.reg_register(register::gpr32_or_64(is64_mode)))
    }

    /// Decodes the operands of the instruction into `instruction`.
    pub fn decode(&self, decoder: &mut Decoder, instruction: &mut Instruction)
        requires
            old(decoder).wf(),
            old(decoder).state.encoding == EncodingKind::Legacy,
        ensures
            *final(decoder) == self.spec_decode(*old(decoder), *old(instruction)).decoder,
            *final(instruction) == self.spec_decode(
                *old(decoder),
                *old(instruction),
            ).instruction,
            final(decoder).wf(),
            final(decoder).frame() == old(decoder).frame(),
    {
        reveal(OpCodeHandler_Ev_Gv_32_64::spec_decode);
        let state: State = decoder.state;
        let is64_mode: bool = decoder.is64_mode;
        instruction.set_code(if is64_mode { self.code64 } else { self.code32 });
        decoder.op_rm(instruction, 0, state.rm_register(register::gpr32_or_64(is64_mode)));
        instruction.set_op1_register(state.reg_register(register::gpr32_or_64(is64_mode)));
    }
}

/// `r/m, r, imm8` in the operand size.
#[derive(Clone, Copy, Debug, PartialEq, Eq, Structural)]
pub struct OpCodeHandler_Ev_Gv_Ib {
    pub has_modrm: bool,
    pub code16: u32,
    pub code32: u32,
    pub code64: u32,
}

impl OpCodeHandler_Ev_Gv_Ib {
    /// A handler that yields one of three codes by operand size.
    pub fn new(code16: u32, code32: u32, code64: u32) -> (handler: Self)
        ensures
            handler == (Self { has_modrm: true, code16, code32, code64 }),
    {
        Self { has_modrm: true, code16, code32, code64 }
    }

    /// Decoder and record as [`Self::decode`] leaves them.
    #[verifier::opaque]
    pub open spec fn spec_decode(&self, d: Decoder, i: Instruction) -> Decoded {
        let state = d.state;
        Decoded::at(d, i)
            .op_rm(0, state.rm_register(register::gpr_base(state.operand_size)))
            .code(select3(state.operand_size, self.code16, self.code32, self.code64))
            .op_register(1, state.reg_register(register::gpr_base(state.operand_size)))
            .imm8(2, OpKind::Immediate8)
    }

    /// Decodes the operands of the instruction into `instruction`.
    pub fn decode(&self, decoder: &mut Decoder, instruction: &mut Instruction)
        requires
            old(decoder).wf(),
            old(decoder).state.encoding == EncodingKind::Legacy,
        ensures
            *final(decoder) == self.spec_decode(*old(decoder), *old(instruction)).decoder,
            *final(instruction) == self.spec_decode(
                *old(decoder),
                *old(instruction),
            ).instruction,
            final(decoder).wf(),
            final(decoder).frame() == old(decoder).frame(),
    {
        reveal(OpCodeHandler_Ev_Gv_Ib::spec_decode);
        let state: State = decoder.state;
        decoder.op_rm(instruction, 0, state.rm_register(register::gpr_base(state.operand_size)));
        instruction.set_code(select3(state.operand_size, self.code16, self.code32, self.code64));
        instruction.set_op1_register(state.reg_register(register::gpr_base(state.operand_size)));
        decoder.op_imm8(instruction, 2, OpKind::Immediate8);
    }
}

/// `r/m, r, CL` in the operand size.
#[derive(Clone, Copy, Debug, PartialEq, Eq, Structural)]
pub struct OpCodeHandler_Ev_Gv_CL {
    pub has_modrm: bool,
    pub code16: u32,
    pub code32: u32,
    pub code64: u32,
}

impl OpCodeHandler_Ev_Gv_CL {
    /// A handler that yields one of three codes by operand size.
    pub fn new(code16: u32, code32: u32, code64: u32) -> (handler: Self)
        ensures
            handler == (Self { has_modrm: true, code16, code32, code64 }),
    {
        Self { has_modrm: true, code16, code32, code64 }
    }

    /// Decoder and record as [`Self::decode`] leaves them.
    #[verifier::opaque]
    pub open spec fn spec_decode(&self, d: Decoder, i: Instruction) -> Decoded {
        let state = d.state;
        Decoded::at(d, i)
            .op_rm(0, state.rm_register(register::gpr_base(state.operand_size)))
            .code(select3(state.operand_size, self.code16, self.code32, self.code64))
            .op_register(1, state.reg_register(register::gpr_base(state.operand_size)))
            .op_register(2, register::CL)
    }

    /// Decodes the operands of the instruction into `instruction`.
    pub fn decode(&self, decoder: &mut Decoder, instruction: &mut Instruction)
        requires
            old(decoder).wf(),
            old(decoder).state.encoding == EncodingKind::Legacy,
        ensures
            *final(decoder) == self.spec_decode(*old(decoder), *old(instruction)).decoder,
            *final(instruction) == self.spec_decode(
                *old(decoder),
                *old(instruction),
            ).instruction,
            final(decoder).wf(),
            final(decoder).frame() == old(decoder).frame(),
    {
        reveal(OpCodeHandler_Ev_Gv_CL::spec_decode);
        let state: State = decoder.state;
        decoder.op_rm(instruction, 0, state.rm_register(register::gpr_base(state.operand_size)));
        instruction.set_code(select3(state.operand_size, self.code16, self.code32, self.code64));
        instruction.set_op1_register(state.reg_register(register::gpr_base(state.operand_size)));
        instruction.set_op2_register(register::CL);
    }
}

/// `r/m, Sreg`: the segment register that reg selects.
#[derive(Clone, Copy, Debug, PartialEq, Eq, Structural)]
pub struct OpCodeHandler_Ev_Sw {
    pub has_modrm: bool,
    pub code16: u32,
    pub code32: u32,
    pub code64: u32,
}

impl OpCodeHandler_Ev_Sw {
    /// A handler that yields one of three codes by operand size.
    pub fn new(code16: u32, code32: u32, code64: u32) -> (handler: Self)
        ensures
            handler == (Self { has_modrm: true, code16, code32, code64 }),
    {
        Self { has_modrm: true, code16, code32, code64 }
    }

    /// Decoder and record as [`Self::decode`] leaves them.
    #[verifier::opaque]
    pub open spec fn spec_decode(&self, d: Decoder, i: Instruction) -> Decoded {
        let state = d.state;
        Decoded::at(d, i)
            .code(select3(state.operand_size, self.code16, self.code32, self.code64))
            .op_rm(0, state.rm_register(register::gpr_base(state.operand_size)))
            .seg_reg(1)
    }

    /// Decodes the operands of the instruction into `instruction`.
    pub fn decode(&self, decoder: &mut Decoder, instruction: &mut Instruction)
        requires
            old(decoder).wf(),
            old(decoder).state.encoding == EncodingKind::Legacy,
        ensures
            *final(decoder) == self.spec_decode(*old(decoder), *old(instruction)).decoder,
            *final(instruction) == self.spec_decode(
                *old(decoder),
                *old(instruction),
            ).instruction,
            final(decoder).wf(),
            final(decoder).frame() == old(decoder).frame(),
    {
        reveal(OpCodeHandler_Ev_Sw::spec_decode);
        let state: State = decoder.state;
        instruction.set_code(select3(state.operand_size, self.code16, self.code32, self.code64));
        decoder.op_rm(instruction, 0, state.rm_register(register::gpr_base(state.operand_size)));
        decoder.op_seg_reg(instruction, 1);
    }
}

/// `Sreg, r/m`.  `CS` cannot be written: that form is invalid.
#[derive(Clone, Copy, Debug, PartialEq, Eq, Structural)]
pub struct OpCodeHandler_Sw_Ev {
    pub has_modrm: bool,
    pub code16: u32,
    pub code32: u32,
    pub code64: u32,
}

impl OpCodeHandler_Sw_Ev {
    /// A handler that yields one of three codes by operand size.
    pub fn new(code16: u32, code32: u32, code64: u32) -> (handler: Self)
        ensures
            handler == (Self { has_modrm: true, code16, code32, code64 }),
    {
        Self { has_modrm: true, code16, code32, code64 }
    }

    /// Decoder and record as [`Self::decode`] leaves them.
    #[verifier::opaque]
    pub open spec fn spec_decode(&self, d: Decoder, i: Instruction) -> Decoded {
        let state = d.state;
        let check = d.invalid_check;
        Decoded::at(d, i)
            .code(select3(state.operand_size, self.code16, self.code32, self.code64))
            .seg_reg(0)
            .invalid_if(check && state.reg == 1)
            .op_rm(1, state.rm_register(register::gpr_base(state.operand_size)))
    }

    /// Decodes the operands of the instruction into `instruction`.
    pub fn decode(&self, decoder: &mut Decoder, instruction: &mut Instruction)
        requires
            old(decoder).wf(),
            old(decoder).state.encoding == EncodingKind::Legacy,
        ensures
            *final(decoder) == self.spec_decode(*old(decoder), *old(instruction)).decoder,
            *final(instruction) == self.spec_decode(
                *old(decoder),
                *old(instruction),
            ).instruction,
            final(decoder).wf(),
            final(decoder).frame() == old(decoder).frame(),
    {
        reveal(OpCodeHandler_Sw_Ev::spec_decode);
        let state: State = decoder.state;
        let check: bool = decoder.invalid_check;
        instruction.set_code(select3(state.operand_size, self.code16, self.code32, self.code64));
        decoder.op_seg_reg(instruction, 0);
        decoder.set_invalid_instruction_if(check && state.reg == 1);
        decoder.op_rm(instruction, 1, state.rm_register(register::gpr_base(state.operand_size)));
    }
}

/// `m, r` in the operand size; the register form is invalid.
#[derive(Clone, Copy, Debug, PartialEq, Eq, Structural)]
pub struct OpCodeHandler_Mv_Gv {
    pub has_modrm: bool,
    pub code16: u32,
    pub code32: u32,
    pub code64: u32,
}

impl OpCodeHandler_Mv_Gv {
    /// A handler that yields one of three codes by operand size.
    pub fn new(code16: u32, code32: u32, code64: u32) -> (handler: Self)
        ensures
            handler == (Self { has_modrm: true, code16, code32, code64 }),
    {
        Self { has_modrm: true, code16, code32, code64 }
    }

    /// Decoder and record as [`Self::decode`] leaves them.
    #[verifier::opaque]
    pub open spec fn spec_decode(&self, d: Decoder, i: Instruction) -> Decoded {
        let state = d.state;
        Decoded::at(d, i)
            .op_mem(0)
            .code(select3(state.operand_size, self.code16, self.code32, self.code64))
            .op_register(1, state.reg_register(register::gpr_base(state.operand_size)))
    }

    /// Decodes the operands of the instruction into `instruction`.
    pub fn decode(&self, decoder: &mut Decoder, instruction: &mut Instruction)
        requires
            old(decoder).wf(),
            old(decoder).state.encoding == EncodingKind::Legacy,
        ensures
            *final(decoder) == self.spec_decode(*old(decoder), *old(instruction)).decoder,
            *final(instruction) == self.spec_decode(
                *old(decoder),
                *old(instruction),
            ).instruction,
            final(decoder).wf(),
            final(decoder).frame() == old(decoder).frame(),
    {
        reveal(OpCodeHandler_Mv_Gv::spec_decode);
        let state: State = decoder.state;
        decoder.op_mem(instruction, 0);
        instruction.set_code(select3(state.operand_size, self.code16, self.code32, self.code64));
        instruction.set_op1_register(state.reg_register(register::gpr_base(state.operand_size)));
    }
}

/// `m, r`, 64 bits wide under W, else 32; the register form is invalid.
#[derive(Clone, Copy, Debug, PartialEq, Eq, Structural)]
pub struct OpCodeHandler_Mv_Gv_REXW {
    pub has_modrm: bool,
    pub code32: u32,
    pub code64: u32,
}

impl OpCodeHandler_Mv_Gv_REXW {
    /// A handler that yields `code64` under W, else `code32`.
    pub fn new(code32: u32, code64: u32) -> (handler: Self)
        ensures
            handler == (Self { has_modrm: true, code32, code64 }),
    {
        Self { has_modrm: true, code32, code64 }
    }

    /// Decoder and record as [`Self::decode`] leaves them.
    #[verifier::opaque]
    pub open spec fn spec_decode(&self, d: Decoder, i: Instruction) -> Decoded {
        let state = d.state;
        Decoded::at(d, i)
            .op_mem(0)
            .code(if state.flags.w { self.code64 } else { self.code32 })
            .op_register(1, state.reg_register(register::gpr32_or_64(state.flags.w)))
    }

    /// Decodes the operands of the instruction into `instruction`.
    pub fn decode(&self, decoder: &mut Decoder, instruction: &mut Instruction)
        requires
            old(decoder).wf(),
            old(decoder).state.encoding == EncodingKind::Legacy,
        ensures
            *final(decoder) == self.spec_decode(*old(decoder), *old(instruction)).decoder,
            *final(instruction) == self.spec_decode(
                *old(decoder),
                *old(instruction),
            ).instruction,
            final(decoder).wf(),
            final(decoder).frame() == old(decoder).frame(),
    {
        reveal(OpCodeHandler_Mv_Gv_REXW::spec_decode);
        let state: State = decoder.state;
        decoder.op_mem(instruction, 0);
        instruction.set_code(if state.flags.w { self.code64 } else { self.code32 });
        instruction.set_op1_register(state.reg_register(register::gpr32_or_64(state.flags.w)));
    }
}

/// `m, r`, 64 bits wide under W, else 32.  The opcode table uses the
/// handler for the memory form only.
#[derive(Clone, Copy, Debug, PartialEq, Eq, Structural)]
pub struct OpCodeHandler_Ev_Gv_REX {
    pub has_modrm: bool,
    pub code32: u32,
    pub code64: u32,
}

impl OpCodeHandler_Ev_Gv_REX {
    /// A handler that yields `code64` under W, else `code32`.
    pub fn new(code32: u32, code64: u32) -> (handler: Self)
        ensures
            handler == (Self { has_modrm: true, code32, code64 }),
    {
        Self { has_modrm: true, code32, code64 }
    }

    /// Decoder and record as [`Self::decode`] leaves them.
    #[verifier::opaque]
    pub open spec fn spec_decode(&self, d: Decoder, i: Instruction) -> Decoded {
        let state = d.state;
        Decoded::at(d, i)
            .op_mem_any(0)
            .code(if state.flags.w { self.code64 } else { self.code32 })
            .op_register(1, state.reg_register(register::gpr32_or_64(state.flags.w)))
    }

    /// Decodes the operands of the instruction into `instruction`.
    pub fn decode(&self, decoder: &mut Decoder, instruction: &mut Instruction)
        requires
            old(decoder).wf(),
            old(decoder).state.encoding == EncodingKind::Legacy,
        ensures
            *final(decoder) == self.spec_decode(*old(decoder), *old(instruction)).decoder,
            *final(instruction) == self.spec_decode(
                *old(decoder),
                *old(instruction),
            ).instruction,
            final(decoder).wf(),
            final(decoder).frame() == old(decoder).frame(),
    {
        reveal(OpCodeHandler_Ev_Gv_REX::spec_decode);
        let state: State = decoder.state;
        decoder.op_mem_any(instruction, 0);
        instruction.set_code(if state.flags.w { self.code64 } else { self.code32 });
        instruction.set_op1_register(state.reg_register(register::gpr32_or_64(state.flags.w)));
    }
}

/// A handler whose first operand is the register or memory that rm encodes.
#[derive(Clone, Copy, Debug, PartialEq, Eq, Structural)]
pub enum EvHandler {
    Ev_Iz(OpCodeHandler_Ev_Iz),
    Ev_Ib(OpCodeHandler_Ev_Ib),
    Ev_Ib2(OpCodeHandler_Ev_Ib2),
    Ev_1(OpCodeHandler_Ev_1),
    Ev_CL(OpCodeHandler_Ev_CL),
    Ev(OpCodeHandler_Ev),
    Rv(OpCodeHandler_Rv),
    Rv_32_64(OpCodeHandler_Rv_32_64),
    Ev_REXW(OpCodeHandler_Ev_REXW),
    Evj(OpCodeHandler_Evj),
    Ep(OpCodeHandler_Ep),
    Evw(OpCodeHandler_Evw),
    Ew(OpCodeHandler_Ew),
    Ms(OpCodeHandler_Ms),
    PushEv(OpCodeHandler_PushEv),
    Ev_Gv(OpCodeHandler_Ev_Gv),
    Ev_Gv_32_64(OpCodeHandler_Ev_Gv_32_64),
    Ev_Gv_Ib(OpCodeHandler_Ev_Gv_Ib),
    Ev_Gv_CL(OpCodeHandler_Ev_Gv_CL),
    Ev_Sw(OpCodeHandler_Ev_Sw),
    Sw_Ev(OpCodeHandler_Sw_Ev),
    Mv_Gv(OpCodeHandler_Mv_Gv),
    Mv_Gv_REXW(OpCodeHandler_Mv_Gv_REXW),
    Ev_Gv_REX(OpCodeHandler_Ev_Gv_REX),
}

impl EvHandler {
    /// Whether a ModRM byte follows the opcode.
    pub open spec fn spec_has_modrm(&self) -> bool {
        match self {
            EvHandler::Ev_Iz(h) => h.has_modrm,
            EvHandler::Ev_Ib(h) => h.has_modrm,
            EvHandler::Ev_Ib2(h) => h.has_modrm,
            EvHandler::Ev_1(h) => h.has_modrm,
            EvHandler::Ev_CL(h) => h.has_modrm,
            EvHandler::Ev(h) => h.has_modrm,
            EvHandler::Rv(h) => h.has_modrm,
            EvHandler::Rv_32_64(h) => h.has_modrm,
            EvHandler::Ev_REXW(h) => h.has_modrm,
            EvHandler::Evj(h) => h.has_modrm,
            EvHandler::Ep(h) => h.has_modrm,
            EvHandler::Evw(h) => h.has_modrm,
            EvHandler::Ew(h) => h.has_modrm,
            EvHandler::Ms(h) => h.has_modrm,
            EvHandler::PushEv(h) => h.has_modrm,
            EvHandler::Ev_Gv(h) => h.has_modrm,
            EvHandler::Ev_Gv_32_64(h) => h.has_modrm,
            EvHandler::Ev_Gv_Ib(h) => h.has_modrm,
            EvHandler::Ev_Gv_CL(h) => h.has_modrm,
            EvHandler::Ev_Sw(h) => h.has_modrm,
            EvHandler::Sw_Ev(h) => h.has_modrm,
            EvHandler::Mv_Gv(h) => h.has_modrm,
            EvHandler::Mv_Gv_REXW(h) => h.has_modrm,
            EvHandler::Ev_Gv_REX(h) => h.has_modrm,
        }
    }

    /// Whether a ModRM byte follows the opcode.
    #[verifier::when_used_as_spec(spec_has_modrm)]
    pub fn has_modrm(&self) -> (b: bool)
        ensures
            b == self.spec_has_modrm(),
    {
        match self {
            EvHandler::Ev_Iz(h) => h.has_modrm,
            EvHandler::Ev_Ib(h) => h.has_modrm,
            EvHandler::Ev_Ib2(h) => h.has_modrm,
            EvHandler::Ev_1(h) => h.has_modrm,
            EvHandler::Ev_CL(h) => h.has_modrm,
            EvHandler::Ev(h) => h.has_modrm,
            EvHandler::Rv(h) => h.has_modrm,
            EvHandler::Rv_32_64(h) => h.has_modrm,
            EvHandler::Ev_REXW(h) => h.has_modrm,
            EvHandler::Evj(h) => h.has_modrm,
            EvHandler::Ep(h) => h.has_modrm,
            EvHandler::Evw(h) => h.has_modrm,
            EvHandler::Ew(h) => h.has_modrm,
            EvHandler::Ms(h) => h.has_modrm,
            EvHandler::PushEv(h) => h.has_modrm,
            EvHandler::Ev_Gv(h) => h.has_modrm,
            EvHandler::Ev_Gv_32_64(h) => h.has_modrm,
            EvHandler::Ev_Gv_Ib(h) => h.has_modrm,
            EvHandler::Ev_Gv_CL(h) => h.has_modrm,
            EvHandler::Ev_Sw(h) => h.has_modrm,
            EvHandler::Sw_Ev(h) => h.has_modrm,
            EvHandler::Mv_Gv(h) => h.has_modrm,
            EvHandler::Mv_Gv_REXW(h) => h.has_modrm,
            EvHandler::Ev_Gv_REX(h) => h.has_modrm,
        }
    }

    /// The handler is well-formed.
    pub open spec fn wf(&self) -> bool {
        match self {
            EvHandler::Ev_Iz(_) => true,
            EvHandler::Ev_Ib(_) => true,
            EvHandler::Ev_Ib2(_) => true,
            EvHandler::Ev_1(_) => true,
            EvHandler::Ev_CL(_) => true,
            EvHandler::Ev(_) => true,
            EvHandler::Rv(_) => true,
            EvHandler::Rv_32_64(_) => true,
            EvHandler::Ev_REXW(_) => true,
            EvHandler::Evj(_) => true,
            EvHandler::Ep(_) => true,
            EvHandler::Evw(_) => true,
            EvHandler::Ew(_) => true,
            EvHandler::Ms(_) => true,
            EvHandler::PushEv(_) => true,
            EvHandler::Ev_Gv(_) => true,
            EvHandler::Ev_Gv_32_64(_) => true,
            EvHandler::Ev_Gv_Ib(_) => true,
            EvHandler::Ev_Gv_CL(_) => true,
            EvHandler::Ev_Sw(_) => true,
            EvHandler::Sw_Ev(_) => true,
            EvHandler::Mv_Gv(_) => true,
            EvHandler::Mv_Gv_REXW(_) => true,
            EvHandler::Ev_Gv_REX(_) => true,
        }
    }

    /// Whether the handler is well-formed.
    #[verifier::when_used_as_spec(wf)]
    pub fn is_wf(&self) -> (b: bool)
        ensures
            b == self.wf(),
    {
        match self {
            EvHandler::Ev_Iz(_) => true,
            EvHandler::Ev_Ib(_) => true,
            EvHandler::Ev_Ib2(_) => true,
            EvHandler::Ev_1(_) => true,
            EvHandler::Ev_CL(_) => true,
            EvHandler::Ev(_) => true,
            EvHandler::Rv(_) => true,
            EvHandler::Rv_32_64(_) => true,
            EvHandler::Ev_REXW(_) => true,
            EvHandler::Evj(_) => true,
            EvHandler::Ep(_) => true,
            EvHandler::Evw(_) => true,
            EvHandler::Ew(_) => true,
            EvHandler::Ms(_) => true,
            EvHandler::PushEv(_) => true,
            EvHandler::Ev_Gv(_) => true,
            EvHandler::Ev_Gv_32_64(_) => true,
            EvHandler::Ev_Gv_Ib(_) => true,
            EvHandler::Ev_Gv_CL(_) => true,
            EvHandler::Ev_Sw(_) => true,
            EvHandler::Sw_Ev(_) => true,
            EvHandler::Mv_Gv(_) => true,
            EvHandler::Mv_Gv_REXW(_) => true,
            EvHandler::Ev_Gv_REX(_) => true,
        }
    }

    /// Decoder and record as [`Self::decode`] leaves them.
    #[verifier::opaque]
    pub open spec fn spec_decode(&self, d: Decoder, i: Instruction) -> Decoded {
        match self {
            EvHandler::Ev_Iz(h) => h.spec_decode(d, i),
            EvHandler::Ev_Ib(h) => h.spec_decode(d, i),
            EvHandler::Ev_Ib2(h) => h.spec_decode(d, i),
            EvHandler::Ev_1(h) => h.spec_decode(d, i),
            EvHandler::Ev_CL(h) => h.spec_decode(d, i),
            EvHandler::Ev(h) => h.spec_decode(d, i),
            EvHandler::Rv(h) => h.spec_decode(d, i),
            EvHandler::Rv_32_64(h) => h.spec_decode(d, i),
            EvHandler::Ev_REXW(h) => h.spec_decode(d, i),
            EvHandler::Evj(h) => h.spec_decode(d, i),
            EvHandler::Ep(h) => h.spec_decode(d, i),
            EvHandler::Evw(h) => h.spec_decode(d, i),
            EvHandler::Ew(h) => h.spec_decode(d, i),
            EvHandler::Ms(h) => h.spec_decode(d, i),
            EvHandler::PushEv(h) => h.spec_decode(d, i),
            EvHandler::Ev_Gv(h) => h.spec_decode(d, i),
            EvHandler::Ev_Gv_32_64(h) => h.spec_decode(d, i),
            EvHandler::Ev_Gv_Ib(h) => h.spec_decode(d, i),
            EvHandler::Ev_Gv_CL(h) => h.spec_decode(d, i),
            EvHandler::Ev_Sw(h) => h.spec_decode(d, i),
            EvHandler::Sw_Ev(h) => h.spec_decode(d, i),
            EvHandler::Mv_Gv(h) => h.spec_decode(d, i),
            EvHandler::Mv_Gv_REXW(h) => h.spec_decode(d, i),
            EvHandler::Ev_Gv_REX(h) => h.spec_decode(d, i),
        }
    }

    /// Decodes the operands of the instruction with the handler that `self` holds.
    pub fn decode(&self, decoder: &mut Decoder, instruction: &mut Instruction)
        requires
            old(decoder).wf(),
            self.wf(),
            old(decoder).state.encoding == EncodingKind::Legacy,
        ensures
            *final(decoder) == self.spec_decode(*old(decoder), *old(instruction)).decoder,
            *final(instruction) == self.spec_decode(
                *old(decoder),
                *old(instruction),
            ).instruction,
            final(decoder).wf(),
            final(decoder).frame() == old(decoder).frame(),
    {
        reveal(EvHandler::spec_decode);
        match self {
            EvHandler::Ev_Iz(h) => h.decode(decoder, instruction),
            EvHandler::Ev_Ib(h) => h.decode(decoder, instruction),
            EvHandler::Ev_Ib2(h) => h.decode(decoder, instruction),
            EvHandler::Ev_1(h) => h.decode(decoder, instruction),
            EvHandler::Ev_CL(h) => h.decode(decoder, instruction),
            EvHandler::Ev(h) => h.decode(decoder, instruction),
            EvHandler::Rv(h) => h.decode(decoder, instruction),
            EvHandler::Rv_32_64(h) => h.decode(decoder, instruction),
            EvHandler::Ev_REXW(h) => h.decode(decoder, instruction),
            EvHandler::Evj(h) => h.decode(decoder, instruction),
            EvHandler::Ep(h) => h.decode(decoder, instruction),
            EvHandler::Evw(h) => h.decode(decoder, instruction),
            EvHandler::Ew(h) => h.decode(decoder, instruction),
            EvHandler::Ms(h) => h.decode(decoder, instruction),
            EvHandler::PushEv(h) => h.decode(decoder, instruction),
            EvHandler::Ev_Gv(h) => h.decode(decoder, instruction),
            EvHandler::Ev_Gv_32_64(h) => h.decode(decoder, instruction),
            EvHandler::Ev_Gv_Ib(h) => h.decode(decoder, instruction),
            EvHandler::Ev_Gv_CL(h) => h.decode(decoder, instruction),
            EvHandler::Ev_Sw(h) => h.decode(decoder, instruction),
            EvHandler::Sw_Ev(h) => h.decode(decoder, instruction),
            EvHandler::Mv_Gv(h) => h.decode(decoder, instruction),
            EvHandler::Mv_Gv_REXW(h) => h.decode(decoder, instruction),
            EvHandler::Ev_Gv_REX(h) => h.decode(decoder, instruction),
        }
    }
}

} // verus!
