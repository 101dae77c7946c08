//! Legacy handlers whose first operand is the register that reg selects.
use vstd::prelude::*;
use crate::decoder::{Decoder, State};
use crate::enums::{EncodingKind, OpKind, OpSize};
use crate::instruction::Instruction;
use crate::operand::{select3, Decoded};
use crate::options::{has_flag, DecoderOptions};
use crate::register;

verus! {

/// `r, r/m` in the operand size.
#[derive(Clone, Copy, Debug, PartialEq, Eq, Structural)]
pub struct OpCodeHandler_Gv_Ev {
    pub has_modrm: bool,
    pub code16: u32,
    pub code32: u32,
    pub code64: u32,
}

impl OpCodeHandler_Gv_Ev {
    /// A handler that yields one of three codes by operand size.
    pub fn new(code16: u32, code32: u32, code64: u32) -> (handler: Self)
        ensures
            handler == (Self { has_modrm: true, code16, code32, code64 }),
    {
        Self { has_modrm: true, code16, code32, code64 }
    }

    /// Decoder and record as [`Self::decode`] leaves them.
    #[verifier::opaque]
    pub open spec fn spec_decode(&self, d: Decoder, i: Instruction) -> Decoded {
        let state = d.state;
        Decoded::at(d, i)
            .code(select3(state.operand_size, self.code16, self.code32, self.code64))
            .op_register(0, state.reg_register(register::gpr_base(state.operand_size)))
            .op_rm(1, state.rm_register(register::gpr_base(state.operand_size)))
    }

    /// Decodes the operands of the instruction into `instruction`.
    pub fn decode(&self, decoder: &mut Decoder, instruction: &mut Instruction)
        requires
            old(decoder).wf(),
            old(decoder).state.encoding == EncodingKind::Legacy,
        ensures
            *final(decoder) == self.spec_decode(*old(decoder), *old(instruction)).decoder,
            *final(instruction) == self.spec_decode(
                *old(decoder),
                *old(instruction),
            ).instruction,
            final(decoder).wf(),
            final(decoder).frame() == old(decoder).frame(),
    {
        reveal(OpCodeHandler_Gv_Ev::spec_decode);
        let state: State = decoder.state;
        instruction.set_code(select3(state.operand_size, self.code16, self.code32, self.code64));
        instruction.set_op0_register(state.reg_register(register::gpr_base(state.operand_size)));
        decoder.op_rm(instruction, 1, state.rm_register(register::gpr_base(state.operand_size)));
    }
}

/// `r, m` with the register in the address size; the register form is invalid.
#[derive(Clone, Copy, Debug, PartialEq, Eq, Structural)]
pub struct OpCodeHandler_Gv_M_as {
    pub has_modrm: bool,
    pub code16: u32,
    pub code32: u32,
    pub code64: u32,
}

impl OpCodeHandler_Gv_M_as {
    /// A handler that yields one of three codes by address size.
    pub fn new(code16: u32, code32: u32, code64: u32) -> (handler: Self)
        ensures
            handler == (Self { has_modrm: true, code16, code32, code64 }),
    {
        Self { has_modrm: true, code16, code32, code64 }
    }

    /// Decoder and record as [`Self::decode`] leaves them.
    #[verifier::opaque]
    pub open spec fn spec_decode(&self, d: Decoder, i: Instruction) -> Decoded {
        let state = d.state;
        Decoded::at(d, i)
            .code(select3(state.address_size, self.code16, self.code32, self.code64))
            .op_register(0, state.reg_register(register::gpr_base(state.address_size)))
            .op_mem(1)
    }

    /// Decodes the operands of the instruction into `instruction`.
    pub fn decode(&self, decoder: &mut Decoder, instruction: &mut Instruction)
        requires
            old(decoder).wf(),
            old(decoder).state.encoding == EncodingKind::Legacy,
        ensures
            *final(decoder) == self.spec_decode(*old(decoder), *old(instruction)).decoder,
            *final(instruction) == self.spec_decode(
                *old(decoder),
                *old(instruction),
            ).instruction,
            final(decoder).wf(),
            final(decoder).frame() == old(decoder).frame(),
    {
        reveal(OpCodeHandler_Gv_M_as::spec_decode);
        let state: State = decoder.state;
        instruction.set_code(select3(state.address_size, self.code16, self.code32, self.code64));
        instruction.set_op0_register(state.reg_register(register::gpr_base(state.address_size)));
        decoder.op_mem(instruction, 1);
    }
}

/// `r, r/m` where the first register is at least 32 bits wide.
#[derive(Clone, Copy, Debug, PartialEq, Eq, Structural)]
pub struct OpCodeHandler_Gdq_Ev {
    pub has_modrm: bool,
    pub code16: u32,
    pub code32: u32,
    pub code64: u32,
}

impl OpCodeHandler_Gdq_Ev {
    /// A handler that yields one of three codes by operand size.
    pub fn new(code16: u32, code32: u32, code64: u32) -> (handler: Self)
        ensures
            handler == (Self { has_modrm: true, code16, code32, code64 }),
    {
        Self { has_modrm: true, code16, code32, code64 }
    }

    /// Decoder and record as [`Self::decode`] leaves them.
    #[verifier::opaque]
    pub open spec fn spec_decode(&self, d: Decoder, i: Instruction) -> Decoded {
        let state = d.state;
        Decoded::at(d, i)
            .code(select3(state.operand_size, self.code16, self.code32, self.code64))
            .op_register(
                0,
                state.reg_register(register::gpr32_or_64(state.operand_size == OpSize::Size64)),
            )
            .op_rm(1, state.rm_register(register::gpr_base(state.operand_size)))
    }

    /// Decodes the operands of the instruction into `instruction`.
    pub fn decode(&self, decoder: &mut Decoder, instruction: &mut Instruction)
        requires
            old(decoder).wf(),
            old(decoder).state.encoding == EncodingKind::Legacy,
        ensures
            *final(decoder) == self.spec_decode(*old(decoder), *old(instruction)).decoder,
            *final(instruction) == self.spec_decode(
                *old(decoder),
                *old(instruction),
            ).instruction,
            final(decoder).wf(),
            final(decoder).frame() == old(decoder).frame(),
    {
        reveal(OpCodeHandler_Gdq_Ev::spec_decode);
        let state: State = decoder.state;
        instruction.set_code(select3(state.operand_size, self.code16, self.code32, self.code64));
        instruction.set_op0_register(
            state.reg_register(register::gpr32_or_64(state.operand_size == OpSize::Size64)),
        );
        decoder.op_rm(instruction, 1, state.rm_register(register::gpr_base(state.operand_size)));
    }
}

/// `r, r/m` in the operand size, where the memory form is 16 bits wide.
#[derive(Clone, Copy, Debug, PartialEq, Eq, Structural)]
pub struct OpCodeHandler_Gv_Ev3 {
    pub has_modrm: bool,
    pub code16: u32,
    pub code32: u32,
    pub code64: u32,
}

impl OpCodeHandler_Gv_Ev3 {
    /// A handler that yields one of three codes by operand size.
    pub fn new(code16: u32, code32: u32, code64: u32) -> (handler: Self)
        ensures
            handler == (Self { has_modrm: true, code16, code32, code64 }),
    {
        Self { has_modrm: true, code16, code32, code64 }
    }

    /// Decoder and record as [`Self::decode`] leaves them.
    #[verifier::opaque]
    pub open spec fn spec_decode(&self, d: Decoder, i: Instruction) -> Decoded {
        let state = d.state;
        Decoded::at(d, i)
            .code(select3(state.operand_size, self.code16, self.code32, self.code64))
            .op_register(0, state.reg_register(register::gpr_base(state.operand_size)))
            .op_rm(1, state.rm_register(register::gpr_base(state.operand_size)))
    }

    /// Decodes the operands of the instruction into `instruction`.
    pub fn decode(&self, decoder: &mut Decoder, instruction: &mut Instruction)
        requires
            old(decoder).wf(),
            old(decoder).state.encoding == EncodingKind::Legacy,
        ensures
            *final(decoder) == self.spec_decode(*old(decoder), *old(instruction)).decoder,
            *final(instruction) == self.spec_decode(
                *old(decoder),
                *old(instruction),
            ).instruction,
            final(decoder).wf(),
            final(decoder).frame() == old(decoder).frame(),
    {
        reveal(OpCodeHandler_Gv_Ev3::spec_decode);
        let state: State = decoder.state;
        instruction.set_code(select3(state.operand_size, self.code16, self.code32, self.code64));
        instruction.set_op0_register(state.reg_register(register::gpr_base(state.operand_size)));
        decoder.op_rm(instruction, 1, state.rm_register(register::gpr_base(state.operand_size)));
    }
}

/// `r, r/m` where the second register is at most 32 bits wide.
#[derive(Clone, Copy, Debug, PartialEq, Eq, Structural)]
pub struct OpCodeHandler_Gv_Ev2 {
    pub has_modrm: bool,
    pub code16: u32,
    pub code32: u32,
    pub code64: u32,
}

impl OpCodeHandler_Gv_Ev2 {
    /// A handler that yields one of three codes by operand size.
    pub fn new(code16: u32, code32: u32, code64: u32) -> (handler: Self)
        ensures
            handler == (Self { has_modrm: true, code16, code32, code64 }),
    {
        Self { has_modrm: true, code16, code32, code64 }
    }

    /// Decoder and record as [`Self::decode`] leaves them.
    #[verifier::opaque]
    pub open spec fn spec_decode(&self, d: Decoder, i: Instruction) -> Decoded {
        let state = d.state;
        Decoded::at(d, i)
            .code(select3(state.operand_size, self.code16, self.code32, self.code64))
            .op_register(0, state.reg_register(register::gpr_base(state.operand_size)))
            .op_rm(1, state.rm_register(register::gpr16_or_32(state.operand_size)))
    }

    /// Decodes the operands of the instruction into `instruction`.
    pub fn decode(&self, decoder: &mut Decoder, instruction: &mut Instruction)
        requires
            old(decoder).wf(),
            old(decoder).state.encoding == EncodingKind::Legacy,
        ensures
            *final(decoder) == self.spec_decode(*old(decoder), *old(instruction)).decoder,
            *final(instruction) == self.spec_decode(
                *old(decoder),
                *old(instruction),
            ).instruction,
            final(decoder).wf(),
            final(decoder).frame() == old(decoder).frame(),
    {
        reveal(OpCodeHandler_Gv_Ev2::spec_decode);
        let state: State = decoder.state;
        instruction.set_code(select3(state.operand_size, self.code16, self.code32, self.code64));
        instruction.set_op0_register(state.reg_register(register::gpr_base(state.operand_size)));
        decoder.op_rm(instruction, 1, state.rm_register(register::gpr16_or_32(state.operand_size)));
    }
}

/// `MOV r, CRn/DRn/TRn`: the general purpose register that rm selects and
/// the special register that reg selects.
///
/// `LOCK MOV r, CR0` stands for `MOV r, CR8` on some processors: the record
/// then has no `LOCK` prefix.  A special register that does not exist
/// makes the instruction invalid, where invalid encodings are checked for.
#[derive(Clone, Copy, Debug, PartialEq, Eq, Structural)]
pub struct OpCodeHandler_R_C {
    pub has_modrm: bool,
    pub code32: u32,
    pub code64: u32,
    pub base_reg: u32,
}

impl OpCodeHandler_R_C {
    /// A handler for the special registers that start at `base_reg`.
    pub fn new(code32: u32, code64: u32, base_reg: u32) -> (handler: Self)
        ensures
            handler == (Self { has_modrm: true, code32, code64, base_reg }),
    {
        Self { has_modrm: true, code32, code64, base_reg }
    }

    /// The handler's registers are register numbers.
    pub open spec fn wf(&self) -> bool {
        self.base_reg < register::COUNT
    }

    /// Whether the handler is well-formed.
    #[verifier::when_used_as_spec(wf)]
    pub fn is_wf(&self) -> (b: bool)
        ensures
            b == self.wf(),
    {
        self.base_reg < register::COUNT
    }

    /// Decoder and record as [`Self::decode`] leaves them.
    #[verifier::opaque]
    pub open spec fn spec_decode(&self, d: Decoder, i: Instruction) -> Decoded {
        let state = d.state;
        let is64_mode = d.is64_mode;
        let options = d.options;
        let check = d.invalid_check;
        let has_lock = i.has_lock_prefix;
        let x = Decoded::at(d, i)
            .code(if is64_mode { self.code64 } else { self.code32 })
            .op_register(0, state.rm_register(register::gpr32_or_64(is64_mode)));
        if self.base_reg == register::CR0
            && state.reg == 0
            && state.extra_register_base == 0
            && has_lock
            && !has_flag(options, DecoderOptions::NO_LOCK_MOV_CR0)
        {
            x.op_register(1, register::CR8).clear_lock_prefix()
        } else {
            x
                .invalid_if(
                    check && register::reserved_special_register(self.base_reg, state.reg_index()),
                )
                .op_register(1, state.reg_register(self.base_reg))
        }
    }

    /// Decodes the operands of the instruction into `instruction`.
    pub fn decode(&self, decoder: &mut Decoder, instruction: &mut Instruction)
        requires
            old(decoder).wf(),
            self.wf(),
            old(decoder).state.encoding == EncodingKind::Legacy,
        ensures
            *final(decoder) == self.spec_decode(*old(decoder), *old(instruction)).decoder,
            *final(instruction) == self.spec_decode(
                *old(decoder),
                *old(instruction),
            ).instruction,
            final(decoder).wf(),
            final(decoder).frame() == old(decoder).frame(),
    {
        reveal(OpCodeHandler_R_C::spec_decode);
        let state: State = decoder.state;
        let is64_mode: bool = decoder.is64_mode;
        let options: u32 = decoder.options;
        let check: bool = decoder.invalid_check;
        let has_lock: bool = instruction.has_lock_prefix;
        instruction.set_code(if is64_mode { self.code64 } else { self.code32 });
        instruction.set_op0_register(state.rm_register(register::gpr32_or_64(is64_mode)));
        if self.base_reg == register::CR0
            && state.reg == 0
            && state.extra_register_base == 0
            && has_lock
            && !has_flag(options, DecoderOptions::NO_LOCK_MOV_CR0)
        {
            instruction.set_op1_register(register::CR8);
            instruction.clear_has_lock_prefix();
            decoder.clear_lock();
        } else {
            decoder.set_invalid_instruction_if(
                check && register::reserved_special_register(self.base_reg, state.reg_index()),
            );
            instruction.set_op1_register(state.reg_register(self.base_reg));
        }
    }
}

/// `MOV CRn/DRn/TRn, r`: the special register that reg selects and the
/// general purpose register that rm selects.
///
/// `LOCK MOV CR0, r` stands for `MOV CR8, r` on some processors: the record
/// then has no `LOCK` prefix.  A special register that does not exist
/// makes the instruction invalid, where invalid encodings are checked for.
#[derive(Clone, Copy, Debug, PartialEq, Eq, Structural)]
pub struct OpCodeHandler_C_R {
    pub has_modrm: bool,
    pub code32: u32,
    pub code64: u32,
    pub base_reg: u32,
}

impl OpCodeHandler_C_R {
    /// A handler for the special registers that start at `base_reg`.
    pub fn new(code32: u32, code64: u32, base_reg: u32) -> (handler: Self)
        ensures
            handler == (Self { has_modrm: true, code32, code64, base_reg }),
    {
        Self { has_modrm: true, code32, code64, base_reg }
    }

    /// The handler's registers are register numbers.
    pub open spec fn wf(&self) -> bool {
        self.base_reg < register::COUNT
    }

    /// Whether the handler is well-formed.
    #[verifier::when_used_as_spec(wf)]
    pub fn is_wf(&self) -> (b: bool)
        ensures
            b == self.wf(),
    {
        self.base_reg < register::COUNT
    }

    /// Decoder and record as [`Self::decode`] leaves them.
    #[verifier::opaque]
    pub open spec fn spec_decode(&self, d: Decoder, i: Instruction) -> Decoded {
        let state = d.state;
        let is64_mode = d.is64_mode;
        let options = d.options;
        let check = d.invalid_check;
        let has_lock = i.has_lock_prefix;
        let x = Decoded::at(d, i)
            .code(if is64_mode { self.code64 } else { self.code32 })
            .op_register(1, state.rm_register(register::gpr32_or_64(is64_mode)));
        if self.base_reg == register::CR0
            && state.reg == 0
            && state.extra_register_base == 0
            && has_lock
            && !has_flag(options, DecoderOptions::NO_LOCK_MOV_CR0)
        {
            x.op_register(0, register::CR8).clear_lock_prefix()
        } else {
            x
                .invalid_if(
                    check && register::reserved_special_register(self.base_reg, state.reg_index()),
                )
                .op_register(0, state.reg_register(self.base_reg))
        }
    }

    /// Decodes the operands of the instruction into `instruction`.
    pub fn decode(&self, decoder: &mut Decoder, instruction: &mut Instruction)
        requires
            old(decoder).wf(),
            self.wf(),
            old(decoder).state.encoding == EncodingKind::Legacy,
        ensures
            *final(decoder) == self.spec_decode(*old(decoder), *old(instruction)).decoder,
            *final(instruction) == self.spec_decode(
                *old(decoder),
                *old(instruction),
            ).instruction,
            final(decoder).wf(),
            final(decoder).frame() == old(decoder).frame(),
    {
        reveal(OpCodeHandler_C_R::spec_decode);
        let state: State = decoder.state;
        let is64_mode: bool = decoder.is64_mode;
        let options: u32 = decoder.options;
        let check: bool = decoder.invalid_check;
        let has_lock: bool = instruction.has_lock_prefix;
        instruction.set_code(if is64_mode { self.code64 } else { self.code32 });
        instruction.set_op1_register(state.rm_register(register::gpr32_or_64(is64_mode)));
        if self.base_reg == register::CR0
            && state.reg == 0
            && state.extra_register_base == 0
            && has_lock
            && !has_flag(options, DecoderOptions::NO_LOCK_MOV_CR0)
        {
            instruction.set_op0_register(register::CR8);
            instruction.clear_has_lock_prefix();
            decoder.clear_lock();
        } else {
            decoder.set_invalid_instruction_if(
                check && register::reserved_special_register(self.base_reg, state.reg_index()),
            );
            instruction.set_op0_register(state.reg_register(self.base_reg));
        }
    }
}

/// `r, m` with a far pointer in memory; the register form is invalid.
#[derive(Clone, Copy, Debug, PartialEq, Eq, Structural)]
pub struct OpCodeHandler_Gv_Mp {
    pub has_modrm: bool,
    pub code16: u32,
    pub code32: u32,
    pub code64: u32,
}

impl OpCodeHandler_Gv_Mp {
    /// A handler that yields one of three codes by operand size.
    pub fn new(code16: u32, code32: u32, code64: u32) -> (handler: Self)
        ensures
            handler == (Self { has_modrm: true, code16, code32, code64 }),
    {
        Self { has_modrm: true, code16, code32, code64 }
    }

    /// Decoder and record as [`Self::decode`] leaves them.
    #[verifier::opaque]
    pub open spec fn spec_decode(&self, d: Decoder, i: Instruction) -> Decoded {
        let state = d.state;
        Decoded::at(d, i)
            .code(select3(state.operand_size, self.code16, self.code32, self.code64))
            .op_register(0, state.reg_register(register::gpr_base(state.operand_size)))
            .op_mem(1)
    }

    /// Decodes the operands of the instruction into `instruction`.
    pub fn decode(&self, decoder: &mut Decoder, instruction: &mut Instruction)
        requires
            old(decoder).wf(),
            old(decoder).state.encoding == EncodingKind::Legacy,
        ensures
            *final(decoder) == self.spec_decode(*old(decoder), *old(instruction)).decoder,
            *final(instruction) == self.spec_decode(
                *old(decoder),
                *old(instruction),
            ).instruction,
            final(decoder).wf(),
            final(decoder).frame() == old(decoder).frame(),
    {
        reveal(OpCodeHandler_Gv_Mp::spec_decode);
        let state: State = decoder.state;
        instruction.set_code(select3(state.operand_size, self.code16, self.code32, self.code64));
        instruction.set_op0_register(state.reg_register(register::gpr_base(state.operand_size)));
        decoder.op_mem(instruction, 1);
    }
}

/// `r, r/m8`: the first operand in the operand size, the second 8 bits wide.
#[derive(Clone, Copy, Debug, PartialEq, Eq, Structural)]
pub struct OpCodeHandler_Gv_Eb {
    pub has_modrm: bool,
    pub code16: u32,
    pub code32: u32,
    pub code64: u32,
}

impl OpCodeHandler_Gv_Eb {
    /// A handler that yields one of three codes by operand size.
    pub fn new(code16: u32, code32: u32, code64: u32) -> (handler: Self)
        ensures
            handler == (Self { has_modrm: true, code16, code32, code64 }),
    {
        Self { has_modrm: true, code16, code32, code64 }
    }

    /// Decoder and record as [`Self::decode`] leaves them.
    #[verifier::opaque]
    pub open spec fn spec_decode(&self, d: Decoder, i: Instruction) -> Decoded {
        let state = d.state;
        Decoded::at(d, i)
            .code(select3(state.operand_size, self.code16, self.code32, self.code64))
            .op_register(0, state.reg_register(register::gpr_base(state.operand_size)))
            .op_rm(1, state.rm_byte_register())
    }

    /// Decodes the operands of the instruction into `instruction`.
    pub fn decode(&self, decoder: &mut Decoder, instruction: &mut Instruction)
        requires
            old(decoder).wf(),
            old(decoder).state.encoding == EncodingKind::Legacy,
        ensures
            *final(decoder) == self.spec_decode(*old(decoder), *old(instruction)).decoder,
            *final(instruction) == self.spec_decode(
                *old(decoder),
                *old(instruction),
            ).instruction,
            final(decoder).wf(),
            final(decoder).frame() == old(decoder).frame(),
    {
        reveal(OpCodeHandler_Gv_Eb::spec_decode);
        let state: State = decoder.state;
        instruction.set_code(select3(state.operand_size, self.code16, self.code32, self.code64));
        instruction.set_op0_register(state.reg_register(register::gpr_base(state.operand_size)));
        decoder.op_rm(instruction, 1, state.rm_byte_register());
    }
}

/// `r, r/m16`: the first operand in the operand size, the second 16 bits wide.
#[derive(Clone, Copy, Debug, PartialEq, Eq, Structural)]
pub struct OpCodeHandler_Gv_Ew {
    pub has_modrm: bool,
    pub code16: u32,
    pub code32: u32,
    pub code64: u32,
}

impl OpCodeHandler_Gv_Ew {
    /// A handler that yields one of three codes by operand size.
    pub fn new(code16: u32, code32: u32, code64: u32) -> (handler: Self)
        ensures
            handler == (Self { has_modrm: true, code16, code32, code64 }),
    {
        Self { has_modrm: true, code16, code32, code64 }
    }

    /// Decoder and record as [`Self::decode`] leaves them.
    #[verifier::opaque]
    pub open spec fn spec_decode(&self, d: Decoder, i: Instruction) -> Decoded {
        let state = d.state;
        Decoded::at(d, i)
            .code(select3(state.operand_size, self.code16, self.code32, self.code64))
            .op_register(0, state.reg_register(register::gpr_base(state.operand_size)))
            .op_rm(1, state.rm_register(register::AX))
    }

    /// Decodes the operands of the instruction into `instruction`.
    pub fn decode(&self, decoder: &mut Decoder, instruction: &mut Instruction)
        requires
            old(decoder).wf(),
            old(decoder).state.encoding == EncodingKind::Legacy,
        ensures
            *final(decoder) == self.spec_decode(*old(decoder), *old(instruction)).decoder,
            *final(instruction) == self.spec_decode(
                *old(decoder),
                *old(instruction),
            ).instruction,
            final(decoder).wf(),
            final(decoder).frame() == old(decoder).frame(),
    {
        reveal(OpCodeHandler_Gv_Ew::spec_decode);
        let state: State = decoder.state;
        instruction.set_code(select3(state.operand_size, self.code16, self.code32, self.code64));
        instruction.set_op0_register(state.reg_register(register::gpr_base(state.operand_size)));
        decoder.op_rm(instruction, 1, state.rm_register(register::AX));
    }
}

/// `r, m` with two bounds in memory, 16 or 32 bits wide.  The opcode table
/// uses the handler for the memory form only.
#[derive(Clone, Copy, Debug, PartialEq, Eq, Structural)]
pub struct OpCodeHandler_Gv_Ma {
    pub has_modrm: bool,
    pub code16: u32,
    pub code32: u32,
}

impl OpCodeHandler_Gv_Ma {
    /// A handler that yields `code16` for 16-bit operands, else `code32`.
    pub fn new(code16: u32, code32: u32) -> (handler: Self)
        ensures
            handler == (Self { has_modrm: true, code16, code32 }),
    {
        Self { has_modrm: true, code16, code32 }
    }

    /// Decoder and record as [`Self::decode`] leaves them.
    #[verifier::opaque]
    pub open spec fn spec_decode(&self, d: Decoder, i: Instruction) -> Decoded {
        let state = d.state;
        Decoded::at(d, i)
            .code(if state.operand_size != OpSize::Size16 { self.code32 } else { self.code16 })
            .op_register(0, state.reg_register(register::gpr16_or_32(state.operand_size)))
            .op_mem_any(1)
    }

    /// Decodes the operands of the instruction into `instruction`.
    pub fn decode(&self, decoder: &mut Decoder, instruction: &mut Instruction)
        requires
            old(decoder).wf(),
            old(decoder).state.encoding == EncodingKind::Legacy,
        ensures
            *final(decoder) == self.spec_decode(*old(decoder), *old(instruction)).decoder,
            *final(instruction) == self.spec_decode(
                *old(decoder),
                *old(instruction),
            ).instruction,
            final(decoder).wf(),
            final(decoder).frame() == old(decoder).frame(),
    {
        reveal(OpCodeHandler_Gv_Ma::spec_decode);
        let state: State = decoder.state;
        instruction.set_code(
            if state.operand_size != OpSize::Size16 { self.code32 } else { self.code16 },
        );
        instruction.set_op0_register(state.reg_register(register::gpr16_or_32(state.operand_size)));
        decoder.op_mem_any(instruction, 1);
    }
}

/// `r/m, r`, 16 or 32 bits wide.
#[derive(Clone, Copy, Debug, PartialEq, Eq, Structural)]
pub struct OpCodeHandler_RvMw_Gw {
    pub has_modrm: bool,
    pub code16: u32,
    pub code32: u32,
}

impl OpCodeHandler_RvMw_Gw {
    /// A handler that yields `code16` for 16-bit operands, else `code32`.
    pub fn new(code16: u32, code32: u32) -> (handler: Self)
        ensures
            handler == (Self { has_modrm: true, code16, code32 }),
    {
        Self { has_modrm: true, code16, code32 }
    }

    /// Decoder and record as [`Self::decode`] leaves them.
    #[verifier::opaque]
    pub open spec fn spec_decode(&self, d: Decoder, i: Instruction) -> Decoded {
        let state = d.state;
        Decoded::at(d, i)
            .code(if state.operand_size != OpSize::Size16 { self.code32 } else { self.code16 })
            .op_register(1, state.reg_register(register::gpr16_or_32(state.operand_size)))
            .op_rm(0, state.rm_register(register::gpr16_or_32(state.operand_size)))
    }

    /// Decodes the operands of the instruction into `instruction`.
    pub fn decode(&self, decoder: &mut Decoder, instruction: &mut Instruction)
        requires
            old(decoder).wf(),
            old(decoder).state.encoding == EncodingKind::Legacy,
        ensures
            *final(decoder) == self.spec_decode(*old(decoder), *old(instruction)).decoder,
            *final(instruction) == self.spec_decode(
                *old(decoder),
                *old(instruction),
            ).instruction,
            final(decoder).wf(),
            final(decoder).frame() == old(decoder).frame(),
    {
        reveal(OpCodeHandler_RvMw_Gw::spec_decode);
        let state: State = decoder.state;
        instruction.set_code(
            if state.operand_size != OpSize::Size16 { self.code32 } else { self.code16 },
        );
        instruction.set_op1_register(state.reg_register(register::gpr16_or_32(state.operand_size)));
        decoder.op_rm(instruction, 0, state.rm_register(register::gpr16_or_32(state.operand_size)));
    }
}

/// `r, r/m, imm8` in the operand size, the immediate sign-extended to it.
#[derive(Clone, Copy, Debug, PartialEq, Eq, Structural)]
pub struct OpCodeHandler_Gv_Ev_Ib {
    pub has_modrm: bool,
    pub code16: u32,
    pub code32: u32,
    pub code64: u32,
}

impl OpCodeHandler_Gv_Ev_Ib {
    /// A handler that yields one of three codes by operand size.
    pub fn new(code16: u32, code32: u32, code64: u32) -> (handler: Self)
        ensures
            handler == (Self { has_modrm: true, code16, code32, code64 }),
    {
        Self { has_modrm: true, code16, code32, code64 }
    }

    /// Decoder and record as [`Self::decode`] leaves them.
    #[verifier::opaque]
    pub open spec fn spec_decode(&self, d: Decoder, i: Instruction) -> Decoded {
        let state = d.state;
        let x = Decoded::at(d, i)
            .op_rm(1, state.rm_register(register::gpr_base(state.operand_size)))
            .op_register(0, state.reg_register(register::gpr_base(state.operand_size)));
        if state.operand_size == OpSize::Size32 {
            x.code(self.code32).imm8(2, OpKind::Immediate8to32)
        } else if state.operand_size == OpSize::Size64 {
            x.code(self.code64).imm8(2, OpKind::Immediate8to64)
        } else {
            x.code(self.code16).imm8(2, OpKind::Immediate8to16)
        }
    }

    /// Decodes the operands of the instruction into `instruction`.
    pub fn decode(&self, decoder: &mut Decoder, instruction: &mut Instruction)
        requires
            old(decoder).wf(),
            old(decoder).state.encoding == EncodingKind::Legacy,
        ensures
            *final(decoder) == self.spec_decode(*old(decoder), *old(instruction)).decoder,
            *final(instruction) == self.spec_decode(
                *old(decoder),
                *old(instruction),
            ).instruction,
            final(decoder).wf(),
            final(decoder).frame() == old(decoder).frame(),
    {
        reveal(OpCodeHandler_Gv_Ev_Ib::spec_decode);
        let state: State = decoder.state;
        decoder.op_rm(instruction, 1, state.rm_register(register::gpr_base(state.operand_size)));
        instruction.set_op0_register(state.reg_register(register::gpr_base(state.operand_size)));
        if state.operand_size == OpSize::Size32 {
            instruction.set_code(self.code32);
            decoder.op_imm8(instruction, 2, OpKind::Immediate8to32);
        } else if state.operand_size == OpSize::Size64 {
            instruction.set_code(self.code64);
            decoder.op_imm8(instruction, 2, OpKind::Immediate8to64);
        } else {
            instruction.set_code(self.code16);
            decoder.op_imm8(instruction, 2, OpKind::Immediate8to16);
        }
    }
}

/// `r, reg, imm8`: a general purpose register, 64 bits wide under W, and the
/// register that rm selects in another class.  The opcode table uses the
/// handler for the register form only.
#[derive(Clone, Copy, Debug, PartialEq, Eq, Structural)]
pub struct OpCodeHandler_Gv_Ev_Ib_REX {
    pub has_modrm: bool,
    pub base_reg: u32,
    pub code32: u32,
    pub code64: u32,
}

impl OpCodeHandler_Gv_Ev_Ib_REX {
    /// A handler whose second operand is in the class that starts at `base_reg`.
    pub fn new(base_reg: u32, code32: u32, code64: u32) -> (handler: Self)
        ensures
            handler == (Self { has_modrm: true, base_reg, code32, code64 }),
    {
        Self { has_modrm: true, base_reg, code32, code64 }
    }

    /// The handler's registers are register numbers.
    pub open spec fn wf(&self) -> bool {
        self.base_reg < register::COUNT
    }

    /// Whether the handler is well-formed.
    #[verifier::when_used_as_spec(wf)]
    pub fn is_wf(&self) -> (b: bool)
        ensures
            b == self.wf(),
    {
        self.base_reg < register::COUNT
    }

    /// Decoder and record as [`Self::decode`] leaves them.
    #[verifier::opaque]
    pub open spec fn spec_decode(&self, d: Decoder, i: Instruction) -> Decoded {
        let state = d.state;
        Decoded::at(d, i)
            .code(if state.flags.w { self.code64 } else { self.code32 })
            .op_register(0, state.reg_register(register::gpr32_or_64(state.flags.w)))
            .op_register(1, state.rm_register(self.base_reg))
            .imm8(2, OpKind::Immediate8)
    }

    /// Decodes the operands of the instruction into `instruction`.
    pub fn decode(&self, decoder: &mut Decoder, instruction: &mut Instruction)
        requires
            old(decoder).wf(),
            self.wf(),
            old(decoder).state.encoding == EncodingKind::Legacy,
        ensures
            *final(decoder) == self.spec_decode(*old(decoder), *old(instruction)).decoder,
            *final(instruction) == self.spec_decode(
                *old(decoder),
                *old(instruction),
            ).instruction,
            final(decoder).wf(),
            final(decoder).frame() == old(decoder).frame(),
    {
        reveal(OpCodeHandler_Gv_Ev_Ib_REX::spec_decode);
        let state: State = decoder.state;
        instruction.set_code(if state.flags.w { self.code64 } else { self.code32 });
        instruction.set_op0_register(state.reg_register(register::gpr32_or_64(state.flags.w)));
        instruction.set_op1_register(state.rm_register(self.base_reg));
        decoder.op_imm8(instruction, 2, OpKind::Immediate8);
    }
}

/// `r, r/m`, 64 bits wide in 64-bit mode, else 32.  The register form or
/// the memory form may be one that the instruction does not have.
#[derive(Clone, Copy, Debug, PartialEq, Eq, Structural)]
pub struct OpCodeHandler_Gv_Ev_32_64 {
    pub has_modrm: bool,
    pub disallow_reg: bool,
    pub disallow_mem: bool,
    pub code32: u32,
    pub code64: u32,
}

impl OpCodeHandler_Gv_Ev_32_64 {
    /// A handler that yields `code64` in 64-bit mode, else `code32`, and has the forms that are allowed.
    pub fn new(code32: u32, code64: u32, allow_reg: bool, allow_mem: bool) -> (handler: Self)
        ensures
            handler == (Self {
                has_modrm: true,
                disallow_reg: !allow_reg,
                disallow_mem: !allow_mem,
                code32,
                code64,
            }),
    {
        Self {
            has_modrm: true,
            disallow_reg: !allow_reg,
            disallow_mem: !allow_mem,
            code32,
            code64,
        }
    }

    /// Decoder and record as [`Self::decode`] leaves them.
    #[verifier::opaque]
    pub open spec fn spec_decode(&self, d: Decoder, i: Instruction) -> Decoded {
        let state = d.state;
        let is64_mode = d.is64_mode;
        let check = d.invalid_check;
        let x = Decoded::at(d, i)
            .code(if is64_mode { self.code64 } else { self.code32 })
            .op_register(0, state.reg_register(register::gpr32_or_64(is64_mode)))
            .op_rm(1, state.rm_register(register::gpr32_or_64(is64_mode)));
        if state.mod_ == 3 {
            x.invalid_if(self.disallow_reg && check)
        } else {
            x.invalid_if(self.disallow_mem && check)
        }
    }

    /// Decodes the operands of the instruction into `instruction`.
    pub fn decode(&self, decoder: &mut Decoder, instruction: &mut Instruction)
        requires
            old(decoder).wf(),
            old(decoder).state.encoding == EncodingKind::Legacy,
        ensures
            *final(decoder) == self.spec_decode(*old(decoder), *old(instruction)).decoder,
            *final(instruction) == self.spec_decode(
                *old(decoder),
                *old(instruction),
            ).instruction,
            final(decoder).wf(),
            final(decoder).frame() == old(decoder).frame(),
    {
        reveal(OpCodeHandler_Gv_Ev_32_64::spec_decode);
        let state: State = decoder.state;
        let is64_mode: bool = decoder.is64_mode;
        let check: bool = decoder.invalid_check;
        instruction.set_code(if is64_mode { self.code64 } else { self.code32 });
        instruction.set_op0_register(state.reg_register(register::gpr32_or_64(is64_mode)));
        decoder.op_rm(instruction, 1, state.rm_register(register::gpr32_or_64(is64_mode)));
        if state.mod_ == 3 {
            decoder.set_invalid_instruction_if(self.disallow_reg && check);
        } else {
            decoder.set_invalid_instruction_if(self.disallow_mem && check);
        }
    }
}

/// `r, r/m, imm` in the operand size; for 64 bits the immediate has 32 and is sign-extended.
#[derive(Clone, Copy, Debug, PartialEq, Eq, Structural)]
pub struct OpCodeHandler_Gv_Ev_Iz {
    pub has_modrm: bool,
    pub code16: u32,
    pub code32: u32,
    pub code64: u32,
}

impl OpCodeHandler_Gv_Ev_Iz {
    /// A handler that yields one of three codes by operand size.
    pub fn new(code16: u32, code32: u32, code64: u32) -> (handler: Self)
        ensures
            handler == (Self { has_modrm: true, code16, code32, code64 }),
    {
        Self { has_modrm: true, code16, code32, code64 }
    }

    /// Decoder and record as [`Self::decode`] leaves them.
    #[verifier::opaque]
    pub open spec fn spec_decode(&self, d: Decoder, i: Instruction) -> Decoded {
        let state = d.state;
        let x = Decoded::at(d, i)
            .op_rm(1, state.rm_register(register::gpr_base(state.operand_size)))
            .code(select3(state.operand_size, self.code16, self.code32, self.code64))
            .op_register(0, state.reg_register(register::gpr_base(state.operand_size)));
        if state.operand_size == OpSize::Size32 {
            x.imm32(2, OpKind::Immediate32)
        } else if state.operand_size == OpSize::Size64 {
            x.imm32(2, OpKind::Immediate32to64)
        } else {
            x.imm16(2, OpKind::Immediate16)
        }
    }

    /// Decodes the operands of the instruction into `instruction`.
    pub fn decode(&self, decoder: &mut Decoder, instruction: &mut Instruction)
        requires
            old(decoder).wf(),
            old(decoder).state.encoding == EncodingKind::Legacy,
        ensures
            *final(decoder) == self.spec_decode(*old(decoder), *old(instruction)).decoder,
            *final(instruction) == self.spec_decode(
                *old(decoder),
                *old(instruction),
            ).instruction,
            final(decoder).wf(),
            final(decoder).frame() == old(decoder).frame(),
    {
        reveal(OpCodeHandler_Gv_Ev_Iz::spec_decode);
        let state: State = decoder.state;
        decoder.op_rm(instruction, 1, state.rm_register(register::gpr_base(state.operand_size)));
        instruction.set_code(select3(state.operand_size, self.code16, self.code32, self.code64));
        instruction.set_op0_register(state.reg_register(register::gpr_base(state.operand_size)));
        if state.operand_size == OpSize::Size32 {
            decoder.op_imm32(instruction, 2, OpKind::Immediate32);
        } else if state.operand_size == OpSize::Size64 {
            decoder.op_imm32(instruction, 2, OpKind::Immediate32to64);
        } else {
            decoder.op_imm16(instruction, 2, OpKind::Immediate16);
        }
    }
}

/// `r, m` in the operand size; the register form is invalid.
#[derive(Clone, Copy, Debug, PartialEq, Eq, Structural)]
pub struct OpCodeHandler_Gv_M {
    pub has_modrm: bool,
    pub code16: u32,
    pub code32: u32,
    pub code64: u32,
}

impl OpCodeHandler_Gv_M {
    /// A handler that yields one of three codes by operand size.
    pub fn new(code16: u32, code32: u32, code64: u32) -> (handler: Self)
        ensures
            handler == (Self { has_modrm: true, code16, code32, code64 }),
    {
        Self { has_modrm: true, code16, code32, code64 }
    }

    /// Decoder and record as [`Self::decode`] leaves them.
    #[verifier::opaque]
    pub open spec fn spec_decode(&self, d: Decoder, i: Instruction) -> Decoded {
        let state = d.state;
        Decoded::at(d, i)
            .code(select3(state.operand_size, self.code16, self.code32, self.code64))
            .op_register(0, state.reg_register(register::gpr_base(state.operand_size)))
            .op_mem(1)
    }

    /// Decodes the operands of the instruction into `instruction`.
    pub fn decode(&self, decoder: &mut Decoder, instruction: &mut Instruction)
        requires
            old(decoder).wf(),
            old(decoder).state.encoding == EncodingKind::Legacy,
        ensures
            *final(decoder) == self.spec_decode(*old(decoder), *old(instruction)).decoder,
            *final(instruction) == self.spec_decode(
                *old(decoder),
                *old(instruction),
            ).instruction,
            final(decoder).wf(),
            final(decoder).frame() == old(decoder).frame(),
    {
        reveal(OpCodeHandler_Gv_M::spec_decode);
        let state: State = decoder.state;
        instruction.set_code(select3(state.operand_size, self.code16, self.code32, self.code64));
        instruction.set_op0_register(state.reg_register(register::gpr_base(state.operand_size)));
        decoder.op_mem(instruction, 1);
    }
}

/// `r, m` in the operand size; the register form is invalid.
#[derive(Clone, Copy, Debug, PartialEq, Eq, Structural)]
pub struct OpCodeHandler_Gv_Mv {
    pub has_modrm: bool,
    pub code16: u32,
    pub code32: u32,
    pub code64: u32,
}

impl OpCodeHandler_Gv_Mv {
    /// A handler that yields one of three codes by operand size.
    pub fn new(code16: u32, code32: u32, code64: u32) -> (handler: Self)
        ensures
            handler == (Self { has_modrm: true, code16, code32, code64 }),
    {
        Self { has_modrm: true, code16, code32, code64 }
    }

    /// Decoder and record as [`Self::decode`] leaves them.
    #[verifier::opaque]
    pub open spec fn spec_decode(&self, d: Decoder, i: Instruction) -> Decoded {
        let state = d.state;
        Decoded::at(d, i)
            .code(select3(state.operand_size, self.code16, self.code32, self.code64))
            .op_register(0, state.reg_register(register::gpr_base(state.operand_size)))
            .op_mem(1)
    }

    /// Decodes the operands of the instruction into `instruction`.
    pub fn decode(&self, decoder: &mut Decoder, instruction: &mut Instruction)
        requires
            old(decoder).wf(),
            old(decoder).state.encoding == EncodingKind::Legacy,
        ensures
            *final(decoder) == self.spec_decode(*old(decoder), *old(instruction)).decoder,
            *final(instruction) == self.spec_decode(
                *old(decoder),
                *old(instruction),
            ).instruction,
            final(decoder).wf(),
            final(decoder).frame() == old(decoder).frame(),
    {
        reveal(OpCodeHandler_Gv_Mv::spec_decode);
        let state: State = decoder.state;
        instruction.set_code(select3(state.operand_size, self.code16, self.code32, self.code64));
        instruction.set_op0_register(state.reg_register(register::gpr_base(state.operand_size)));
        decoder.op_mem(instruction, 1);
    }
}

/// `r, r/m8`: the first operand 64 bits wide under W, else 32.
#[derive(Clone, Copy, Debug, PartialEq, Eq, Structural)]
pub struct OpCodeHandler_Gv_Eb_REX {
    pub has_modrm: bool,
    pub code32: u32,
    pub code64: u32,
}

impl OpCodeHandler_Gv_Eb_REX {
    /// A handler that yields `code64` under W, else `code32`.
    pub fn new(code32: u32, code64: u32) -> (handler: Self)
        ensures
            handler == (Self { has_modrm: true, code32, code64 }),
    {
        Self { has_modrm: true, code32, code64 }
    }

    /// Decoder and record as [`Self::decode`] leaves them.
    #[verifier::opaque]
    pub open spec fn spec_decode(&self, d: Decoder, i: Instruction) -> Decoded {
        let state = d.state;
        Decoded::at(d, i)
            .code(if state.flags.w { self.code64 } else { self.code32 })
            .op_register(0, state.reg_register(register::gpr32_or_64(state.flags.w)))
            .op_rm(1, state.rm_byte_register())
    }

    /// Decodes the operands of the instruction into `instruction`.
    pub fn decode(&self, decoder: &mut Decoder, instruction: &mut Instruction)
        requires
            old(decoder).wf(),
            old(decoder).state.encoding == EncodingKind::Legacy,
        ensures
            *final(decoder) == self.spec_decode(*old(decoder), *old(instruction)).decoder,
            *final(instruction) == self.spec_decode(
                *old(decoder),
                *old(instruction),
            ).instruction,
            final(decoder).wf(),
            final(decoder).frame() == old(decoder).frame(),
    {
        reveal(OpCodeHandler_Gv_Eb_REX::spec_decode);
        let state: State = decoder.state;
        instruction.set_code(if state.flags.w { self.code64 } else { self.code32 });
        instruction.set_op0_register(state.reg_register(register::gpr32_or_64(state.flags.w)));
        decoder.op_rm(instruction, 1, state.rm_byte_register());
    }
}

/// `r, r/m`, 64 bits wide under W, else 32.
#[derive(Clone, Copy, Debug, PartialEq, Eq, Structural)]
pub struct OpCodeHandler_Gv_Ev_REX {
    pub has_modrm: bool,
    pub code32: u32,
    pub code64: u32,
}

impl OpCodeHandler_Gv_Ev_REX {
    /// A handler that yields `code64` under W, else `code32`.
    pub fn new(code32: u32, code64: u32) -> (handler: Self)
        ensures
            handler == (Self { has_modrm: true, code32, code64 }),
    {
        Self { has_modrm: true, code32, code64 }
    }

    /// Decoder and record as [`Self::decode`] leaves them.
    #[verifier::opaque]
    pub open spec fn spec_decode(&self, d: Decoder, i: Instruction) -> Decoded {
        let state = d.state;
        Decoded::at(d, i)
            .code(if state.flags.w { self.code64 } else { self.code32 })
            .op_register(0, state.reg_register(register::gpr32_or_64(state.flags.w)))
            .op_rm(1, state.rm_register(register::gpr32_or_64(state.flags.w)))
    }

    /// Decodes the operands of the instruction into `instruction`.
    pub fn decode(&self, decoder: &mut Decoder, instruction: &mut Instruction)
        requires
            old(decoder).wf(),
            old(decoder).state.encoding == EncodingKind::Legacy,
        ensures
            *final(decoder) == self.spec_decode(*old(decoder), *old(instruction)).decoder,
            *final(instruction) == self.spec_decode(
                *old(decoder),
                *old(instruction),
            ).instruction,
            final(decoder).wf(),
            final(decoder).frame() == old(decoder).frame(),
    {
        reveal(OpCodeHandler_Gv_Ev_REX::spec_decode);
        let state: State = decoder.state;
        instruction.set_code(if state.flags.w { self.code64 } else { self.code32 });
        instruction.set_op0_register(state.reg_register(register::gpr32_or_64(state.flags.w)));
        decoder.op_rm(instruction, 1, state.rm_register(register::gpr32_or_64(state.flags.w)));
    }
}

/// A handler whose first operand is the register that reg selects.
#[derive(Clone, Copy, Debug, PartialEq, Eq, Structural)]
pub enum GvHandler {
    Gv_Ev(OpCodeHandler_Gv_Ev),
    Gv_M_as(OpCodeHandler_Gv_M_as),
    Gdq_Ev(OpCodeHandler_Gdq_Ev),
    Gv_Ev3(OpCodeHandler_Gv_Ev3),
    Gv_Ev2(OpCodeHandler_Gv_Ev2),
    R_C(OpCodeHandler_R_C),
    C_R(OpCodeHandler_C_R),
    Gv_Mp(OpCodeHandler_Gv_Mp),
    Gv_Eb(OpCodeHandler_Gv_Eb),
    Gv_Ew(OpCodeHandler_Gv_Ew),
    Gv_Ma(OpCodeHandler_Gv_Ma),
    RvMw_Gw(OpCodeHandler_RvMw_Gw),
    Gv_Ev_Ib(OpCodeHandler_Gv_Ev_Ib),
    Gv_Ev_Ib_REX(OpCodeHandler_Gv_Ev_Ib_REX),
    Gv_Ev_32_64(OpCodeHandler_Gv_Ev_32_64),
    Gv_Ev_Iz(OpCodeHandler_Gv_Ev_Iz),
    Gv_M(OpCodeHandler_Gv_M),
    Gv_Mv(OpCodeHandler_Gv_Mv),
    Gv_Eb_REX(OpCodeHandler_Gv_Eb_REX),
    Gv_Ev_REX(OpCodeHandler_Gv_Ev_REX),
}

impl GvHandler {
    /// Whether a ModRM byte follows the opcode.
    pub open spec fn spec_has_modrm(&self) -> bool {
        match self {
            GvHandler::Gv_Ev(h) => h.has_modrm,
            GvHandler::Gv_M_as(h) => h.has_modrm,
            GvHandler::Gdq_Ev(h) => h.has_modrm,
            GvHandler::Gv_Ev3(h) => h.has_modrm,
            GvHandler::Gv_Ev2(h) => h.has_modrm,
            GvHandler::R_C(h) => h.has_modrm,
            GvHandler::C_R(h) => h.has_modrm,
            GvHandler::Gv_Mp(h) => h.has_modrm,
            GvHandler::Gv_Eb(h) => h.has_modrm,
            GvHandler::Gv_Ew(h) => h.has_modrm,
            GvHandler::Gv_Ma(h) => h.has_modrm,
            GvHandler::RvMw_Gw(h) => h.has_modrm,
            GvHandler::Gv_Ev_Ib(h) => h.has_modrm,
            GvHandler::Gv_Ev_Ib_REX(h) => h.has_modrm,
            GvHandler::Gv_Ev_32_64(h) => h.has_modrm,
            GvHandler::Gv_Ev_Iz(h) => h.has_modrm,
            GvHandler::Gv_M(h) => h.has_modrm,
            GvHandler::Gv_Mv(h) => h.has_modrm,
            GvHandler::Gv_Eb_REX(h) => h.has_modrm,
            GvHandler::Gv_Ev_REX(h) => h.has_modrm,
        }
    }

    /// Whether a ModRM byte follows the opcode.
    #[verifier::when_used_as_spec(spec_has_modrm)]
    pub fn has_modrm(&self) -> (b: bool)
        ensures
            b == self.spec_has_modrm(),
    {
        match self {
            GvHandler::Gv_Ev(h) => h.has_modrm,
            GvHandler::Gv_M_as(h) => h.has_modrm,
            GvHandler::Gdq_Ev(h) => h.has_modrm,
            GvHandler::Gv_Ev3(h) => h.has_modrm,
            GvHandler::Gv_Ev2(h) => h.has_modrm,
            GvHandler::R_C(h) => h.has_modrm,
            GvHandler::C_R(h) => h.has_modrm,
            GvHandler::Gv_Mp(h) => h.has_modrm,
            GvHandler::Gv_Eb(h) => h.has_modrm,
            GvHandler::Gv_Ew(h) => h.has_modrm,
            GvHandler::Gv_Ma(h) => h.has_modrm,
            GvHandler::RvMw_Gw(h) => h.has_modrm,
            GvHandler::Gv_Ev_Ib(h) => h.has_modrm,
            GvHandler::Gv_Ev_Ib_REX(h) => h.has_modrm,
            GvHandler::Gv_Ev_32_64(h) => h.has_modrm,
            GvHandler::Gv_Ev_Iz(h) => h.has_modrm,
            GvHandler::Gv_M(h) => h.has_modrm,
            GvHandler::Gv_Mv(h) => h.has_modrm,
            GvHandler::Gv_Eb_REX(h) => h.has_modrm,
            GvHandler::Gv_Ev_REX(h) => h.has_modrm,
        }
    }

    /// The handler is well-formed.
    pub open spec fn wf(&self) -> bool {
        match self {
            GvHandler::Gv_Ev(_) => true,
            GvHandler::Gv_M_as(_) => true,
            GvHandler::Gdq_Ev(_) => true,
            GvHandler::Gv_Ev3(_) => true,
            GvHandler::Gv_Ev2(_) => true,
            GvHandler::R_C(h) => h.wf(),
            GvHandler::C_R(h) => h.wf(),
            GvHandler::Gv_Mp(_) => true,
            GvHandler::Gv_Eb(_) => true,
            GvHandler::Gv_Ew(_) => true,
            GvHandler::Gv_Ma(_) => true,
            GvHandler::RvMw_Gw(_) => true,
            GvHandler::Gv_Ev_Ib(_) => true,
            GvHandler::Gv_Ev_Ib_REX(h) => h.wf(),
            GvHandler::Gv_Ev_32_64(_) => true,
            GvHandler::Gv_Ev_Iz(_) => true,
            GvHandler::Gv_M(_) => true,
            GvHandler::Gv_Mv(_) => true,
            GvHandler::Gv_Eb_REX(_) => true,
            GvHandler::Gv_Ev_REX(_) => true,
        }
    }

    /// Whether the handler is well-formed.
    #[verifier::when_used_as_spec(wf)]
    pub fn is_wf(&self) -> (b: bool)
        ensures
            b == self.wf(),
    {
        match self {
            GvHandler::Gv_Ev(_) => true,
            GvHandler::Gv_M_as(_) => true,
            GvHandler::Gdq_Ev(_) => true,
            GvHandler::Gv_Ev3(_) => true,
            GvHandler::Gv_Ev2(_) => true,
            GvHandler::R_C(h) => h.is_wf(),
            GvHandler::C_R(h) => h.is_wf(),
            GvHandler::Gv_Mp(_) => true,
            GvHandler::Gv_Eb(_) => true,
            GvHandler::Gv_Ew(_) => true,
            GvHandler::Gv_Ma(_) => true,
            GvHandler::RvMw_Gw(_) => true,
            GvHandler::Gv_Ev_Ib(_) => true,
            GvHandler::Gv_Ev_Ib_REX(h) => h.is_wf(),
            GvHandler::Gv_Ev_32_64(_) => true,
            GvHandler::Gv_Ev_Iz(_) => true,
            GvHandler::Gv_M(_) => true,
            GvHandler::Gv_Mv(_) => true,
            GvHandler::Gv_Eb_REX(_) => true,
            GvHandler::Gv_Ev_REX(_) => true,
        }
    }

    /// Decoder and record as [`Self::decode`] leaves them.
    #[verifier::opaque]
    pub open spec fn spec_decode(&self, d: Decoder, i: Instruction) -> Decoded {
        match self {
            GvHandler::Gv_Ev(h) => h.spec_decode(d, i),
            GvHandler::Gv_M_as(h) => h.spec_decode(d, i),
            GvHandler::Gdq_Ev(h) => h.spec_decode(d, i),
            GvHandler::Gv_Ev3(h) => h.spec_decode(d, i),
            GvHandler::Gv_Ev2(h) => h.spec_decode(d, i),
            GvHandler::R_C(h) => h.spec_decode(d, i),
            GvHandler::C_R(h) => h.spec_decode(d, i),
            GvHandler::Gv_Mp(h) => h.spec_decode(d, i),
            GvHandler::Gv_Eb(h) => h.spec_decode(d, i),
            GvHandler::Gv_Ew(h) => h.spec_decode(d, i),
            GvHandler::Gv_Ma(h) => h.spec_decode(d, i),
            GvHandler::RvMw_Gw(h) => h.spec_decode(d, i),
            GvHandler::Gv_Ev_Ib(h) => h.spec_decode(d, i),
            GvHandler::Gv_Ev_Ib_REX(h) => h.spec_decode(d, i),
            GvHandler::Gv_Ev_32_64(h) => h.spec_decode(d, i),
            GvHandler::Gv_Ev_Iz(h) => h.spec_decode(d, i),
            GvHandler::Gv_M(h) => h.spec_decode(d, i),
            GvHandler::Gv_Mv(h) => h.spec_decode(d, i),
            GvHandler::Gv_Eb_REX(h) => h.spec_decode(d, i),
            GvHandler::Gv_Ev_REX(h) => h.spec_decode(d, i),
        }
    }

    /// Decodes the operands of the instruction with the handler that `self` holds.
    pub fn decode(&self, decoder: &mut Decoder, instruction: &mut Instruction)
        requires
            old(decoder).wf(),
            self.wf(),
            old(decoder).state.encoding == EncodingKind::Legacy,
        ensures
            *final(decoder) == self.spec_decode(*old(decoder), *old(instruction)).decoder,
            *final(instruction) == self.spec_decode(
                *old(decoder),
                *old(instruction),
            ).instruction,
            final(decoder).wf(),
            final(decoder).frame() == old(decoder).frame(),
    {
        reveal(GvHandler::spec_decode);
        match self {
            GvHandler::Gv_Ev(h) => h.decode(decoder, instruction),
            GvHandler::Gv_M_as(h) => h.decode(decoder, instruction),
            GvHandler::Gdq_Ev(h) => h.decode(decoder, instruction),
            GvHandler::Gv_Ev3(h) => h.decode(decoder, instruction),
            GvHandler::Gv_Ev2(h) => h.decode(decoder, instruction),
            GvHandler::R_C(h) => h.decode(decoder, instruction),
            GvHandler::C_R(h) => h.decode(decoder, instruction),
            GvHandler::Gv_Mp(h) => h.decode(decoder, instruction),
            GvHandler::Gv_Eb(h) => h.decode(decoder, instruction),
            GvHandler::Gv_Ew(h) => h.decode(decoder, instruction),
            GvHandler::Gv_Ma(h) => h.decode(decoder, instruction),
            GvHandler::RvMw_Gw(h) => h.decode(decoder, instruction),
            GvHandler::Gv_Ev_Ib(h) => h.decode(decoder, instruction),
            GvHandler::Gv_Ev_Ib_REX(h) => h.decode(decoder, instruction),
            GvHandler::Gv_Ev_32_64(h) => h.decode(decoder, instruction),
            GvHandler::Gv_Ev_Iz(h) => h.decode(decoder, instruction),
            GvHandler::Gv_M(h) => h.decode(decoder, instruction),
            GvHandler::Gv_Mv(h) => h.decode(decoder, instruction),
            GvHandler::Gv_Eb_REX(h) => h.decode(decoder, instruction),
            GvHandler::Gv_Ev_REX(h) => h.decode(decoder, instruction),
        }
    }
}

} // verus!
