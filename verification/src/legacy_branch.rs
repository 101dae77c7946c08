//! Legacy handlers of near and far branches.
use vstd::prelude::*;
use crate::decoder::{Decoder, State};
use crate::enums::{CodeSize, EncodingKind, OpSize};
use crate::instruction::Instruction;
use crate::operand::{Decoded};
use crate::options::{has_flag, DecoderOptions};

verus! {

/// A near branch with an 8-bit displacement.
///
/// The target has the operand size of a near branch.  It is the
/// displacement plus the address that follows it and wraps at that size.
#[derive(Clone, Copy, Debug, PartialEq, Eq, Structural)]
pub struct OpCodeHandler_Jb {
    pub has_modrm: bool,
    pub code16: u32,
    pub code32: u32,
    pub code64: u32,
}

impl OpCodeHandler_Jb {
    /// A handler that yields one of three codes by branch operand size.
    pub fn new(code16: u32, code32: u32, code64: u32) -> (handler: Self)
        ensures
            handler == (Self { has_modrm: false, code16, code32, code64 }),
    {
        Self { has_modrm: false, code16, code32, code64 }
    }

    /// Decoder and record as [`Self::decode`] leaves them.
    #[verifier::opaque]
    pub open spec fn spec_decode(&self, d: Decoder, i: Instruction) -> Decoded {
        let state = d.state;
        let is64_mode = d.is64_mode;
        let amd = has_flag(d.options, DecoderOptions::AMD_BRANCHES);
        let x = Decoded::at(d, i).branch_imm8();
        if is64_mode {
            if !amd || state.operand_size == OpSize::Size32 {
                x.code(self.code64).near_branch8(OpSize::Size64)
            } else {
                x.code(self.code16).near_branch8(OpSize::Size16)
            }
        } else {
            if state.operand_size != OpSize::Size16 {
                x.code(self.code32).near_branch8(OpSize::Size32)
            } else {
                x.code(self.code16).near_branch8(OpSize::Size16)
            }
        }
    }

    /// Decodes the operands of the instruction into `instruction`.
    pub fn decode(&self, decoder: &mut Decoder, instruction: &mut Instruction)
        requires
            old(decoder).wf(),
            old(decoder).state.encoding == EncodingKind::Legacy,
        ensures
            *final(decoder) == self.spec_decode(*old(decoder), *old(instruction)).decoder,
            *final(instruction) == self.spec_decode(
                *old(decoder),
                *old(instruction),
            ).instruction,
            final(decoder).wf(),
            final(decoder).frame() == old(decoder).frame(),
    {
        reveal(OpCodeHandler_Jb::spec_decode);
        let state: State = decoder.state;
        let is64_mode: bool = decoder.is64_mode;
        let amd: bool = has_flag(decoder.options, DecoderOptions::AMD_BRANCHES);
        decoder.set_branch_imm8();
        if is64_mode {
            if !amd || state.operand_size == OpSize::Size32 {
                instruction.set_code(self.code64);
                decoder.op_near_branch8(instruction, OpSize::Size64);
            } else {
                instruction.set_code(self.code16);
                decoder.op_near_branch8(instruction, OpSize::Size16);
            }
        } else {
            if state.operand_size != OpSize::Size16 {
                instruction.set_code(self.code32);
                decoder.op_near_branch8(instruction, OpSize::Size32);
            } else {
                instruction.set_code(self.code16);
                decoder.op_near_branch8(instruction, OpSize::Size16);
            }
        }
    }
}

/// The branch of `XBEGIN`: the displacement has the operand size, 32 bits
/// for 64-bit operands, and the target the size of the code.
#[derive(Clone, Copy, Debug, PartialEq, Eq, Structural)]
pub struct OpCodeHandler_Jx {
    pub has_modrm: bool,
    pub code16: u32,
    pub code32: u32,
    pub code64: u32,
}

impl OpCodeHandler_Jx {
    /// A handler that yields one of three codes by operand size.
    pub fn new(code16: u32, code32: u32, code64: u32) -> (handler: Self)
        ensures
            handler == (Self { has_modrm: false, code16, code32, code64 }),
    {
        Self { has_modrm: false, code16, code32, code64 }
    }

    /// Decoder and record as [`Self::decode`] leaves them.
    #[verifier::opaque]
    pub open spec fn spec_decode(&self, d: Decoder, i: Instruction) -> Decoded {
        let state = d.state;
        let is64_mode = d.is64_mode;
        let code_size = d.default_code_size;
        let x = Decoded::at(d, i).xbegin();
        if is64_mode {
            if state.operand_size == OpSize::Size32 {
                x.code(self.code32).near_branch32(OpSize::Size64)
            } else if state.operand_size == OpSize::Size64 {
                x.code(self.code64).near_branch32(OpSize::Size64)
            } else {
                x.code(self.code16).near_branch16(OpSize::Size64)
            }
        } else if code_size == CodeSize::Code32 {
            if state.operand_size == OpSize::Size32 {
                x.code(self.code32).near_branch32(OpSize::Size32)
            } else {
                x.code(self.code16).near_branch16(OpSize::Size32)
            }
        } else {
            if state.operand_size == OpSize::Size16 {
                x.code(self.code16).near_branch16(OpSize::Size16)
            } else {
                x.code(self.code32).near_branch32(OpSize::Size16)
            }
        }
    }

    /// Decodes the operands of the instruction into `instruction`.
    pub fn decode(&self, decoder: &mut Decoder, instruction: &mut Instruction)
        requires
            old(decoder).wf(),
            old(decoder).state.encoding == EncodingKind::Legacy,
        ensures
            *final(decoder) == self.spec_decode(*old(decoder), *old(instruction)).decoder,
            *final(instruction) == self.spec_decode(
                *old(decoder),
                *old(instruction),
            ).instruction,
            final(decoder).wf(),
            final(decoder).frame() == old(decoder).frame(),
    {
        reveal(OpCodeHandler_Jx::spec_decode);
        let state: State = decoder.state;
        let is64_mode: bool = decoder.is64_mode;
        let code_size: CodeSize = decoder.default_code_size;
        decoder.set_xbegin();
        if is64_mode {
            if state.operand_size == OpSize::Size32 {
                instruction.set_code(self.code32);
                decoder.op_near_branch32(instruction, OpSize::Size64);
            } else if state.operand_size == OpSize::Size64 {
                instruction.set_code(self.code64);
                decoder.op_near_branch32(instruction, OpSize::Size64);
            } else {
                instruction.set_code(self.code16);
                decoder.op_near_branch16(instruction, OpSize::Size64);
            }
        } else if code_size == CodeSize::Code32 {
            if state.operand_size == OpSize::Size32 {
                instruction.set_code(self.code32);
                decoder.op_near_branch32(instruction, OpSize::Size32);
            } else {
                instruction.set_code(self.code16);
                decoder.op_near_branch16(instruction, OpSize::Size32);
            }
        } else {
            if state.operand_size == OpSize::Size16 {
                instruction.set_code(self.code16);
                decoder.op_near_branch16(instruction, OpSize::Size16);
            } else {
                instruction.set_code(self.code32);
                decoder.op_near_branch32(instruction, OpSize::Size16);
            }
        }
    }
}

/// A near branch with a displacement of the operand size, 32 bits for 64-bit operands.
#[derive(Clone, Copy, Debug, PartialEq, Eq, Structural)]
pub struct OpCodeHandler_Jz {
    pub has_modrm: bool,
    pub code16: u32,
    pub code32: u32,
    pub code64: u32,
}

impl OpCodeHandler_Jz {
    /// A handler that yields one of three codes by branch operand size.
    pub fn new(code16: u32, code32: u32, code64: u32) -> (handler: Self)
        ensures
            handler == (Self { has_modrm: false, code16, code32, code64 }),
    {
        Self { has_modrm: false, code16, code32, code64 }
    }

    /// Decoder and record as [`Self::decode`] leaves them.
    #[verifier::opaque]
    pub open spec fn spec_decode(&self, d: Decoder, i: Instruction) -> Decoded {
        let state = d.state;
        let is64_mode = d.is64_mode;
        let amd = has_flag(d.options, DecoderOptions::AMD_BRANCHES);
        let x = Decoded::at(d, i);
        if is64_mode {
            if !amd || state.operand_size == OpSize::Size32 {
                x.code(self.code64).near_branch32(OpSize::Size64)
            } else {
                x.code(self.code16).near_branch16(OpSize::Size16)
            }
        } else {
            if state.operand_size != OpSize::Size16 {
                x.code(self.code32).near_branch32(OpSize::Size32)
            } else {
                x.code(self.code16).near_branch16(OpSize::Size16)
            }
        }
    }

    /// Decodes the operands of the instruction into `instruction`.
    pub fn decode(&self, decoder: &mut Decoder, instruction: &mut Instruction)
        requires
            old(decoder).wf(),
            old(decoder).state.encoding == EncodingKind::Legacy,
        ensures
            *final(decoder) == self.spec_decode(*old(decoder), *old(instruction)).decoder,
            *final(instruction) == self.spec_decode(
                *old(decoder),
                *old(instruction),
            ).instruction,
            final(decoder).wf(),
            final(decoder).frame() == old(decoder).frame(),
    {
        reveal(OpCodeHandler_Jz::spec_decode);
        let state: State = decoder.state;
        let is64_mode: bool = decoder.is64_mode;
        let amd: bool = has_flag(decoder.options, DecoderOptions::AMD_BRANCHES);
        if is64_mode {
            if !amd || state.operand_size == OpSize::Size32 {
                instruction.set_code(self.code64);
                decoder.op_near_branch32(instruction, OpSize::Size64);
            } else {
                instruction.set_code(self.code16);
                decoder.op_near_branch16(instruction, OpSize::Size16);
            }
        } else {
            if state.operand_size != OpSize::Size16 {
                instruction.set_code(self.code32);
                decoder.op_near_branch32(instruction, OpSize::Size32);
            } else {
                instruction.set_code(self.code16);
                decoder.op_near_branch16(instruction, OpSize::Size16);
            }
        }
    }
}

/// A near branch with an 8-bit displacement whose code goes by operand
/// size and address size: the loops and the jumps on a zero count register.
#[derive(Clone, Copy, Debug, PartialEq, Eq, Structural)]
pub struct OpCodeHandler_Jb2 {
    pub has_modrm: bool,
    pub code16_16: u32,
    pub code16_32: u32,
    pub code16_64: u32,
    pub code32_16: u32,
    pub code32_32: u32,
    pub code64_32: u32,
    pub code64_64: u32,
}

impl OpCodeHandler_Jb2 {
    /// A handler that yields the code named by operand size, then address size.
    pub fn new(
        code16_16: u32,
        code16_32: u32,
        code16_64: u32,
        code32_16: u32,
        code32_32: u32,
        code64_32: u32,
        code64_64: u32,
    ) -> (handler: Self)
        ensures
            handler == (Self {
                has_modrm: false,
                code16_16,
                code16_32,
                code16_64,
                code32_16,
                code32_32,
                code64_32,
                code64_64,
            }),
    {
        Self {
            has_modrm: false,
            code16_16,
            code16_32,
            code16_64,
            code32_16,
            code32_32,
            code64_32,
            code64_64,
        }
    }

    /// Decoder and record as [`Self::decode`] leaves them.
    #[verifier::opaque]
    pub open spec fn spec_decode(&self, d: Decoder, i: Instruction) -> Decoded {
        let state = d.state;
        let is64_mode = d.is64_mode;
        let amd = has_flag(d.options, DecoderOptions::AMD_BRANCHES);
        let x = Decoded::at(d, i).branch_imm8();
        if is64_mode {
            if !amd || state.operand_size == OpSize::Size32 {
                x
                    .code(
                        if state.address_size == OpSize::Size64 { self.code64_64 } else { self.code64_32 },
                    )
                    .near_branch8(OpSize::Size64)
            } else {
                x
                    .code(
                        if state.address_size == OpSize::Size64 { self.code16_64 } else { self.code16_32 },
                    )
                    .near_branch8(OpSize::Size16)
            }
        } else {
            if state.operand_size == OpSize::Size32 {
                x
                    .code(
                        if state.address_size == OpSize::Size32 { self.code32_32 } else { self.code32_16 },
                    )
                    .near_branch8(OpSize::Size32)
            } else {
                x
                    .code(
                        if state.address_size == OpSize::Size32 { self.code16_32 } else { self.code16_16 },
                    )
                    .near_branch8(OpSize::Size16)
            }
        }
    }

    /// Decodes the operands of the instruction into `instruction`.
    pub fn decode(&self, decoder: &mut Decoder, instruction: &mut Instruction)
        requires
            old(decoder).wf(),
            old(decoder).state.encoding == EncodingKind::Legacy,
        ensures
            *final(decoder) == self.spec_decode(*old(decoder), *old(instruction)).decoder,
            *final(instruction) == self.spec_decode(
                *old(decoder),
                *old(instruction),
            ).instruction,
            final(decoder).wf(),
            final(decoder).frame() == old(decoder).frame(),
    {
        reveal(OpCodeHandler_Jb2::spec_decode);
        let state: State = decoder.state;
        let is64_mode: bool = decoder.is64_mode;
        let amd: bool = has_flag(decoder.options, DecoderOptions::AMD_BRANCHES);
        decoder.set_branch_imm8();
        if is64_mode {
            if !amd || state.operand_size == OpSize::Size32 {
                instruction.set_code(
                    if state.address_size == OpSize::Size64 { self.code64_64 } else { self.code64_32 },
                );
                decoder.op_near_branch8(instruction, OpSize::Size64);
            } else {
                instruction.set_code(
                    if state.address_size == OpSize::Size64 { self.code16_64 } else { self.code16_32 },
                );
                decoder.op_near_branch8(instruction, OpSize::Size16);
            }
        } else {
            if state.operand_size == OpSize::Size32 {
                instruction.set_code(
                    if state.address_size == OpSize::Size32 { self.code32_32 } else { self.code32_16 },
                );
                decoder.op_near_branch8(instruction, OpSize::Size32);
            } else {
                instruction.set_code(
                    if state.address_size == OpSize::Size32 { self.code16_32 } else { self.code16_16 },
                );
                decoder.op_near_branch8(instruction, OpSize::Size16);
            }
        }
    }
}

/// A near branch to an address given as it is, 16 or 32 bits wide.
#[derive(Clone, Copy, Debug, PartialEq, Eq, Structural)]
pub struct OpCodeHandler_Jdisp {
    pub has_modrm: bool,
    pub code16: u32,
    pub code32: u32,
}

impl OpCodeHandler_Jdisp {
    /// A handler that yields `code16` for 16-bit operands, else `code32`.
    pub fn new(code16: u32, code32: u32) -> (handler: Self)
        ensures
            handler == (Self { has_modrm: false, code16, code32 }),
    {
        Self { has_modrm: false, code16, code32 }
    }

    /// Decoder and record as [`Self::decode`] leaves them.
    #[verifier::opaque]
    pub open spec fn spec_decode(&self, d: Decoder, i: Instruction) -> Decoded {
        let state = d.state;
        let x = Decoded::at(d, i);
        if state.operand_size != OpSize::Size16 {
            x.code(self.code32).absolute_branch32()
        } else {
            x.code(self.code16).absolute_branch16()
        }
    }

    /// Decodes the operands of the instruction into `instruction`.
    pub fn decode(&self, decoder: &mut Decoder, instruction: &mut Instruction)
        requires
            old(decoder).wf(),
            old(decoder).state.encoding == EncodingKind::Legacy,
        ensures
            *final(decoder) == self.spec_decode(*old(decoder), *old(instruction)).decoder,
            *final(instruction) == self.spec_decode(
                *old(decoder),
                *old(instruction),
            ).instruction,
            final(decoder).wf(),
            final(decoder).frame() == old(decoder).frame(),
    {
        reveal(OpCodeHandler_Jdisp::spec_decode);
        let state: State = decoder.state;
        if state.operand_size != OpSize::Size16 {
            instruction.set_code(self.code32);
            decoder.op_absolute_branch32(instruction);
        } else {
            instruction.set_code(self.code16);
            decoder.op_absolute_branch16(instruction);
        }
    }
}

/// A far branch: an offset of 16 or 32 bits, then a 16-bit selector.
#[derive(Clone, Copy, Debug, PartialEq, Eq, Structural)]
pub struct OpCodeHandler_Ap {
    pub has_modrm: bool,
    pub code16: u32,
    pub code32: u32,
}

impl OpCodeHandler_Ap {
    /// A handler that yields `code16` for 16-bit operands, else `code32`.
    pub fn new(code16: u32, code32: u32) -> (handler: Self)
        ensures
            handler == (Self { has_modrm: false, code16, code32 }),
    {
        Self { has_modrm: false, code16, code32 }
    }

    /// Decoder and record as [`Self::decode`] leaves them.
    #[verifier::opaque]
    pub open spec fn spec_decode(&self, d: Decoder, i: Instruction) -> Decoded {
        let state = d.state;
        let x = Decoded::at(d, i)
            .code(if state.operand_size != OpSize::Size16 { self.code32 } else { self.code16 });
        if state.operand_size != OpSize::Size16 {
            x.far_branch32()
        } else {
            x.far_branch16()
        }
    }

    /// Decodes the operands of the instruction into `instruction`.
    pub fn decode(&self, decoder: &mut Decoder, instruction: &mut Instruction)
        requires
            old(decoder).wf(),
            old(decoder).state.encoding == EncodingKind::Legacy,
        ensures
            *final(decoder) == self.spec_decode(*old(decoder), *old(instruction)).decoder,
            *final(instruction) == self.spec_decode(
                *old(decoder),
                *old(instruction),
            ).instruction,
            final(decoder).wf(),
            final(decoder).frame() == old(decoder).frame(),
    {
        reveal(OpCodeHandler_Ap::spec_decode);
        let state: State = decoder.state;
        instruction.set_code(
            if state.operand_size != OpSize::Size16 { self.code32 } else { self.code16 },
        );
        if state.operand_size != OpSize::Size16 {
            decoder.op_far_branch32(instruction);
        } else {
            decoder.op_far_branch16(instruction);
        }
    }
}

/// A handler of a near or far branch.
#[derive(Clone, Copy, Debug, PartialEq, Eq, Structural)]
pub enum BranchHandler {
    Jb(OpCodeHandler_Jb),
    Jx(OpCodeHandler_Jx),
    Jz(OpCodeHandler_Jz),
    Jb2(OpCodeHandler_Jb2),
    Jdisp(OpCodeHandler_Jdisp),
    Ap(OpCodeHandler_Ap),
}

impl BranchHandler {
    /// Whether a ModRM byte follows the opcode.
    pub open spec fn spec_has_modrm(&self) -> bool {
        match self {
            BranchHandler::Jb(h) => h.has_modrm,
            BranchHandler::Jx(h) => h.has_modrm,
            BranchHandler::Jz(h) => h.has_modrm,
            BranchHandler::Jb2(h) => h.has_modrm,
            BranchHandler::Jdisp(h) => h.has_modrm,
            BranchHandler::Ap(h) => h.has_modrm,
        }
    }

    /// Whether a ModRM byte follows the opcode.
    #[verifier::when_used_as_spec(spec_has_modrm)]
    pub fn has_modrm(&self) -> (b: bool)
        ensures
            b == self.spec_has_modrm(),
    {
        match self {
            BranchHandler::Jb(h) => h.has_modrm,
            BranchHandler::Jx(h) => h.has_modrm,
            BranchHandler::Jz(h) => h.has_modrm,
            BranchHandler::Jb2(h) => h.has_modrm,
            BranchHandler::Jdisp(h) => h.has_modrm,
            BranchHandler::Ap(h) => h.has_modrm,
        }
    }

    /// The handler is well-formed.
    pub open spec fn wf(&self) -> bool {
        match self {
            BranchHandler::Jb(_) => true,
            BranchHandler::Jx(_) => true,
            BranchHandler::Jz(_) => true,
            BranchHandler::Jb2(_) => true,
            BranchHandler::Jdisp(_) => true,
            BranchHandler::Ap(_) => true,
        }
    }

    /// Whether the handler is well-formed.
    #[verifier::when_used_as_spec(wf)]
    pub fn is_wf(&self) -> (b: bool)
        ensures
            b == self.wf(),
    {
        match self {
            BranchHandler::Jb(_) => true,
            BranchHandler::Jx(_) => true,
            BranchHandler::Jz(_) => true,
            BranchHandler::Jb2(_) => true,
            BranchHandler::Jdisp(_) => true,
            BranchHandler::Ap(_) => true,
        }
    }

    /// Decoder and record as [`Self::decode`] leaves them.
    #[verifier::opaque]
    pub open spec fn spec_decode(&self, d: Decoder, i: Instruction) -> Decoded {
        match self {
            BranchHandler::Jb(h) => h.spec_decode(d, i),
            BranchHandler::Jx(h) => h.spec_decode(d, i),
            BranchHandler::Jz(h) => h.spec_decode(d, i),
            BranchHandler::Jb2(h) => h.spec_decode(d, i),
            BranchHandler::Jdisp(h) => h.spec_decode(d, i),
            BranchHandler::Ap(h) => h.spec_decode(d, i),
        }
    }

    /// Decodes the operands of the instruction with the handler that `self` holds.
    pub fn decode(&self, decoder: &mut Decoder, instruction: &mut Instruction)
        requires
            old(decoder).wf(),
            self.wf(),
            old(decoder).state.encoding == EncodingKind::Legacy,
        ensures
            *final(decoder) == self.spec_decode(*old(decoder), *old(instruction)).decoder,
            *final(instruction) == self.spec_decode(
                *old(decoder),
                *old(instruction),
            ).instruction,
            final(decoder).wf(),
            final(decoder).frame() == old(decoder).frame(),
    {
        reveal(BranchHandler::spec_decode);
        match self {
            BranchHandler::Jb(h) => h.decode(decoder, instruction),
            BranchHandler::Jx(h) => h.decode(decoder, instruction),
            BranchHandler::Jz(h) => h.decode(decoder, instruction),
            BranchHandler::Jb2(h) => h.decode(decoder, instruction),
            BranchHandler::Jdisp(h) => h.decode(decoder, instruction),
            BranchHandler::Ap(h) => h.decode(decoder, instruction),
        }
    }
}

} // verus!
