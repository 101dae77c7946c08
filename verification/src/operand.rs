//! Operand extractors: the steps that handlers are made of.
//!
//! A step takes the decoder and the record as they stand and leaves both
//! changed.  [`Decoded`] pairs the two, so that the outcome of a handler can
//! be written as a chain of steps.
use vstd::prelude::*;
use crate::arith::{displacement16, displacement32, displacement8, signed16, signed32, signed8};
use crate::decoder::Decoder;
use crate::enums::{MandatoryPrefixByte, OpKind, OpSize};
use crate::instruction::Instruction;
use crate::options::{has_flag, HandlerFlags};

verus! {

/// Kind of a near branch whose target has the given width.
pub open spec fn spec_near_branch_kind(size: OpSize) -> OpKind {
    match size {
        OpSize::Size16 => OpKind::NearBranch16,
        OpSize::Size32 => OpKind::NearBranch32,
        OpSize::Size64 => OpKind::NearBranch64,
    }
}

/// Kind of a near branch whose target has the given width.
#[verifier::when_used_as_spec(spec_near_branch_kind)]
pub fn near_branch_kind(size: OpSize) -> (k: OpKind)
    ensures
        k == spec_near_branch_kind(size),
{
    match size {
        OpSize::Size16 => OpKind::NearBranch16,
        OpSize::Size32 => OpKind::NearBranch32,
        OpSize::Size64 => OpKind::NearBranch64,
    }
}

/// Kind of the implicit operand `ES:[rDI]` at the given address size.
pub open spec fn spec_es_rdi_kind(size: OpSize) -> OpKind {
    match size {
        OpSize::Size16 => OpKind::MemoryESDI,
        OpSize::Size32 => OpKind::MemoryESEDI,
        OpSize::Size64 => OpKind::MemoryESRDI,
    }
}

/// Kind of the implicit operand `ES:[rDI]` at the given address size.
#[verifier::when_used_as_spec(spec_es_rdi_kind)]
pub fn es_rdi_kind(size: OpSize) -> (k: OpKind)
    ensures
        k == spec_es_rdi_kind(size),
{
    match size {
        OpSize::Size16 => OpKind::MemoryESDI,
        OpSize::Size32 => OpKind::MemoryESEDI,
        OpSize::Size64 => OpKind::MemoryESRDI,
    }
}

/// Kind of the implicit operand `seg:[rSI]` at the given address size.
pub open spec fn spec_seg_rsi_kind(size: OpSize) -> OpKind {
    match size {
        OpSize::Size16 => OpKind::MemorySegSI,
        OpSize::Size32 => OpKind::MemorySegESI,
        OpSize::Size64 => OpKind::MemorySegRSI,
    }
}

/// Kind of the implicit operand `seg:[rSI]` at the given address size.
#[verifier::when_used_as_spec(spec_seg_rsi_kind)]
pub fn seg_rsi_kind(size: OpSize) -> (k: OpKind)
    ensures
        k == spec_seg_rsi_kind(size),
{
    match size {
        OpSize::Size16 => OpKind::MemorySegSI,
        OpSize::Size32 => OpKind::MemorySegESI,
        OpSize::Size64 => OpKind::MemorySegRSI,
    }
}

/// Kind of the implicit operand `seg:[rDI]` at the given address size.
pub open spec fn spec_seg_rdi_kind(size: OpSize) -> OpKind {
    match size {
        OpSize::Size16 => OpKind::MemorySegDI,
        OpSize::Size32 => OpKind::MemorySegEDI,
        OpSize::Size64 => OpKind::MemorySegRDI,
    }
}

/// Kind of the implicit operand `seg:[rDI]` at the given address size.
#[verifier::when_used_as_spec(spec_seg_rdi_kind)]
pub fn seg_rdi_kind(size: OpSize) -> (k: OpKind)
    ensures
        k == spec_seg_rdi_kind(size),
{
    match size {
        OpSize::Size16 => OpKind::MemorySegDI,
        OpSize::Size32 => OpKind::MemorySegEDI,
        OpSize::Size64 => OpKind::MemorySegRDI,
    }
}

/// The one of three values that belongs to the given width.
pub open spec fn spec_select3(size: OpSize, v16: u32, v32: u32, v64: u32) -> u32 {
    match size {
        OpSize::Size16 => v16,
        OpSize::Size32 => v32,
        OpSize::Size64 => v64,
    }
}

/// The one of three values that belongs to the given width.
#[verifier::when_used_as_spec(spec_select3)]
pub fn select3(size: OpSize, v16: u32, v32: u32, v64: u32) -> (v: u32)
    ensures
        v == spec_select3(size, v16, v32, v64),
{
    match size {
        OpSize::Size16 => v16,
        OpSize::Size32 => v32,
        OpSize::Size64 => v64,
    }
}

/// Operand size of an instruction that works on the stack: in 64-bit mode
/// 64 bits unless a prefix asks for 16, elsewhere 32 bits or 16.
pub open spec fn spec_stack_size(is64_mode: bool, operand_size: OpSize) -> OpSize {
    if is64_mode {
        if operand_size != OpSize::Size16 {
            OpSize::Size64
        } else {
            OpSize::Size16
        }
    } else if operand_size == OpSize::Size32 {
        OpSize::Size32
    } else {
        OpSize::Size16
    }
}

/// Operand size of an instruction that works on the stack.
#[verifier::when_used_as_spec(spec_stack_size)]
pub fn stack_size(is64_mode: bool, operand_size: OpSize) -> (s: OpSize)
    ensures
        s == spec_stack_size(is64_mode, operand_size),
{
    if is64_mode {
        if operand_size != OpSize::Size16 {
            OpSize::Size64
        } else {
            OpSize::Size16
        }
    } else if operand_size == OpSize::Size32 {
        OpSize::Size32
    } else {
        OpSize::Size16
    }
}

/// Operand size of a near branch: in 64-bit mode 64 bits, but 16 where AMD
/// decoding is asked for and the operand size is not 32; elsewhere 32 bits
/// or 16.
pub open spec fn spec_branch_size(is64_mode: bool, amd: bool, operand_size: OpSize) -> OpSize {
    if is64_mode {
        if !amd || operand_size == OpSize::Size32 {
            OpSize::Size64
        } else {
            OpSize::Size16
        }
    } else if operand_size == OpSize::Size32 {
        OpSize::Size32
    } else {
        OpSize::Size16
    }
}

/// Operand size of a near branch.
#[verifier::when_used_as_spec(spec_branch_size)]
pub fn branch_size(is64_mode: bool, amd: bool, operand_size: OpSize) -> (s: OpSize)
    ensures
        s == spec_branch_size(is64_mode, amd, operand_size),
{
    if is64_mode {
        if !amd || operand_size == OpSize::Size32 {
            OpSize::Size64
        } else {
            OpSize::Size16
        }
    } else if operand_size == OpSize::Size32 {
        OpSize::Size32
    } else {
        OpSize::Size16
    }
}

/// The code `code` moved on by the position of the given width: the codes
/// of the three widths follow one another.
pub open spec fn spec_offset_code(code: u32, size: OpSize) -> u32 {
    (code + size.spec_index()) as u32
}

/// The code `code` moved on by the position of the given width.
#[verifier::when_used_as_spec(spec_offset_code)]
pub fn offset_code(code: u32, size: OpSize) -> (c: u32)
    requires
        code <= 0xFFFF_FFFD,
    ensures
        c == spec_offset_code(code, size),
{
    code + size.index()
}

/// Identity of `XCHG r, rAX` for the register with the given number: the
/// accumulator itself gives `NOP`, every other register `XCHG`, each in the
/// operand size.
pub open spec fn spec_xchg_reg_rax_code(size: OpSize, index: u32) -> u32 {
    if index == 0 {
        spec_select3(size, crate::code::Nopw, crate::code::Nopd, crate::code::Nopq)
    } else {
        spec_select3(
            size,
            crate::code::Xchg_r16_AX,
            crate::code::Xchg_r32_EAX,
            crate::code::Xchg_r64_RAX,
        )
    }
}

/// Identity of `XCHG r, rAX` for the register with the given number.
#[verifier::when_used_as_spec(spec_xchg_reg_rax_code)]
pub fn xchg_reg_rax_code(size: OpSize, index: u32) -> (c: u32)
    ensures
        c == spec_xchg_reg_rax_code(size, index),
{
    if index == 0 {
        select3(size, crate::code::Nopw, crate::code::Nopd, crate::code::Nopq)
    } else {
        select3(size, crate::code::Xchg_r16_AX, crate::code::Xchg_r32_EAX, crate::code::Xchg_r64_RAX)
    }
}

/// A decoder together with the record it is filling.
pub struct Decoded {
    pub decoder: Decoder,
    pub instruction: Instruction,
}

impl Decoded {
    /// The pair of `decoder` and `instruction`.
    pub open spec fn at(decoder: Decoder, instruction: Instruction) -> Decoded {
        Decoded { decoder, instruction }
    }

    /// Sets the identity of the instruction.
    pub open spec fn code(self, code: u32) -> Decoded {
        Decoded { instruction: self.instruction.with_code(code), ..self }
    }

    /// Sets the kind of operand `operand`.
    pub open spec fn op_kind(self, operand: u32, kind: OpKind) -> Decoded {
        Decoded { instruction: self.instruction.with_op_kind(operand, kind), ..self }
    }

    /// Makes operand `operand` the register `register`.
    pub open spec fn op_register(self, operand: u32, register: u32) -> Decoded {
        Decoded { instruction: self.instruction.with_op_register(operand, register), ..self }
    }

    /// Sets the immediate to a value that is not read from the input.
    pub open spec fn immediate(self, value: u32) -> Decoded {
        Decoded { instruction: self.instruction.with_immediate(value as u64), ..self }
    }

    /// Flags the instruction invalid.
    pub open spec fn invalid(self) -> Decoded {
        Decoded { decoder: self.decoder.invalidated(), ..self }
    }

    /// Flags the instruction invalid if `condition` holds.
    pub open spec fn invalid_if(self, condition: bool) -> Decoded {
        Decoded { decoder: self.decoder.invalidated_if(condition), ..self }
    }

    /// Records that the immediate takes no bytes of the instruction.
    pub open spec fn no_imm(self) -> Decoded {
        Decoded { decoder: self.decoder.with_no_imm(), ..self }
    }

    /// Records that the branch has an 8-bit displacement.
    pub open spec fn branch_imm8(self) -> Decoded {
        Decoded { decoder: self.decoder.with_branch_imm8(), ..self }
    }

    /// Records that the branch is that of `XBEGIN`.
    pub open spec fn xbegin(self) -> Decoded {
        Decoded { decoder: self.decoder.with_xbegin(), ..self }
    }

    /// Removes the mandatory prefix from the visible prefixes.
    pub open spec fn clear_mandatory_prefix(self) -> Decoded {
        Decoded { instruction: self.instruction.without_repe_repne_prefix(), ..self }
    }

    /// Removes a mandatory `F3` from the visible prefixes.
    pub open spec fn clear_mandatory_prefix_f3(self) -> Decoded {
        Decoded { instruction: self.instruction.without_repe_prefix(), ..self }
    }

    /// Removes a mandatory `F2` from the visible prefixes.
    pub open spec fn clear_mandatory_prefix_f2(self) -> Decoded {
        Decoded { instruction: self.instruction.without_repne_prefix(), ..self }
    }

    /// Makes operand `operand` an immediate of kind `kind` and reads its
    /// eight bits.
    #[verifier::opaque]
    pub open spec fn imm8(self, operand: u32, kind: OpKind) -> Decoded {
        Decoded {
            decoder: self.decoder.after_read(1),
            instruction: self.instruction.with_op_kind(operand, kind).with_immediate(
                self.decoder.peek_u8() as u64,
            ),
        }
    }

    /// Makes operand `operand` the second 8-bit immediate and reads it.
    #[verifier::opaque]
    pub open spec fn imm8_2nd(self, operand: u32) -> Decoded {
        Decoded {
            decoder: self.decoder.after_read(1),
            instruction: self.instruction.with_op_kind(
                operand,
                OpKind::Immediate8_2nd,
            ).with_immediate8_2nd(self.decoder.peek_u8()),
        }
    }

    /// Makes operand `operand` an immediate of kind `kind` and reads its
    /// sixteen bits.
    #[verifier::opaque]
    pub open spec fn imm16(self, operand: u32, kind: OpKind) -> Decoded {
        Decoded {
            decoder: self.decoder.after_read(2),
            instruction: self.instruction.with_op_kind(operand, kind).with_immediate(
                self.decoder.peek_u16() as u64,
            ),
        }
    }

    /// Makes operand `operand` an immediate of kind `kind` and reads its
    /// thirty-two bits.
    #[verifier::opaque]
    pub open spec fn imm32(self, operand: u32, kind: OpKind) -> Decoded {
        Decoded {
            decoder: self.decoder.after_read(4),
            instruction: self.instruction.with_op_kind(operand, kind).with_immediate(
                self.decoder.peek_u32() as u64,
            ),
        }
    }

    /// Makes operand `operand` a 64-bit immediate and reads it as two 32-bit
    /// values, the low one first.
    #[verifier::opaque]
    pub open spec fn imm64(self, operand: u32) -> Decoded {
        let low = self.decoder.peek_u32();
        let middle = self.decoder.after_read(4);
        let high = middle.peek_u32();
        Decoded {
            decoder: middle.after_read(4),
            instruction: self.instruction.with_op_kind(
                operand,
                OpKind::Immediate64,
            ).with_immediate(crate::arith::spec_join64(low, high)),
        }
    }

    /// The operand that the rm field encodes, where the register form is
    /// the register `register`: that register under mod 3, else the memory
    /// operand that ModRM, SIB and displacement give.
    #[verifier::opaque]
    pub open spec fn op_rm(self, operand: u32, register: u32) -> Decoded {
        if self.decoder.state.mod_ == 3 {
            self.op_register(operand, register)
        } else {
            self.op_mem_any(operand)
        }
    }

    /// The memory operand that the rm field encodes, read whatever mod says.
    #[verifier::opaque]
    pub open spec fn op_mem_any(self, operand: u32) -> Decoded {
        let r = self.decoder.spec_read_op_mem(
            self.instruction.with_op_kind(operand, OpKind::Memory),
        );
        Decoded { decoder: r.0, instruction: r.1 }
    }

    /// The operand that the rm field encodes where only memory is valid:
    /// under mod 3 the instruction is invalid and the operand unwritten.
    #[verifier::opaque]
    pub open spec fn op_mem(self, operand: u32) -> Decoded {
        if self.decoder.state.mod_ == 3 {
            self.invalid()
        } else {
            self.op_mem_any(operand)
        }
    }

    /// The operand that the rm field encodes where only a register is
    /// valid: under any mod but 3 the instruction is invalid and the operand
    /// unwritten.
    #[verifier::opaque]
    pub open spec fn op_reg(self, operand: u32, register: u32) -> Decoded {
        if self.decoder.state.mod_ == 3 {
            self.op_register(operand, register)
        } else {
            self.invalid()
        }
    }

    /// What a handler's lock flags do once a memory operand is read: `F2`
    /// and `F3` may become XACQUIRE and XRELEASE, and a `LOCK` prefix may
    /// become legal.
    #[verifier::opaque]
    pub open spec fn lock_flags(self, prefix: MandatoryPrefixByte, flags: u32) -> Decoded {
        let instruction = if has_flag(flags, HandlerFlags::XACQUIRE | HandlerFlags::XRELEASE) {
            Decoder::spec_xacquire_xrelease(prefix, self.instruction, flags)
        } else {
            self.instruction
        };
        let decoder = if has_flag(flags, HandlerFlags::LOCK) {
            self.decoder.with_allow_lock()
        } else {
            self.decoder
        };
        Decoded { decoder, instruction }
    }

    /// Like [`Decoded::op_rm`], for a handler whose memory operand may be
    /// locked.
    #[verifier::opaque]
    pub open spec fn op_rm_lock(self, operand: u32, register: u32, flags: u32) -> Decoded {
        if self.decoder.state.mod_ == 3 {
            self.op_register(operand, register)
        } else {
            self.op_mem_any(operand).lock_flags(self.decoder.state.mandatory_prefix, flags)
        }
    }

    /// Like [`Decoded::op_mem`], for a handler whose memory operand may be
    /// locked.
    #[verifier::opaque]
    pub open spec fn op_mem_lock(self, operand: u32, flags: u32) -> Decoded {
        if self.decoder.state.mod_ == 3 {
            self.invalid()
        } else {
            self.op_mem_any(operand).lock_flags(self.decoder.state.mandatory_prefix, flags)
        }
    }

    /// The memory operand of a bounds instruction, read whatever mod says.
    #[verifier::opaque]
    pub open spec fn op_mem_mpx_any(self, operand: u32) -> Decoded {
        let r = self.decoder.spec_read_op_mem_mpx(
            self.instruction.with_op_kind(operand, OpKind::Memory),
        );
        Decoded { decoder: r.0, instruction: r.1 }
    }

    /// Like [`Decoded::op_rm`], for the memory operand of a bounds
    /// instruction.
    #[verifier::opaque]
    pub open spec fn op_rm_mpx(self, operand: u32, register: u32) -> Decoded {
        if self.decoder.state.mod_ == 3 {
            self.op_register(operand, register)
        } else {
            self.op_mem_mpx_any(operand)
        }
    }

    /// A near branch of width `size` with an 8-bit displacement: the first
    /// operand becomes the target, which is the sign-extended displacement
    /// plus the address that follows it, wrapped to the width.
    #[verifier::opaque]
    pub open spec fn near_branch8(self, size: OpSize) -> Decoded {
        let after = self.decoder.after_read(1);
        Decoded {
            decoder: after,
            instruction: self.instruction.with_op_kind(
                0,
                spec_near_branch_kind(size),
            ).with_near_branch(after.spec_branch_target(signed8(self.decoder.peek_u8()), size)),
        }
    }

    /// A near branch of width `size` with a 16-bit displacement.
    #[verifier::opaque]
    pub open spec fn near_branch16(self, size: OpSize) -> Decoded {
        let after = self.decoder.after_read(2);
        Decoded {
            decoder: after,
            instruction: self.instruction.with_op_kind(
                0,
                spec_near_branch_kind(size),
            ).with_near_branch(after.spec_branch_target(signed16(self.decoder.peek_u16()), size)),
        }
    }

    /// A near branch of width `size` with a 32-bit displacement.
    #[verifier::opaque]
    pub open spec fn near_branch32(self, size: OpSize) -> Decoded {
        let after = self.decoder.after_read(4);
        Decoded {
            decoder: after,
            instruction: self.instruction.with_op_kind(
                0,
                spec_near_branch_kind(size),
            ).with_near_branch(after.spec_branch_target(signed32(self.decoder.peek_u32()), size)),
        }
    }

    /// Sets the base register of the memory operand.
    pub open spec fn memory_base(self, register: u32) -> Decoded {
        Decoded { instruction: self.instruction.with_memory_base(register), ..self }
    }

    /// Sets the index register of the memory operand.
    pub open spec fn memory_index(self, register: u32) -> Decoded {
        Decoded { instruction: self.instruction.with_memory_index(register), ..self }
    }

    /// Drops the `LOCK` prefix from the record and from the decoder's flags.
    pub open spec fn clear_lock_prefix(self) -> Decoded {
        Decoded {
            decoder: self.decoder.without_lock(),
            instruction: self.instruction.without_lock_prefix(),
        }
    }

    /// Flags the instruction invalid if invalid encodings are checked for
    /// and the base of the memory operand is RIP.
    pub open spec fn invalid_if_rip_base(self) -> Decoded {
        self.invalid_if(
            self.decoder.invalid_check && self.instruction.memory_base == crate::register::RIP,
        )
    }

    /// Makes operand `operand` the segment register that the reg field
    /// selects.  The fields 6 and 7 select none: the operand is then no
    /// register and the instruction invalid.
    #[verifier::opaque]
    pub open spec fn seg_reg(self, operand: u32) -> Decoded {
        Decoded {
            decoder: self.decoder.spec_read_op_seg_reg(),
            instruction: self.instruction.with_op_register(
                operand,
                Decoder::spec_seg_register(self.decoder.state.reg),
            ),
        }
    }

    /// Makes operand `operand` the memory at an offset that follows the
    /// opcode: 16 or 32 bits of displacement, or a 64-bit absolute address,
    /// by address size.
    #[verifier::opaque]
    pub open spec fn moffs(self, operand: u32) -> Decoded {
        let d = self.decoder.with_displ_index();
        match self.decoder.state.address_size {
            OpSize::Size64 => {
                let marked = d.with_addr64();
                let low = marked.peek_u32();
                let middle = marked.after_read(4);
                Decoded {
                    decoder: middle.after_read(4),
                    instruction: self.instruction.with_memory_address64(
                        crate::arith::spec_join64(low, middle.peek_u32()),
                    ).with_op_kind(operand, OpKind::Memory64),
                }
            },
            OpSize::Size32 => Decoded {
                decoder: d.after_read(4),
                instruction: self.instruction.with_memory_displacement(
                    3,
                    d.peek_u32(),
                ).with_op_kind(operand, OpKind::Memory),
            },
            OpSize::Size16 => Decoded {
                decoder: d.after_read(2),
                instruction: self.instruction.with_memory_displacement(
                    2,
                    d.peek_u16(),
                ).with_op_kind(operand, OpKind::Memory),
            },
        }
    }

    /// A far branch with a 16-bit offset: offset, then selector.
    #[verifier::opaque]
    pub open spec fn far_branch16(self) -> Decoded {
        let middle = self.decoder.after_read(2);
        Decoded {
            decoder: middle.after_read(2),
            instruction: self.instruction.with_op_kind(0, OpKind::FarBranch16).with_far_branch(
                self.decoder.peek_u16(),
                middle.peek_u16(),
            ),
        }
    }

    /// A far branch with a 32-bit offset: offset, then selector.
    #[verifier::opaque]
    pub open spec fn far_branch32(self) -> Decoded {
        let middle = self.decoder.after_read(4);
        Decoded {
            decoder: middle.after_read(2),
            instruction: self.instruction.with_op_kind(0, OpKind::FarBranch32).with_far_branch(
                self.decoder.peek_u32(),
                middle.peek_u16(),
            ),
        }
    }

    /// A near branch to a 16-bit address that is given as it is.
    #[verifier::opaque]
    pub open spec fn absolute_branch16(self) -> Decoded {
        Decoded {
            decoder: self.decoder.after_read(2),
            instruction: self.instruction.with_op_kind(0, OpKind::NearBranch16).with_near_branch(
                self.decoder.peek_u16() as u64,
            ),
        }
    }

    /// A near branch to a 32-bit address that is given as it is.
    #[verifier::opaque]
    pub open spec fn absolute_branch32(self) -> Decoded {
        Decoded {
            decoder: self.decoder.after_read(4),
            instruction: self.instruction.with_op_kind(0, OpKind::NearBranch32).with_near_branch(
                self.decoder.peek_u32() as u64,
            ),
        }
    }

    /// Reads a byte whose high four bits select, counted from `base`, the
    /// register that becomes operand `operand`.
    #[verifier::opaque]
    pub open spec fn imm8_is4(self, operand: u32, base: u32) -> Decoded {
        Decoded {
            decoder: self.decoder.after_read(1),
            instruction: self.instruction.with_op_register(
                operand,
                (self.decoder.peek_u8() / 16 + base) as u32,
            ),
        }
    }

    /// Reads a byte whose high four bits select, counted from `base`, the
    /// register that becomes operand `operand`, and whose low two bits are
    /// the immediate.
    #[verifier::opaque]
    pub open spec fn imm8_is5(self, operand: u32, base: u32) -> Decoded {
        Decoded {
            decoder: self.decoder.after_read(1),
            instruction: self.instruction.with_op_register(
                operand,
                (self.decoder.peek_u8() / 16 + base) as u32,
            ).with_immediate((self.decoder.peek_u8() % 4) as u64),
        }
    }

    /// Whether two of the three registers of a gather are the same: the
    /// destination `reg_num`, the mask `vvvv` and the index, which is the
    /// position of `memory_index` in its class.
    pub open spec fn spec_vsib_overlap(reg_num: u32, vvvv: u32, memory_index: u32) -> bool {
        let index_num = vstd::wrapping::u32_specs::wrapping_sub(memory_index, crate::register::XMM0)
            % crate::register::VMM_COUNT;
        reg_num == index_num || vvvv == index_num || reg_num == vvvv
    }

    /// The memory operand of a gather as operand `operand`, with an index
    /// in the vector class that starts at `vsib_index`.  The register form
    /// is invalid; so is, where invalid encodings are checked for, a form
    /// in which destination, mask and index are not three registers.
    #[verifier::opaque]
    pub open spec fn op_vsib(self, operand: u32, vsib_index: u32) -> Decoded {
        let state = self.decoder.state;
        if state.mod_ == 3 {
            self.invalid()
        } else {
            let r = self.decoder.spec_read_op_mem_vsib(
                self.instruction.with_op_kind(operand, OpKind::Memory),
                vsib_index,
            );
            Decoded {
                decoder: r.0.invalidated_if(
                    self.decoder.invalid_check && Self::spec_vsib_overlap(
                        state.spec_reg_index(),
                        state.vvvv,
                        r.1.memory_index,
                    ),
                ),
                instruction: r.1,
            }
        }
    }
}

impl Decoder {
    /// Flags the instruction invalid if invalid encodings are checked for
    /// and the base of the memory operand is RIP.
    pub fn invalid_if_rip_base(&mut self, instruction: &Instruction)
        requires
            old(self).wf(),
        ensures
            *final(self) == Decoded::at(*old(self), *instruction).invalid_if_rip_base().decoder,
            final(self).wf(),
            final(self).frame() == old(self).frame(),
    {
        let rip: bool = self.invalid_check && instruction.memory_base == crate::register::RIP;
        self.set_invalid_instruction_if(rip);
    }

    /// Writes the segment register that the reg field selects as operand
    /// `operand`.
    pub fn op_seg_reg(&mut self, instruction: &mut Instruction, operand: u32)
        requires
            old(self).wf(),
        ensures
            *final(self) == Decoded::at(*old(self), *old(instruction)).seg_reg(operand).decoder,
            *final(instruction) == Decoded::at(*old(self), *old(instruction)).seg_reg(
                operand,
            ).instruction,
            final(self).wf(),
            final(self).frame() == old(self).frame(),
    {
        reveal(Decoded::seg_reg);
        let register: u32 = self.read_op_seg_reg();
        instruction.set_op_register(operand, register);
    }

    /// Reads the offset that follows the opcode and writes the memory at it
    /// as operand `operand`.
    pub fn op_moffs(&mut self, instruction: &mut Instruction, operand: u32)
        requires
            old(self).wf(),
        ensures
            *final(self) == Decoded::at(*old(self), *old(instruction)).moffs(operand).decoder,
            *final(instruction) == Decoded::at(*old(self), *old(instruction)).moffs(
                operand,
            ).instruction,
            final(self).wf(),
            final(self).frame() == old(self).frame(),
    {
        reveal(Decoded::moffs);
        let size: OpSize = self.state.address_size;
        self.set_displ_index();
        match size {
            OpSize::Size64 => {
                self.set_addr64();
                let low: u32 = self.read_u32();
                let high: u32 = self.read_u32();
                instruction.set_memory_address64(low, high);
                instruction.set_op_kind(operand, OpKind::Memory64);
            },
            OpSize::Size32 => {
                let displ: u32 = self.read_u32();
                instruction.set_memory_displacement(3, displ);
                instruction.set_op_kind(operand, OpKind::Memory);
            },
            OpSize::Size16 => {
                let displ: u32 = self.read_u16();
                instruction.set_memory_displacement(2, displ);
                instruction.set_op_kind(operand, OpKind::Memory);
            },
        }
    }

    /// Reads a far branch with a 16-bit offset.
    pub fn op_far_branch16(&mut self, instruction: &mut Instruction)
        requires
            old(self).wf(),
        ensures
            *final(self) == Decoded::at(*old(self), *old(instruction)).far_branch16().decoder,
            *final(instruction) == Decoded::at(
                *old(self),
                *old(instruction),
            ).far_branch16().instruction,
            final(self).wf(),
            final(self).frame() == old(self).frame(),
    {
        reveal(Decoded::far_branch16);
        instruction.set_op_kind(0, OpKind::FarBranch16);
        let offset: u32 = self.read_u16();
        let selector: u32 = self.read_u16();
        instruction.set_far_branch(offset, selector);
    }

    /// Reads a far branch with a 32-bit offset.
    pub fn op_far_branch32(&mut self, instruction: &mut Instruction)
        requires
            old(self).wf(),
        ensures
            *final(self) == Decoded::at(*old(self), *old(instruction)).far_branch32().decoder,
            *final(instruction) == Decoded::at(
                *old(self),
                *old(instruction),
            ).far_branch32().instruction,
            final(self).wf(),
            final(self).frame() == old(self).frame(),
    {
        reveal(Decoded::far_branch32);
        instruction.set_op_kind(0, OpKind::FarBranch32);
        let offset: u32 = self.read_u32();
        let selector: u32 = self.read_u16();
        instruction.set_far_branch(offset, selector);
    }

    /// Reads the 16-bit address of a near branch.
    pub fn op_absolute_branch16(&mut self, instruction: &mut Instruction)
        requires
            old(self).wf(),
        ensures
            *final(self) == Decoded::at(*old(self), *old(instruction)).absolute_branch16().decoder,
            *final(instruction) == Decoded::at(
                *old(self),
                *old(instruction),
            ).absolute_branch16().instruction,
            final(self).wf(),
            final(self).frame() == old(self).frame(),
    {
        reveal(Decoded::absolute_branch16);
        instruction.set_op_kind(0, OpKind::NearBranch16);
        let target: u32 = self.read_u16();
        instruction.set_near_branch16(target);
    }

    /// Reads the 32-bit address of a near branch.
    pub fn op_absolute_branch32(&mut self, instruction: &mut Instruction)
        requires
            old(self).wf(),
        ensures
            *final(self) == Decoded::at(*old(self), *old(instruction)).absolute_branch32().decoder,
            *final(instruction) == Decoded::at(
                *old(self),
                *old(instruction),
            ).absolute_branch32().instruction,
            final(self).wf(),
            final(self).frame() == old(self).frame(),
    {
        reveal(Decoded::absolute_branch32);
        instruction.set_op_kind(0, OpKind::NearBranch32);
        let target: u32 = self.read_u32();
        instruction.set_near_branch32(target);
    }

    /// Reads a byte and writes the register its high four bits select as
    /// operand `operand`.
    pub fn op_imm8_is4(&mut self, instruction: &mut Instruction, operand: u32, base: u32)
        requires
            old(self).wf(),
            base < crate::register::COUNT,
        ensures
            *final(self) == Decoded::at(*old(self), *old(instruction)).imm8_is4(
                operand,
                base,
            ).decoder,
            *final(instruction) == Decoded::at(*old(self), *old(instruction)).imm8_is4(
                operand,
                base,
            ).instruction,
            final(self).wf(),
            final(self).frame() == old(self).frame(),
    {
        reveal(Decoded::imm8_is4);
        let ib: u32 = self.read_u8();
        instruction.set_op_register(operand, ib / 16 + base);
    }

    /// Reads a byte and writes the register its high four bits select as
    /// operand `operand` and its low two bits as the immediate.
    pub fn op_imm8_is5(&mut self, instruction: &mut Instruction, operand: u32, base: u32)
        requires
            old(self).wf(),
            base < crate::register::COUNT,
        ensures
            *final(self) == Decoded::at(*old(self), *old(instruction)).imm8_is5(
                operand,
                base,
            ).decoder,
            *final(instruction) == Decoded::at(*old(self), *old(instruction)).imm8_is5(
                operand,
                base,
            ).instruction,
            final(self).wf(),
            final(self).frame() == old(self).frame(),
    {
        reveal(Decoded::imm8_is5);
        let ib: u32 = self.read_u8();
        instruction.set_op_register(operand, ib / 16 + base);
        instruction.set_immediate8(ib % 4);
    }

    /// Whether two of the three registers of a gather are the same.
    pub fn vsib_overlap(reg_num: u32, vvvv: u32, memory_index: u32) -> (b: bool)
        ensures
            b == Decoded::spec_vsib_overlap(reg_num, vvvv, memory_index),
    {
        let index_num: u32 = memory_index.wrapping_sub(crate::register::XMM0)
            % crate::register::VMM_COUNT;
        reg_num == index_num || vvvv == index_num || reg_num == vvvv
    }

    /// Reads the memory operand of a gather as operand `operand`.
    pub fn op_vsib(&mut self, instruction: &mut Instruction, operand: u32, vsib_index: u32)
        requires
            old(self).wf(),
            vsib_index < crate::register::COUNT,
        ensures
            *final(self) == Decoded::at(*old(self), *old(instruction)).op_vsib(
                operand,
                vsib_index,
            ).decoder,
            *final(instruction) == Decoded::at(*old(self), *old(instruction)).op_vsib(
                operand,
                vsib_index,
            ).instruction,
            final(self).wf(),
            final(self).frame() == old(self).frame(),
    {
        reveal(Decoded::op_vsib);
        let state: crate::decoder::State = self.state;
        let check: bool = self.invalid_check;
        if state.mod_ == 3 {
            self.set_invalid_instruction();
        } else {
            instruction.set_op_kind(operand, OpKind::Memory);
            self.read_op_mem_vsib(instruction, vsib_index);
            let overlap: bool = Self::vsib_overlap(
                state.reg_index(),
                state.vvvv,
                instruction.memory_index,
            );
            self.set_invalid_instruction_if(check && overlap);
        }
    }

    /// Reads an 8-bit immediate as operand `operand`.
    pub fn op_imm8(&mut self, instruction: &mut Instruction, operand: u32, kind: OpKind)
        requires
            old(self).wf(),
        ensures
            *final(self) == Decoded::at(*old(self), *old(instruction)).imm8(operand, kind).decoder,
            *final(instruction) == Decoded::at(*old(self), *old(instruction)).imm8(
                operand,
                kind,
            ).instruction,
            final(self).wf(),
            final(self).frame() == old(self).frame(),
    {
        reveal(Decoded::imm8);
        instruction.set_op_kind(operand, kind);
        let value: u32 = self.read_u8();
        instruction.set_immediate8(value);
    }

    /// Reads the second 8-bit immediate as operand `operand`.
    pub fn op_imm8_2nd(&mut self, instruction: &mut Instruction, operand: u32)
        requires
            old(self).wf(),
        ensures
            *final(self) == Decoded::at(*old(self), *old(instruction)).imm8_2nd(operand).decoder,
            *final(instruction) == Decoded::at(*old(self), *old(instruction)).imm8_2nd(
                operand,
            ).instruction,
            final(self).wf(),
            final(self).frame() == old(self).frame(),
    {
        reveal(Decoded::imm8_2nd);
        instruction.set_op_kind(operand, OpKind::Immediate8_2nd);
        let value: u32 = self.read_u8();
        instruction.set_immediate8_2nd(value);
    }

    /// Reads a 16-bit immediate as operand `operand`.
    pub fn op_imm16(&mut self, instruction: &mut Instruction, operand: u32, kind: OpKind)
        requires
            old(self).wf(),
        ensures
            *final(self) == Decoded::at(*old(self), *old(instruction)).imm16(
                operand,
                kind,
            ).decoder,
            *final(instruction) == Decoded::at(*old(self), *old(instruction)).imm16(
                operand,
                kind,
            ).instruction,
            final(self).wf(),
            final(self).frame() == old(self).frame(),
    {
        reveal(Decoded::imm16);
        instruction.set_op_kind(operand, kind);
        let value: u32 = self.read_u16();
        instruction.set_immediate16(value);
    }

    /// Reads a 32-bit immediate as operand `operand`.
    pub fn op_imm32(&mut self, instruction: &mut Instruction, operand: u32, kind: OpKind)
        requires
            old(self).wf(),
        ensures
            *final(self) == Decoded::at(*old(self), *old(instruction)).imm32(
                operand,
                kind,
            ).decoder,
            *final(instruction) == Decoded::at(*old(self), *old(instruction)).imm32(
                operand,
                kind,
            ).instruction,
            final(self).wf(),
            final(self).frame() == old(self).frame(),
    {
        reveal(Decoded::imm32);
        instruction.set_op_kind(operand, kind);
        let value: u32 = self.read_u32();
        instruction.set_immediate32(value);
    }

    /// Reads a 64-bit immediate as operand `operand`.
    pub fn op_imm64(&mut self, instruction: &mut Instruction, operand: u32)
        requires
            old(self).wf(),
        ensures
            *final(self) == Decoded::at(*old(self), *old(instruction)).imm64(operand).decoder,
            *final(instruction) == Decoded::at(*old(self), *old(instruction)).imm64(
                operand,
            ).instruction,
            final(self).wf(),
            final(self).frame() == old(self).frame(),
    {
        reveal(Decoded::imm64);
        instruction.set_op_kind(operand, OpKind::Immediate64);
        let low: u32 = self.read_u32();
        let high: u32 = self.read_u32();
        instruction.set_immediate64(low, high);
    }

    /// Reads the memory operand as operand `operand`, whatever mod says.
    pub fn op_mem_any(&mut self, instruction: &mut Instruction, operand: u32)
        requires
            old(self).wf(),
        ensures
            *final(self) == Decoded::at(*old(self), *old(instruction)).op_mem_any(operand).decoder,
            *final(instruction) == Decoded::at(*old(self), *old(instruction)).op_mem_any(
                operand,
            ).instruction,
            final(self).wf(),
            final(self).frame() == old(self).frame(),
    {
        reveal(Decoded::op_mem_any);
        instruction.set_op_kind(operand, OpKind::Memory);
        self.read_op_mem(instruction);
    }

    /// Writes the operand that the rm field encodes: `register` in the
    /// register form, else the memory operand.
    pub fn op_rm(&mut self, instruction: &mut Instruction, operand: u32, register: u32)
        requires
            old(self).wf(),
        ensures
            *final(self) == Decoded::at(*old(self), *old(instruction)).op_rm(
                operand,
                register,
            ).decoder,
            *final(instruction) == Decoded::at(*old(self), *old(instruction)).op_rm(
                operand,
                register,
            ).instruction,
            final(self).wf(),
            final(self).frame() == old(self).frame(),
    {
        reveal(Decoded::op_rm);
        if self.state.mod_ == 3 {
            instruction.set_op_register(operand, register);
        } else {
            self.op_mem_any(instruction, operand);
        }
    }

    /// Writes the operand that the rm field encodes where only memory is
    /// valid.
    pub fn op_mem(&mut self, instruction: &mut Instruction, operand: u32)
        requires
            old(self).wf(),
        ensures
            *final(self) == Decoded::at(*old(self), *old(instruction)).op_mem(operand).decoder,
            *final(instruction) == Decoded::at(*old(self), *old(instruction)).op_mem(
                operand,
            ).instruction,
            final(self).wf(),
            final(self).frame() == old(self).frame(),
    {
        reveal(Decoded::op_mem);
        if self.state.mod_ == 3 {
            self.set_invalid_instruction();
        } else {
            self.op_mem_any(instruction, operand);
        }
    }

    /// Writes the operand that the rm field encodes where only a register
    /// is valid.
    pub fn op_reg(&mut self, instruction: &mut Instruction, operand: u32, register: u32)
        requires
            old(self).wf(),
        ensures
            *final(self) == Decoded::at(*old(self), *old(instruction)).op_reg(
                operand,
                register,
            ).decoder,
            *final(instruction) == Decoded::at(*old(self), *old(instruction)).op_reg(
                operand,
                register,
            ).instruction,
            final(self).wf(),
            final(self).frame() == old(self).frame(),
    {
        reveal(Decoded::op_reg);
        if self.state.mod_ == 3 {
            instruction.set_op_register(operand, register);
        } else {
            self.set_invalid_instruction();
        }
    }

    /// Applies a handler's lock flags after its memory operand was read.
    pub fn lock_flags(
        &mut self,
        instruction: &mut Instruction,
        prefix: MandatoryPrefixByte,
        flags: u32,
    )
        requires
            old(self).wf(),
        ensures
            *final(self) == Decoded::at(*old(self), *old(instruction)).lock_flags(
                prefix,
                flags,
            ).decoder,
            *final(instruction) == Decoded::at(*old(self), *old(instruction)).lock_flags(
                prefix,
                flags,
            ).instruction,
            final(self).wf(),
            final(self).frame() == old(self).frame(),
    {
        reveal(Decoded::lock_flags);
        if has_flag(flags, HandlerFlags::XACQUIRE | HandlerFlags::XRELEASE) {
            Self::xacquire_xrelease(prefix, instruction, flags);
        }
        if has_flag(flags, HandlerFlags::LOCK) {
            self.set_allow_lock();
        }
    }

    /// Like [`Decoder::op_rm`], for a handler whose memory operand may be
    /// locked.
    pub fn op_rm_lock(
        &mut self,
        instruction: &mut Instruction,
        operand: u32,
        register: u32,
        flags: u32,
    )
        requires
            old(self).wf(),
        ensures
            *final(self) == Decoded::at(*old(self), *old(instruction)).op_rm_lock(
                operand,
                register,
                flags,
            ).decoder,
            *final(instruction) == Decoded::at(*old(self), *old(instruction)).op_rm_lock(
                operand,
                register,
                flags,
            ).instruction,
            final(self).wf(),
            final(self).frame() == old(self).frame(),
    {
        reveal(Decoded::op_rm_lock);
        let prefix: MandatoryPrefixByte = self.state.mandatory_prefix;
        if self.state.mod_ == 3 {
            instruction.set_op_register(operand, register);
        } else {
            self.op_mem_any(instruction, operand);
            self.lock_flags(instruction, prefix, flags);
        }
    }

    /// Like [`Decoder::op_mem`], for a handler whose memory operand may be
    /// locked.
    pub fn op_mem_lock(&mut self, instruction: &mut Instruction, operand: u32, flags: u32)
        requires
            old(self).wf(),
        ensures
            *final(self) == Decoded::at(*old(self), *old(instruction)).op_mem_lock(
                operand,
                flags,
            ).decoder,
            *final(instruction) == Decoded::at(*old(self), *old(instruction)).op_mem_lock(
                operand,
                flags,
            ).instruction,
            final(self).wf(),
            final(self).frame() == old(self).frame(),
    {
        reveal(Decoded::op_mem_lock);
        let prefix: MandatoryPrefixByte = self.state.mandatory_prefix;
        if self.state.mod_ == 3 {
            self.set_invalid_instruction();
        } else {
            self.op_mem_any(instruction, operand);
            self.lock_flags(instruction, prefix, flags);
        }
    }

    /// Reads the memory operand of a bounds instruction as operand
    /// `operand`, whatever mod says.
    pub fn op_mem_mpx_any(&mut self, instruction: &mut Instruction, operand: u32)
        requires
            old(self).wf(),
        ensures
            *final(self) == Decoded::at(*old(self), *old(instruction)).op_mem_mpx_any(
                operand,
            ).decoder,
            *final(instruction) == Decoded::at(*old(self), *old(instruction)).op_mem_mpx_any(
                operand,
            ).instruction,
            final(self).wf(),
            final(self).frame() == old(self).frame(),
    {
        reveal(Decoded::op_mem_mpx_any);
        instruction.set_op_kind(operand, OpKind::Memory);
        self.read_op_mem_mpx(instruction);
    }

    /// Like [`Decoder::op_rm`], for the memory operand of a bounds
    /// instruction.
    pub fn op_rm_mpx(&mut self, instruction: &mut Instruction, operand: u32, register: u32)
        requires
            old(self).wf(),
        ensures
            *final(self) == Decoded::at(*old(self), *old(instruction)).op_rm_mpx(
                operand,
                register,
            ).decoder,
            *final(instruction) == Decoded::at(*old(self), *old(instruction)).op_rm_mpx(
                operand,
                register,
            ).instruction,
            final(self).wf(),
            final(self).frame() == old(self).frame(),
    {
        reveal(Decoded::op_rm_mpx);
        if self.state.mod_ == 3 {
            instruction.set_op_register(operand, register);
        } else {
            self.op_mem_mpx_any(instruction, operand);
        }
    }

    /// Reads an 8-bit displacement and writes the branch target of width
    /// `size` as the first operand.
    pub fn op_near_branch8(&mut self, instruction: &mut Instruction, size: OpSize)
        requires
            old(self).wf(),
        ensures
            *final(self) == Decoded::at(*old(self), *old(instruction)).near_branch8(size).decoder,
            *final(instruction) == Decoded::at(*old(self), *old(instruction)).near_branch8(
                size,
            ).instruction,
            final(self).wf(),
            final(self).frame() == old(self).frame(),
    {
        reveal(Decoded::near_branch8);
        instruction.set_op_kind(0, near_branch_kind(size));
        let b: u32 = self.read_u8();
        let target: u64 = self.branch_target(displacement8(b), size);
        instruction.set_near_branch64(target);
    }

    /// Reads a 16-bit displacement and writes the branch target of width
    /// `size` as the first operand.
    pub fn op_near_branch16(&mut self, instruction: &mut Instruction, size: OpSize)
        requires
            old(self).wf(),
        ensures
            *final(self) == Decoded::at(*old(self), *old(instruction)).near_branch16(size).decoder,
            *final(instruction) == Decoded::at(*old(self), *old(instruction)).near_branch16(
                size,
            ).instruction,
            final(self).wf(),
            final(self).frame() == old(self).frame(),
    {
        reveal(Decoded::near_branch16);
        instruction.set_op_kind(0, near_branch_kind(size));
        let w: u32 = self.read_u16();
        let target: u64 = self.branch_target(displacement16(w), size);
        instruction.set_near_branch64(target);
    }

    /// Reads a 32-bit displacement and writes the branch target of width
    /// `size` as the first operand.
    pub fn op_near_branch32(&mut self, instruction: &mut Instruction, size: OpSize)
        requires
            old(self).wf(),
        ensures
            *final(self) == Decoded::at(*old(self), *old(instruction)).near_branch32(size).decoder,
            *final(instruction) == Decoded::at(*old(self), *old(instruction)).near_branch32(
                size,
            ).instruction,
            final(self).wf(),
            final(self).frame() == old(self).frame(),
    {
        reveal(Decoded::near_branch32);
        instruction.set_op_kind(0, near_branch_kind(size));
        let v: u32 = self.read_u32();
        let target: u64 = self.branch_target(displacement32(v), size);
        instruction.set_near_branch64(target);
    }
}

} // verus!
