//! The decoded instruction record and its write interface.
use vstd::prelude::*;
use crate::enums::{CodeSize, OpKind};

verus! {

/// A decoded instruction.
///
/// The record holds up to five operands.  The kind of each of the first four
/// is stored; the fifth, where an instruction has one, is always an 8-bit
/// immediate.  Registers are held by number (see [`crate::register`]).
#[derive(Clone, Copy, Debug, PartialEq, Eq, Structural)]
pub struct Instruction {
    /// Identity of the instruction; [`crate::code::INVALID`] if none was decoded.
    pub code: u32,
    pub op0_kind: OpKind,
    pub op1_kind: OpKind,
    pub op2_kind: OpKind,
    pub op3_kind: OpKind,
    pub op0_register: u32,
    pub op1_register: u32,
    pub op2_register: u32,
    pub op3_register: u32,
    /// The immediate operand, as encoded: not yet sign-extended.
    pub immediate: u64,
    /// The second 8-bit immediate.
    pub immediate8_2nd: u32,
    /// Target of a near branch, already wrapped to the branch's width.
    pub near_branch: u64,
    /// Offset of a far branch.
    pub far_branch: u32,
    /// Segment selector of a far branch.
    pub far_branch_selector: u32,
    pub memory_base: u32,
    pub memory_index: u32,
    /// Scale of the index register as the exponent of two: 0 to 3.
    pub memory_index_scale: u32,
    /// Size of the displacement: 0 none, 1 one byte, 2 two bytes,
    /// 3 four bytes, 4 eight bytes.
    pub memory_displ_size: u32,
    pub memory_displacement: u32,
    /// Absolute address of a [`OpKind::Memory64`] operand.
    pub memory_address64: u64,
    /// Segment override, or [`crate::register::NONE`].
    pub segment_prefix: u32,
    pub has_lock_prefix: bool,
    pub has_repe_prefix: bool,
    pub has_repne_prefix: bool,
    pub has_xacquire_prefix: bool,
    pub has_xrelease_prefix: bool,
    /// Number of bytes the instruction occupies.
    pub len: u32,
    /// Address of the instruction that follows.
    pub next_ip: u64,
    pub code_size: CodeSize,
}

impl Instruction {
    /// The empty record: an invalid instruction without operands or prefixes.
    pub open spec fn spec_new() -> Instruction {
        Instruction {
            code: crate::code::INVALID,
            op0_kind: OpKind::Register,
            op1_kind: OpKind::Register,
            op2_kind: OpKind::Register,
            op3_kind: OpKind::Register,
            op0_register: crate::register::NONE,
            op1_register: crate::register::NONE,
            op2_register: crate::register::NONE,
            op3_register: crate::register::NONE,
            immediate: 0,
            immediate8_2nd: 0,
            near_branch: 0,
            far_branch: 0,
            far_branch_selector: 0,
            memory_base: crate::register::NONE,
            memory_index: crate::register::NONE,
            memory_index_scale: 0,
            memory_displ_size: 0,
            memory_displacement: 0,
            memory_address64: 0,
            segment_prefix: crate::register::NONE,
            has_lock_prefix: false,
            has_repe_prefix: false,
            has_repne_prefix: false,
            has_xacquire_prefix: false,
            has_xrelease_prefix: false,
            len: 0,
            next_ip: 0,
            code_size: CodeSize::Unknown,
        }
    }

    /// The empty record.
    #[verifier::when_used_as_spec(spec_new)]
    pub fn new() -> (i: Instruction)
        ensures
            i == Self::spec_new(),
    {
        Instruction {
            code: crate::code::INVALID,
            op0_kind: OpKind::Register,
            op1_kind: OpKind::Register,
            op2_kind: OpKind::Register,
            op3_kind: OpKind::Register,
            op0_register: crate::register::NONE,
            op1_register: crate::register::NONE,
            op2_register: crate::register::NONE,
            op3_register: crate::register::NONE,
            immediate: 0,
            immediate8_2nd: 0,
            near_branch: 0,
            far_branch: 0,
            far_branch_selector: 0,
            memory_base: crate::register::NONE,
            memory_index: crate::register::NONE,
            memory_index_scale: 0,
            memory_displ_size: 0,
            memory_displacement: 0,
            memory_address64: 0,
            segment_prefix: crate::register::NONE,
            has_lock_prefix: false,
            has_repe_prefix: false,
            has_repne_prefix: false,
            has_xacquire_prefix: false,
            has_xrelease_prefix: false,
            len: 0,
            next_ip: 0,
            code_size: CodeSize::Unknown,
        }
    }

    /// Kind of the fifth operand, which is fixed.
    pub open spec fn spec_op4_kind(&self) -> OpKind {
        OpKind::Immediate8
    }

    /// Kind of the fifth operand, which is fixed.
    #[verifier::when_used_as_spec(spec_op4_kind)]
    pub fn op4_kind(&self) -> (k: OpKind)
        ensures
            k == OpKind::Immediate8,
    {
        OpKind::Immediate8
    }

    /// Kind of operand `operand`; operands past the fourth are 8-bit immediates.
    pub open spec fn spec_op_kind(&self, operand: u32) -> OpKind {
        if operand == 0 {
            self.op0_kind
        } else if operand == 1 {
            self.op1_kind
        } else if operand == 2 {
            self.op2_kind
        } else if operand == 3 {
            self.op3_kind
        } else {
            OpKind::Immediate8
        }
    }

    /// Kind of operand `operand`.
    #[verifier::when_used_as_spec(spec_op_kind)]
    pub fn op_kind(&self, operand: u32) -> (k: OpKind)
        ensures
            k == self.spec_op_kind(operand),
    {
        if operand == 0 {
            self.op0_kind
        } else if operand == 1 {
            self.op1_kind
        } else if operand == 2 {
            self.op2_kind
        } else if operand == 3 {
            self.op3_kind
        } else {
            OpKind::Immediate8
        }
    }

    /// Register of operand `operand`; operands past the fourth have none.
    pub open spec fn spec_op_register(&self, operand: u32) -> u32 {
        if operand == 0 {
            self.op0_register
        } else if operand == 1 {
            self.op1_register
        } else if operand == 2 {
            self.op2_register
        } else if operand == 3 {
            self.op3_register
        } else {
            crate::register::NONE
        }
    }

    /// Register of operand `operand`.
    #[verifier::when_used_as_spec(spec_op_register)]
    pub fn op_register(&self, operand: u32) -> (r: u32)
        ensures
            r == self.spec_op_register(operand),
    {
        if operand == 0 {
            self.op0_register
        } else if operand == 1 {
            self.op1_register
        } else if operand == 2 {
            self.op2_register
        } else if operand == 3 {
            self.op3_register
        } else {
            crate::register::NONE
        }
    }

    /// The record with its identity replaced.
    #[verifier::opaque]
    pub open spec fn with_code(self, code: u32) -> Instruction {
        Instruction { code, ..self }
    }

    /// The record with the kind of operand `operand` replaced.  Only the
    /// first four operands have a stored kind.
    #[verifier::opaque]
    pub open spec fn with_op_kind(self, operand: u32, kind: OpKind) -> Instruction {
        if operand == 0 {
            Instruction { op0_kind: kind, ..self }
        } else if operand == 1 {
            Instruction { op1_kind: kind, ..self }
        } else if operand == 2 {
            Instruction { op2_kind: kind, ..self }
        } else if operand == 3 {
            Instruction { op3_kind: kind, ..self }
        } else {
            self
        }
    }

    /// The record with operand `operand` made the register `register`.
    #[verifier::opaque]
    pub open spec fn with_op_register(self, operand: u32, register: u32) -> Instruction {
        if operand == 0 {
            Instruction { op0_kind: OpKind::Register, op0_register: register, ..self }
        } else if operand == 1 {
            Instruction { op1_kind: OpKind::Register, op1_register: register, ..self }
        } else if operand == 2 {
            Instruction { op2_kind: OpKind::Register, op2_register: register, ..self }
        } else if operand == 3 {
            Instruction { op3_kind: OpKind::Register, op3_register: register, ..self }
        } else {
            self
        }
    }

    /// The record with the immediate replaced.
    #[verifier::opaque]
    pub open spec fn with_immediate(self, value: u64) -> Instruction {
        Instruction { immediate: value, ..self }
    }

    /// The record with the second 8-bit immediate replaced.
    #[verifier::opaque]
    pub open spec fn with_immediate8_2nd(self, value: u32) -> Instruction {
        Instruction { immediate8_2nd: value, ..self }
    }

    /// The record with the near branch target replaced.
    #[verifier::opaque]
    pub open spec fn with_near_branch(self, target: u64) -> Instruction {
        Instruction { near_branch: target, ..self }
    }

    /// The record with offset and selector of the far branch replaced.
    #[verifier::opaque]
    pub open spec fn with_far_branch(self, offset: u32, selector: u32) -> Instruction {
        Instruction { far_branch: offset, far_branch_selector: selector, ..self }
    }

    /// The record with the displacement and its size replaced.
    #[verifier::opaque]
    pub open spec fn with_memory_displacement(self, size: u32, displacement: u32) -> Instruction {
        Instruction { memory_displ_size: size, memory_displacement: displacement, ..self }
    }

    /// The record with the base register of the memory operand replaced.
    #[verifier::opaque]
    pub open spec fn with_memory_base(self, register: u32) -> Instruction {
        Instruction { memory_base: register, ..self }
    }

    /// The record with the index register of the memory operand replaced.
    #[verifier::opaque]
    pub open spec fn with_memory_index(self, register: u32) -> Instruction {
        Instruction { memory_index: register, ..self }
    }

    /// The record with the scale of the index register replaced.
    #[verifier::opaque]
    pub open spec fn with_memory_index_scale(self, scale: u32) -> Instruction {
        Instruction { memory_index_scale: scale, ..self }
    }

    /// The record with the absolute 64-bit address replaced; the
    /// displacement size becomes that of eight bytes.
    #[verifier::opaque]
    pub open spec fn with_memory_address64(self, address: u64) -> Instruction {
        Instruction { memory_displ_size: 4, memory_address64: address, ..self }
    }

    /// The record without `REPE` and `REPNE` prefixes.
    #[verifier::opaque]
    pub open spec fn without_repe_repne_prefix(self) -> Instruction {
        Instruction { has_repe_prefix: false, has_repne_prefix: false, ..self }
    }

    /// The record without a `REPE` prefix.
    #[verifier::opaque]
    pub open spec fn without_repe_prefix(self) -> Instruction {
        Instruction { has_repe_prefix: false, ..self }
    }

    /// The record without a `REPNE` prefix.
    #[verifier::opaque]
    pub open spec fn without_repne_prefix(self) -> Instruction {
        Instruction { has_repne_prefix: false, ..self }
    }

    /// The record without a `LOCK` prefix.
    #[verifier::opaque]
    pub open spec fn without_lock_prefix(self) -> Instruction {
        Instruction { has_lock_prefix: false, ..self }
    }

    /// The record with an XACQUIRE prefix.
    #[verifier::opaque]
    pub open spec fn with_xacquire_prefix(self) -> Instruction {
        Instruction { has_xacquire_prefix: true, ..self }
    }

    /// The record with an XRELEASE prefix.
    #[verifier::opaque]
    pub open spec fn with_xrelease_prefix(self) -> Instruction {
        Instruction { has_xrelease_prefix: true, ..self }
    }

    /// Sets the XACQUIRE prefix.
    pub fn set_has_xacquire_prefix(&mut self)
        ensures
            *final(self) == old(self).with_xacquire_prefix(),
    {
        reveal(Instruction::with_xacquire_prefix);
        self.has_xacquire_prefix = true;
    }

    /// Sets the XRELEASE prefix.
    pub fn set_has_xrelease_prefix(&mut self)
        ensures
            *final(self) == old(self).with_xrelease_prefix(),
    {
        reveal(Instruction::with_xrelease_prefix);
        self.has_xrelease_prefix = true;
    }

    /// Sets the identity of the instruction.
    pub fn set_code(&mut self, code: u32)
        ensures
            *final(self) == old(self).with_code(code),
    {
        reveal(Instruction::with_code);
        self.code = code;
    }

    /// Sets the kind of one of the first four operands.
    pub fn set_op_kind(&mut self, operand: u32, kind: OpKind)
        ensures
            *final(self) == old(self).with_op_kind(operand, kind),
    {
        reveal(Instruction::with_op_kind);
        if operand == 0 {
            self.op0_kind = kind;
        } else if operand == 1 {
            self.op1_kind = kind;
        } else if operand == 2 {
            self.op2_kind = kind;
        } else if operand == 3 {
            self.op3_kind = kind;
        }
    }

    /// Sets the kind of the first operand.
    pub fn set_op0_kind(&mut self, kind: OpKind)
        ensures
            *final(self) == old(self).with_op_kind(0, kind),
    {
        reveal(Instruction::with_op_kind);
        self.op0_kind = kind;
    }

    /// Sets the kind of the second operand.
    pub fn set_op1_kind(&mut self, kind: OpKind)
        ensures
            *final(self) == old(self).with_op_kind(1, kind),
    {
        reveal(Instruction::with_op_kind);
        self.op1_kind = kind;
    }

    /// Sets the kind of the third operand.
    pub fn set_op2_kind(&mut self, kind: OpKind)
        ensures
            *final(self) == old(self).with_op_kind(2, kind),
    {
        reveal(Instruction::with_op_kind);
        self.op2_kind = kind;
    }

    /// Sets the kind of the fourth operand.
    pub fn set_op3_kind(&mut self, kind: OpKind)
        ensures
            *final(self) == old(self).with_op_kind(3, kind),
    {
        reveal(Instruction::with_op_kind);
        self.op3_kind = kind;
    }

    /// Makes one of the first four operands a register.
    pub fn set_op_register(&mut self, operand: u32, register: u32)
        ensures
            *final(self) == old(self).with_op_register(operand, register),
    {
        reveal(Instruction::with_op_register);
        if operand == 0 {
            self.op0_kind = OpKind::Register;
            self.op0_register = register;
        } else if operand == 1 {
            self.op1_kind = OpKind::Register;
            self.op1_register = register;
        } else if operand == 2 {
            self.op2_kind = OpKind::Register;
            self.op2_register = register;
        } else if operand == 3 {
            self.op3_kind = OpKind::Register;
            self.op3_register = register;
        }
    }

    /// Makes the first operand a register.
    pub fn set_op0_register(&mut self, register: u32)
        ensures
            *final(self) == old(self).with_op_register(0, register),
    {
        reveal(Instruction::with_op_register);
        self.op0_kind = OpKind::Register;
        self.op0_register = register;
    }

    /// Makes the second operand a register.
    pub fn set_op1_register(&mut self, register: u32)
        ensures
            *final(self) == old(self).with_op_register(1, register),
    {
        reveal(Instruction::with_op_register);
        self.op1_kind = OpKind::Register;
        self.op1_register = register;
    }

    /// Makes the third operand a register.
    pub fn set_op2_register(&mut self, register: u32)
        ensures
            *final(self) == old(self).with_op_register(2, register),
    {
        reveal(Instruction::with_op_register);
        self.op2_kind = OpKind::Register;
        self.op2_register = register;
    }

    /// Makes the fourth operand a register.
    pub fn set_op3_register(&mut self, register: u32)
        ensures
            *final(self) == old(self).with_op_register(3, register),
    {
        reveal(Instruction::with_op_register);
        self.op3_kind = OpKind::Register;
        self.op3_register = register;
    }

    /// Sets an 8-bit immediate.
    pub fn set_immediate8(&mut self, value: u32)
        ensures
            *final(self) == old(self).with_immediate(value as u64),
    {
        reveal(Instruction::with_immediate);
        self.immediate = value as u64;
    }

    /// Sets the second 8-bit immediate.
    pub fn set_immediate8_2nd(&mut self, value: u32)
        ensures
            *final(self) == old(self).with_immediate8_2nd(value),
    {
        reveal(Instruction::with_immediate8_2nd);
        self.immediate8_2nd = value;
    }

    /// Sets a 16-bit immediate.
    pub fn set_immediate16(&mut self, value: u32)
        ensures
            *final(self) == old(self).with_immediate(value as u64),
    {
        reveal(Instruction::with_immediate);
        self.immediate = value as u64;
    }

    /// Sets a 32-bit immediate.
    pub fn set_immediate32(&mut self, value: u32)
        ensures
            *final(self) == old(self).with_immediate(value as u64),
    {
        reveal(Instruction::with_immediate);
        self.immediate = value as u64;
    }

    /// Sets a 64-bit immediate from its low and high halves.
    pub fn set_immediate64(&mut self, low: u32, high: u32)
        ensures
            *final(self) == old(self).with_immediate(crate::arith::spec_join64(low, high)),
    {
        reveal(Instruction::with_immediate);
        self.immediate = crate::arith::join64(low, high);
    }

    /// Sets the 16-bit target of a near branch.
    pub fn set_near_branch16(&mut self, target: u32)
        ensures
            *final(self) == old(self).with_near_branch(target as u64),
    {
        reveal(Instruction::with_near_branch);
        self.near_branch = target as u64;
    }

    /// Sets the 32-bit target of a near branch.
    pub fn set_near_branch32(&mut self, target: u32)
        ensures
            *final(self) == old(self).with_near_branch(target as u64),
    {
        reveal(Instruction::with_near_branch);
        self.near_branch = target as u64;
    }

    /// Sets the 64-bit target of a near branch.
    pub fn set_near_branch64(&mut self, target: u64)
        ensures
            *final(self) == old(self).with_near_branch(target),
    {
        reveal(Instruction::with_near_branch);
        self.near_branch = target;
    }

    /// Sets offset and selector of a far branch.
    pub fn set_far_branch(&mut self, offset: u32, selector: u32)
        ensures
            *final(self) == old(self).with_far_branch(offset, selector),
    {
        reveal(Instruction::with_far_branch);
        self.far_branch = offset;
        self.far_branch_selector = selector;
    }

    /// Sets the displacement of the memory operand and its size.
    pub fn set_memory_displacement(&mut self, size: u32, displacement: u32)
        ensures
            *final(self) == old(self).with_memory_displacement(size, displacement),
    {
        reveal(Instruction::with_memory_displacement);
        self.memory_displ_size = size;
        self.memory_displacement = displacement;
    }

    /// Sets the base register of the memory operand.
    pub fn set_memory_base(&mut self, register: u32)
        ensures
            *final(self) == old(self).with_memory_base(register),
    {
        reveal(Instruction::with_memory_base);
        self.memory_base = register;
    }

    /// Sets the index register of the memory operand.
    pub fn set_memory_index(&mut self, register: u32)
        ensures
            *final(self) == old(self).with_memory_index(register),
    {
        reveal(Instruction::with_memory_index);
        self.memory_index = register;
    }

    /// Sets the scale of the index register.
    pub fn set_memory_index_scale(&mut self, scale: u32)
        ensures
            *final(self) == old(self).with_memory_index_scale(scale),
    {
        reveal(Instruction::with_memory_index_scale);
        self.memory_index_scale = scale;
    }

    /// Sets the absolute address of a 64-bit memory operand from its halves.
    pub fn set_memory_address64(&mut self, low: u32, high: u32)
        ensures
            *final(self) == old(self).with_memory_address64(
                crate::arith::spec_join64(low, high),
            ),
    {
        reveal(Instruction::with_memory_address64);
        self.memory_displ_size = 4;
        self.memory_address64 = crate::arith::join64(low, high);
    }

    /// Removes the `REPE` and `REPNE` prefixes.
    pub fn clear_has_repe_repne_prefix(&mut self)
        ensures
            *final(self) == old(self).without_repe_repne_prefix(),
    {
        reveal(Instruction::without_repe_repne_prefix);
        self.has_repe_prefix = false;
        self.has_repne_prefix = false;
    }

    /// Removes the `REPE` prefix.
    pub fn clear_has_repe_prefix(&mut self)
        ensures
            *final(self) == old(self).without_repe_prefix(),
    {
        reveal(Instruction::without_repe_prefix);
        self.has_repe_prefix = false;
    }

    /// Removes the `REPNE` prefix.
    pub fn clear_has_repne_prefix(&mut self)
        ensures
            *final(self) == old(self).without_repne_prefix(),
    {
        reveal(Instruction::without_repne_prefix);
        self.has_repne_prefix = false;
    }

    /// Removes the `LOCK` prefix.
    pub fn clear_has_lock_prefix(&mut self)
        ensures
            *final(self) == old(self).without_lock_prefix(),
    {
        reveal(Instruction::without_lock_prefix);
        self.has_lock_prefix = false;
    }
}

} // verus!
