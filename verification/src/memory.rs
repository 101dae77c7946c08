//! The memory operand that ModRM, SIB and displacement bytes encode.
use vstd::prelude::*;
use crate::arith::{
    bits210, bits543, bits76, sext8to16, sext8to32, spec_bits210, spec_bits543, spec_bits76,
    spec_sext8to16, spec_sext8to32,
};
use crate::decoder::{Decoder, State, StateFlags};
use crate::enums::OpSize;
use crate::instruction::Instruction;
use crate::register;

verus! {

/// Base register of the 16-bit addressing form that `rm` selects.
pub open spec fn spec_mem16_base(rm: u32) -> u32 {
    if rm == 0 || rm == 1 || rm == 7 {
        register::BX
    } else if rm == 2 || rm == 3 || rm == 6 {
        register::BP
    } else if rm == 4 {
        register::SI
    } else {
        register::DI
    }
}

/// Base register of the 16-bit addressing form that `rm` selects.
#[verifier::when_used_as_spec(spec_mem16_base)]
pub fn mem16_base(rm: u32) -> (r: u32)
    ensures
        r == spec_mem16_base(rm),
{
    if rm == 0 || rm == 1 || rm == 7 {
        register::BX
    } else if rm == 2 || rm == 3 || rm == 6 {
        register::BP
    } else if rm == 4 {
        register::SI
    } else {
        register::DI
    }
}

/// Index register of the 16-bit addressing form that `rm` selects.
pub open spec fn spec_mem16_index(rm: u32) -> u32 {
    if rm == 0 || rm == 2 {
        register::SI
    } else if rm == 1 || rm == 3 {
        register::DI
    } else {
        register::NONE
    }
}

/// Index register of the 16-bit addressing form that `rm` selects.
#[verifier::when_used_as_spec(spec_mem16_index)]
pub fn mem16_index(rm: u32) -> (r: u32)
    ensures
        r == spec_mem16_index(rm),
{
    if rm == 0 || rm == 2 {
        register::SI
    } else if rm == 1 || rm == 3 {
        register::DI
    } else {
        register::NONE
    }
}

impl Decoder {
    /// The decoder with the cursor noted as the place of a displacement.
    #[verifier::opaque]
    pub open spec fn with_displ_index(self) -> Decoder {
        Decoder { displ_index: self.position, ..self }
    }

    /// Notes the cursor as the place of a displacement.
    pub fn set_displ_index(&mut self)
        requires
            old(self).wf(),
        ensures
            *final(self) == old(self).with_displ_index(),
            final(self).wf(),
            final(self).frame() == old(self).frame(),
    {
        reveal(Decoder::with_displ_index);
        self.displ_index = self.position;
    }

    /// The decoder with the memory operand flagged relative to RIP if `wide`,
    /// else to EIP.
    #[verifier::opaque]
    pub open spec fn with_ip_rel(self, wide: bool) -> Decoder {
        if wide {
            self.with_flags(StateFlags { ip_rel64: true, ..self.state.flags })
        } else {
            self.with_flags(StateFlags { ip_rel32: true, ..self.state.flags })
        }
    }

    /// Flags the memory operand relative to RIP if `wide`, else to EIP.
    pub fn set_ip_rel(&mut self, wide: bool)
        requires
            old(self).wf(),
        ensures
            *final(self) == old(self).with_ip_rel(wide),
            final(self).wf(),
            final(self).frame() == old(self).frame(),
    {
        reveal(Decoder::with_ip_rel);
        if wide {
            self.state = State {
                flags: StateFlags { ip_rel64: true, ..self.state.flags },
                ..self.state
            };
        } else {
            self.state = State {
                flags: StateFlags { ip_rel32: true, ..self.state.flags },
                ..self.state
            };
        }
    }

    /// The decoder with its address size made 64 bits.
    #[verifier::opaque]
    pub open spec fn with_address_size64(self) -> Decoder {
        Decoder { state: State { address_size: OpSize::Size64, ..self.state }, ..self }
    }

    /// Makes the address size 64 bits.
    pub fn set_address_size64(&mut self)
        requires
            old(self).wf(),
            old(self).is64_mode,
        ensures
            *final(self) == old(self).with_address_size64(),
            final(self).wf(),
            final(self).frame() == old(self).frame(),
            final(self).state == (State { address_size: OpSize::Size64, ..old(self).state }),
    {
        reveal(Decoder::with_address_size64);
        self.state = State { address_size: OpSize::Size64, ..self.state };
    }

    /// First register of the class that addresses of the given size use.
    pub open spec fn spec_address_base(size: OpSize) -> u32 {
        if size == OpSize::Size64 {
            register::RAX
        } else {
            register::EAX
        }
    }

    /// First register of the class that addresses of the given size use.
    #[verifier::when_used_as_spec(spec_address_base)]
    pub fn address_base(size: OpSize) -> (r: u32)
        ensures
            r == Self::spec_address_base(size),
    {
        if size == OpSize::Size64 {
            register::RAX
        } else {
            register::EAX
        }
    }

    /// Size code of a 32-bit displacement: 4 where it is sign-extended to a
    /// 64-bit address, else 3.
    pub open spec fn spec_wide_displ_size(size: OpSize) -> u32 {
        if size == OpSize::Size64 {
            4
        } else {
            3
        }
    }

    /// Size code of a 32-bit displacement.
    #[verifier::when_used_as_spec(spec_wide_displ_size)]
    pub fn wide_displ_size(size: OpSize) -> (r: u32)
        ensures
            r == Self::spec_wide_displ_size(size),
    {
        if size == OpSize::Size64 {
            4
        } else {
            3
        }
    }

    /// Decoder and record after a 16-bit memory operand has been read.
    ///
    /// `rm` selects base and index.  Mod 0 has no displacement, but for
    /// `rm` 6, which is a 16-bit address without registers.  Mod 1 has an 8-bit
    /// displacement, sign-extended to 16 bits, every other mod a 16-bit one.
    #[verifier::opaque]
    pub open spec fn spec_read_op_mem_16(self, i: Instruction) -> (Decoder, Instruction) {
        let base = spec_mem16_base(self.state.rm);
        let index = spec_mem16_index(self.state.rm);
        let d = self.with_displ_index();
        if self.state.mod_ == 0 {
            if self.state.rm == 6 {
                (
                    d.after_read(2),
                    i.with_memory_displacement(2, d.peek_u16()).with_memory_base(
                        register::NONE,
                    ).with_memory_index(index),
                )
            } else {
                (self, i.with_memory_base(base).with_memory_index(index))
            }
        } else if self.state.mod_ == 1 {
            (
                d.after_read(1),
                i.with_memory_displacement(1, spec_sext8to16(d.peek_u8())).with_memory_base(
                    base,
                ).with_memory_index(index),
            )
        } else {
            (
                d.after_read(2),
                i.with_memory_displacement(2, d.peek_u16()).with_memory_base(
                    base,
                ).with_memory_index(index),
            )
        }
    }

    /// Reads a memory operand in 16-bit addressing.
    pub fn read_op_mem_16(&mut self, instruction: &mut Instruction)
        requires
            old(self).wf(),
        ensures
            *final(self) == old(self).spec_read_op_mem_16(*old(instruction)).0,
            *final(instruction) == old(self).spec_read_op_mem_16(*old(instruction)).1,
            final(self).wf(),
            final(self).frame() == old(self).frame(),
    {
        reveal(Decoder::spec_read_op_mem_16);
        let state: State = self.state;
        let index: u32 = mem16_index(state.rm);
        if state.mod_ == 0 {
            if state.rm == 6 {
                self.set_displ_index();
                let displ: u32 = self.read_u16();
                instruction.set_memory_displacement(2, displ);
                instruction.set_memory_base(register::NONE);
            } else {
                instruction.set_memory_base(mem16_base(state.rm));
            }
        } else if state.mod_ == 1 {
            self.set_displ_index();
            let b: u32 = self.read_u8();
            instruction.set_memory_displacement(1, sext8to16(b));
            instruction.set_memory_base(mem16_base(state.rm));
        } else {
            self.set_displ_index();
            let displ: u32 = self.read_u16();
            instruction.set_memory_displacement(2, displ);
            instruction.set_memory_base(mem16_base(state.rm));
        }
        instruction.set_memory_index(index);
    }

    /// The record after the index of a SIB byte has been written.  A general
    /// purpose index whose number is 4 means that there is no index; a vector
    /// index, counted from `vsib_index`, is always there.
    pub open spec fn spec_sib_index(
        state: State,
        i: Instruction,
        sib: u32,
        vsib_index: Option<u32>,
    ) -> Instruction {
        let index = (spec_bits543(sib) + state.extra_index_register_base) as u32;
        let scaled = i.with_memory_index_scale(spec_bits76(sib));
        match vsib_index {
            Some(first) => scaled.with_memory_index((index + first) as u32),
            Option::None => if index != 4 {
                scaled.with_memory_index(
                    (index + Self::spec_address_base(state.address_size)) as u32,
                )
            } else {
                scaled
            },
        }
    }

    /// Decoder and record after a SIB byte and what follows it have been
    /// read.  Scale, index and base come from the byte; base 5 under mod 0 is
    /// a 32-bit displacement without base.
    #[verifier::opaque]
    pub open spec fn spec_read_op_mem_sib(self, i: Instruction, vsib_index: Option<u32>) -> (
        Decoder,
        Instruction,
    ) {
        let state = self.state;
        let first = Self::spec_address_base(state.address_size);
        let wide = Self::spec_wide_displ_size(state.address_size);
        let sib = self.peek_u8();
        let d = self.after_read(1);
        let indexed = Self::spec_sib_index(state, i, sib, vsib_index);
        let base = spec_bits210(sib);
        let sib_base = (base + state.extra_base_register_base + first) as u32;
        let e = d.with_displ_index();
        if state.mod_ == 0 {
            if base == 5 {
                (e.after_read(4), indexed.with_memory_displacement(wide, e.peek_u32()))
            } else {
                (d, indexed.with_memory_base(sib_base).with_memory_displacement(0, 0))
            }
        } else if state.mod_ == 1 {
            (
                e.after_read(1),
                indexed.with_memory_base(sib_base).with_memory_displacement(
                    1,
                    spec_sext8to32(e.peek_u8()),
                ),
            )
        } else {
            (
                e.after_read(4),
                indexed.with_memory_base(sib_base).with_memory_displacement(wide, e.peek_u32()),
            )
        }
    }

    /// Reads the SIB byte and what follows it.
    pub fn read_op_mem_sib(&mut self, instruction: &mut Instruction, vsib_index: Option<u32>)
        requires
            old(self).wf(),
            vsib_index matches Some(first) ==> first < register::COUNT,
        ensures
            *final(self) == old(self).spec_read_op_mem_sib(*old(instruction), vsib_index).0,
            *final(instruction) == old(self).spec_read_op_mem_sib(
                *old(instruction),
                vsib_index,
            ).1,
            final(self).wf(),
            final(self).frame() == old(self).frame(),
    {
        reveal(Decoder::spec_read_op_mem_sib);
        let state: State = self.state;
        let first: u32 = Self::address_base(state.address_size);
        let wide: u32 = Self::wide_displ_size(state.address_size);
        let sib: u32 = self.read_u8();
        let index: u32 = bits543(sib) + state.extra_index_register_base;
        let base: u32 = bits210(sib);
        instruction.set_memory_index_scale(bits76(sib));
        match vsib_index {
            Some(vector) => {
                instruction.set_memory_index(index + vector);
            },
            Option::None => {
                if index != 4 {
                    instruction.set_memory_index(index + first);
                }
            },
        }
        let sib_base: u32 = base + state.extra_base_register_base + first;
        if state.mod_ == 0 {
            if base == 5 {
                self.set_displ_index();
                let displ: u32 = self.read_u32();
                instruction.set_memory_displacement(wide, displ);
            } else {
                instruction.set_memory_base(sib_base);
                instruction.set_memory_displacement(0, 0);
            }
        } else if state.mod_ == 1 {
            self.set_displ_index();
            let b: u32 = self.read_u8();
            instruction.set_memory_base(sib_base);
            instruction.set_memory_displacement(1, sext8to32(b));
        } else {
            self.set_displ_index();
            let displ: u32 = self.read_u32();
            instruction.set_memory_base(sib_base);
            instruction.set_memory_displacement(wide, displ);
        }
    }

    /// Decoder and record after a memory operand without a SIB byte has
    /// been read in 32- or 64-bit addressing.
    ///
    /// The base is the register that `rm` selects, and mod gives the
    /// displacement: none, 8 bits sign-extended, or 32 bits.  Mod 0 with `rm`
    /// 5 is a 32-bit displacement without base, which 64-bit mode reads
    /// relative to the instruction pointer.
    #[verifier::opaque]
    pub open spec fn spec_read_op_mem_no_sib(self, i: Instruction) -> (Decoder, Instruction) {
        let state = self.state;
        let first = Self::spec_address_base(state.address_size);
        let wide = Self::spec_wide_displ_size(state.address_size);
        let rm_base = (state.extra_base_register_base + state.rm + first) as u32;
        let d = self.with_displ_index();
        if state.mod_ == 0 {
            if state.rm == 5 {
                let displ = d.peek_u32();
                if self.is64_mode {
                    if state.address_size == OpSize::Size64 {
                        (
                            d.after_read(4).with_ip_rel(true),
                            i.with_memory_displacement(4, displ).with_memory_base(register::RIP),
                        )
                    } else {
                        (
                            d.after_read(4).with_ip_rel(false),
                            i.with_memory_displacement(3, displ).with_memory_base(register::EIP),
                        )
                    }
                } else {
                    (d.after_read(4), i.with_memory_displacement(3, displ))
                }
            } else {
                (self, i.with_memory_base(rm_base))
            }
        } else if state.mod_ == 1 {
            (
                d.after_read(1),
                i.with_memory_displacement(1, spec_sext8to32(d.peek_u8())).with_memory_base(
                    rm_base,
                ),
            )
        } else {
            (
                d.after_read(4),
                i.with_memory_displacement(wide, d.peek_u32()).with_memory_base(rm_base),
            )
        }
    }

    /// Reads a memory operand that has no SIB byte.
    pub fn read_op_mem_no_sib(&mut self, instruction: &mut Instruction)
        requires
            old(self).wf(),
        ensures
            *final(self) == old(self).spec_read_op_mem_no_sib(*old(instruction)).0,
            *final(instruction) == old(self).spec_read_op_mem_no_sib(*old(instruction)).1,
            final(self).wf(),
            final(self).frame() == old(self).frame(),
    {
        reveal(Decoder::spec_read_op_mem_no_sib);
        let state: State = self.state;
        let is64_mode: bool = self.is64_mode;
        let first: u32 = Self::address_base(state.address_size);
        let rm_base: u32 = state.extra_base_register_base + state.rm + first;
        if state.mod_ == 0 {
            if state.rm == 5 {
                self.set_displ_index();
                let displ: u32 = self.read_u32();
                if is64_mode {
                    if state.address_size == OpSize::Size64 {
                        self.set_ip_rel(true);
                        instruction.set_memory_displacement(4, displ);
                        instruction.set_memory_base(register::RIP);
                    } else {
                        self.set_ip_rel(false);
                        instruction.set_memory_displacement(3, displ);
                        instruction.set_memory_base(register::EIP);
                    }
                } else {
                    instruction.set_memory_displacement(3, displ);
                }
            } else {
                instruction.set_memory_base(rm_base);
            }
        } else if state.mod_ == 1 {
            self.set_displ_index();
            let b: u32 = self.read_u8();
            instruction.set_memory_displacement(1, sext8to32(b));
            instruction.set_memory_base(rm_base);
        } else {
            let wide: u32 = Self::wide_displ_size(state.address_size);
            self.set_displ_index();
            let displ: u32 = self.read_u32();
            instruction.set_memory_displacement(wide, displ);
            instruction.set_memory_base(rm_base);
        }
    }

    /// Decoder, record and whether a SIB byte was read, after a memory
    /// operand in 32- or 64-bit addressing has been read.  A SIB byte follows
    /// where `rm` is 4.
    pub open spec fn spec_read_op_mem_32_or_64(
        self,
        i: Instruction,
        vsib_index: Option<u32>,
    ) -> (Decoder, Instruction, bool) {
        if self.state.rm == 4 {
            let r = self.spec_read_op_mem_sib(i, vsib_index);
            (r.0, r.1, true)
        } else {
            let r = self.spec_read_op_mem_no_sib(i);
            (r.0, r.1, false)
        }
    }

    /// Reads a memory operand in 32- or 64-bit addressing.  With
    /// `vsib_index` the index is a vector register, counted from it.
    /// Returns whether a SIB byte was read.
    pub fn read_op_mem_32_or_64(
        &mut self,
        instruction: &mut Instruction,
        vsib_index: Option<u32>,
    ) -> (sib: bool)
        requires
            old(self).wf(),
            vsib_index matches Some(first) ==> first < register::COUNT,
        ensures
            *final(self) == old(self).spec_read_op_mem_32_or_64(*old(instruction), vsib_index).0,
            *final(instruction) == old(self).spec_read_op_mem_32_or_64(
                *old(instruction),
                vsib_index,
            ).1,
            sib == old(self).spec_read_op_mem_32_or_64(*old(instruction), vsib_index).2,
            final(self).wf(),
            final(self).frame() == old(self).frame(),
    {
        if self.state.rm == 4 {
            self.read_op_mem_sib(instruction, vsib_index);
            true
        } else {
            self.read_op_mem_no_sib(instruction);
            false
        }
    }

    /// Decoder and record after the memory operand has been read in the
    /// current address size.
    #[verifier::opaque]
    pub open spec fn spec_read_op_mem(self, i: Instruction) -> (Decoder, Instruction) {
        if self.state.address_size != OpSize::Size16 {
            let r = self.spec_read_op_mem_32_or_64(i, Option::None);
            (r.0, r.1)
        } else {
            self.spec_read_op_mem_16(i)
        }
    }

    /// Reads the memory operand that ModRM, SIB and displacement encode.
    pub fn read_op_mem(&mut self, instruction: &mut Instruction)
        requires
            old(self).wf(),
        ensures
            *final(self) == old(self).spec_read_op_mem(*old(instruction)).0,
            *final(instruction) == old(self).spec_read_op_mem(*old(instruction)).1,
            final(self).wf(),
            final(self).frame() == old(self).frame(),
    {
        reveal(Decoder::spec_read_op_mem);
        if self.state.address_size != OpSize::Size16 {
            let _ = self.read_op_mem_32_or_64(instruction, Option::None);
        } else {
            self.read_op_mem_16(instruction);
        }
    }

    /// Decoder and record after the memory operand of a bounds instruction
    /// has been read.  In 64-bit mode the address size is 64 bits whatever
    /// the prefixes say; 16-bit addressing is invalid.
    #[verifier::opaque]
    pub open spec fn spec_read_op_mem_mpx(self, i: Instruction) -> (Decoder, Instruction) {
        if self.is64_mode {
            let r = self.with_address_size64().spec_read_op_mem_32_or_64(i, Option::None);
            (r.0, r.1)
        } else if self.state.address_size != OpSize::Size16 {
            let r = self.spec_read_op_mem_32_or_64(i, Option::None);
            (r.0, r.1)
        } else {
            let r = self.spec_read_op_mem_16(i);
            (r.0.invalidated_if(self.invalid_check), r.1)
        }
    }

    /// Reads the memory operand of a bounds instruction.
    pub fn read_op_mem_mpx(&mut self, instruction: &mut Instruction)
        requires
            old(self).wf(),
        ensures
            *final(self) == old(self).spec_read_op_mem_mpx(*old(instruction)).0,
            *final(instruction) == old(self).spec_read_op_mem_mpx(*old(instruction)).1,
            final(self).wf(),
            final(self).frame() == old(self).frame(),
    {
        reveal(Decoder::spec_read_op_mem_mpx);
        let check: bool = self.invalid_check;
        if self.is64_mode {
            self.set_address_size64();
            let _ = self.read_op_mem_32_or_64(instruction, Option::None);
        } else if self.state.address_size != OpSize::Size16 {
            let _ = self.read_op_mem_32_or_64(instruction, Option::None);
        } else {
            self.read_op_mem_16(instruction);
            self.set_invalid_instruction_if(check);
        }
    }

    /// Decoder and record after a memory operand with a vector index has
    /// been read.  Such an operand needs a SIB byte: without one, and in
    /// 16-bit addressing, the instruction is invalid.
    #[verifier::opaque]
    pub open spec fn spec_read_op_mem_vsib(self, i: Instruction, vsib_index: u32) -> (
        Decoder,
        Instruction,
    ) {
        if self.state.address_size != OpSize::Size16 {
            let r = self.spec_read_op_mem_32_or_64(i, Some(vsib_index));
            (r.0.invalidated_if(self.invalid_check && !r.2), r.1)
        } else {
            let r = self.spec_read_op_mem_16(i);
            (r.0.invalidated_if(self.invalid_check), r.1)
        }
    }

    /// Reads a memory operand whose index is a vector register of the class
    /// that starts at `vsib_index`.
    pub fn read_op_mem_vsib(&mut self, instruction: &mut Instruction, vsib_index: u32)
        requires
            old(self).wf(),
            vsib_index < register::COUNT,
        ensures
            *final(self) == old(self).spec_read_op_mem_vsib(*old(instruction), vsib_index).0,
            *final(instruction) == old(self).spec_read_op_mem_vsib(
                *old(instruction),
                vsib_index,
            ).1,
            final(self).wf(),
            final(self).frame() == old(self).frame(),
    {
        reveal(Decoder::spec_read_op_mem_vsib);
        let check: bool = self.invalid_check;
        if self.state.address_size != OpSize::Size16 {
            let sib: bool = self.read_op_mem_32_or_64(instruction, Some(vsib_index));
            self.set_invalid_instruction_if(check && !sib);
        } else {
            self.read_op_mem_16(instruction);
            self.set_invalid_instruction_if(check);
        }
    }
}

} // verus!
