//! Small enumerations shared by the decoder state and the instruction record.
use vstd::prelude::*;

verus! {

/// Operand or address width.
#[derive(Clone, Copy, Debug, PartialEq, Eq, Structural)]
pub enum OpSize {
    Size16,
    Size32,
    Size64,
}

impl OpSize {
    /// Position of the width in a per-width table: 0 for 16 bits, 1 for 32, 2 for 64.
    pub open spec fn spec_index(self) -> u32 {
        match self {
            OpSize::Size16 => 0,
            OpSize::Size32 => 1,
            OpSize::Size64 => 2,
        }
    }

    /// Position of the width in a per-width table.
    #[verifier::when_used_as_spec(spec_index)]
    pub fn index(self) -> (n: u32)
        ensures
            n == self.spec_index(),
            n <= 2,
    {
        match self {
            OpSize::Size16 => 0,
            OpSize::Size32 => 1,
            OpSize::Size64 => 2,
        }
    }

    /// Width in bits.
    pub open spec fn spec_bits(self) -> u32 {
        match self {
            OpSize::Size16 => 16,
            OpSize::Size32 => 32,
            OpSize::Size64 => 64,
        }
    }

    /// Width in bits.
    #[verifier::when_used_as_spec(spec_bits)]
    pub fn bits(self) -> (n: u32)
        ensures
            n == self.spec_bits(),
    {
        match self {
            OpSize::Size16 => 16,
            OpSize::Size32 => 32,
            OpSize::Size64 => 64,
        }
    }
}

/// Default code size of the segment an instruction was decoded in.
#[derive(Clone, Copy, Debug, PartialEq, Eq, Structural)]
pub enum CodeSize {
    Unknown,
    Code16,
    Code32,
    Code64,
}

/// Encoding family of the instruction being decoded.
#[derive(Clone, Copy, Debug, PartialEq, Eq, Structural)]
pub enum EncodingKind {
    Legacy,
    VEX,
    EVEX,
    XOP,
    D3NOW,
}

/// Mandatory prefix that selects among the instructions sharing an opcode.
#[derive(Clone, Copy, Debug, PartialEq, Eq, Structural)]
pub enum MandatoryPrefixByte {
    PNone,
    P66,
    PF3,
    PF2,
}

impl MandatoryPrefixByte {
    /// Slot of the prefix in a four-way selector: none, 66, F3, F2.
    pub open spec fn spec_index(self) -> usize {
        match self {
            MandatoryPrefixByte::PNone => 0,
            MandatoryPrefixByte::P66 => 1,
            MandatoryPrefixByte::PF3 => 2,
            MandatoryPrefixByte::PF2 => 3,
        }
    }

    /// Slot of the prefix in a four-way selector.
    #[verifier::when_used_as_spec(spec_index)]
    pub fn index(self) -> (n: usize)
        ensures
            n == self.spec_index(),
            n < 4,
    {
        match self {
            MandatoryPrefixByte::PNone => 0,
            MandatoryPrefixByte::P66 => 1,
            MandatoryPrefixByte::PF3 => 2,
            MandatoryPrefixByte::PF2 => 3,
        }
    }

    /// The prefix that the two low bits of a VEX/XOP payload byte select.
    pub open spec fn spec_from_pp(pp: u32) -> MandatoryPrefixByte {
        if pp == 0 {
            MandatoryPrefixByte::PNone
        } else if pp == 1 {
            MandatoryPrefixByte::P66
        } else if pp == 2 {
            MandatoryPrefixByte::PF3
        } else {
            MandatoryPrefixByte::PF2
        }
    }

    /// The prefix that the two low bits of a VEX/XOP payload byte select.
    #[verifier::when_used_as_spec(spec_from_pp)]
    pub fn from_pp(pp: u32) -> (p: MandatoryPrefixByte)
        ensures
            p == Self::spec_from_pp(pp),
    {
        if pp == 0 {
            MandatoryPrefixByte::PNone
        } else if pp == 1 {
            MandatoryPrefixByte::P66
        } else if pp == 2 {
            MandatoryPrefixByte::PF3
        } else {
            MandatoryPrefixByte::PF2
        }
    }
}

/// Vector length selected by a VEX/XOP/EVEX prefix.
#[derive(Clone, Copy, Debug, PartialEq, Eq, Structural)]
pub enum VectorLength {
    L128,
    L256,
    L512,
    Unknown,
}

impl VectorLength {
    /// Slot of the length in a vector-length selector.
    pub open spec fn spec_index(self) -> usize {
        match self {
            VectorLength::L128 => 0,
            VectorLength::L256 => 1,
            VectorLength::L512 => 2,
            VectorLength::Unknown => 3,
        }
    }

    /// Slot of the length in a vector-length selector.
    #[verifier::when_used_as_spec(spec_index)]
    pub fn index(self) -> (n: usize)
        ensures
            n == self.spec_index(),
            n < 4,
    {
        match self {
            VectorLength::L128 => 0,
            VectorLength::L256 => 1,
            VectorLength::L512 => 2,
            VectorLength::Unknown => 3,
        }
    }
}

/// Kind of one operand of a decoded instruction.
#[derive(Clone, Copy, Debug, PartialEq, Eq, Structural)]
pub enum OpKind {
    /// A register; the operand's register slot names it.
    Register,
    /// Near branch with a 16-bit target.
    NearBranch16,
    /// Near branch with a 32-bit target.
    NearBranch32,
    /// Near branch with a 64-bit target.
    NearBranch64,
    /// Far branch with a 16-bit offset.
    FarBranch16,
    /// Far branch with a 32-bit offset.
    FarBranch32,
    /// 8-bit immediate.
    Immediate8,
    /// Second 8-bit immediate of an instruction with two of them.
    Immediate8_2nd,
    /// 16-bit immediate.
    Immediate16,
    /// 32-bit immediate.
    Immediate32,
    /// 64-bit immediate.
    Immediate64,
    /// 8-bit immediate sign-extended to 16 bits.
    Immediate8to16,
    /// 8-bit immediate sign-extended to 32 bits.
    Immediate8to32,
    /// 8-bit immediate sign-extended to 64 bits.
    Immediate8to64,
    /// 32-bit immediate sign-extended to 64 bits.
    Immediate32to64,
    /// `seg:[SI]`, the segment overridable.
    MemorySegSI,
    /// `seg:[ESI]`, the segment overridable.
    MemorySegESI,
    /// `seg:[RSI]`, the segment overridable.
    MemorySegRSI,
    /// `seg:[DI]`, the segment overridable.
    MemorySegDI,
    /// `seg:[EDI]`, the segment overridable.
    MemorySegEDI,
    /// `seg:[RDI]`, the segment overridable.
    MemorySegRDI,
    /// `ES:[DI]`.
    MemoryESDI,
    /// `ES:[EDI]`.
    MemoryESEDI,
    /// `ES:[RDI]`.
    MemoryESRDI,
    /// 64-bit absolute address without base or index.
    Memory64,
    /// Memory operand given by base, index, scale and displacement.
    Memory,
}

} // verus!
