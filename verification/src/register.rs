//! Register numbers.
//!
//! Registers of one class are numbered consecutively, so that the register a
//! ModRM field selects is the class's first register plus the field.  The
//! 16-, 32- and 64-bit general purpose classes lie 16 numbers apart.
use vstd::prelude::*;

verus! {

pub const NONE: u32 = 0;
pub const AL: u32 = 1;
pub const CL: u32 = 2;
pub const DL: u32 = 3;
pub const BL: u32 = 4;
pub const AH: u32 = 5;
pub const CH: u32 = 6;
pub const DH: u32 = 7;
pub const BH: u32 = 8;
pub const SPL: u32 = 9;
pub const BPL: u32 = 10;
pub const SIL: u32 = 11;
pub const DIL: u32 = 12;
pub const R8L: u32 = 13;
pub const R15L: u32 = 20;
pub const AX: u32 = 21;
pub const CX: u32 = 22;
pub const DX: u32 = 23;
pub const BX: u32 = 24;
pub const SP: u32 = 25;
pub const BP: u32 = 26;
pub const SI: u32 = 27;
pub const DI: u32 = 28;
pub const R8W: u32 = 29;
pub const R15W: u32 = 36;
pub const EAX: u32 = 37;
pub const ECX: u32 = 38;
pub const EDX: u32 = 39;
pub const EBX: u32 = 40;
pub const ESP: u32 = 41;
pub const EBP: u32 = 42;
pub const ESI: u32 = 43;
pub const EDI: u32 = 44;
pub const R8D: u32 = 45;
pub const R15D: u32 = 52;
pub const RAX: u32 = 53;
pub const RCX: u32 = 54;
pub const RDX: u32 = 55;
pub const RBX: u32 = 56;
pub const RSP: u32 = 57;
pub const RBP: u32 = 58;
pub const RSI: u32 = 59;
pub const RDI: u32 = 60;
pub const R8: u32 = 61;
pub const R15: u32 = 68;
pub const EIP: u32 = 69;
pub const RIP: u32 = 70;
pub const ES: u32 = 71;
pub const CS: u32 = 72;
pub const SS: u32 = 73;
pub const DS: u32 = 74;
pub const FS: u32 = 75;
pub const GS: u32 = 76;
pub const XMM0: u32 = 77;
pub const XMM31: u32 = 108;
pub const YMM0: u32 = 109;
pub const YMM31: u32 = 140;
pub const ZMM0: u32 = 141;
pub const ZMM31: u32 = 172;
pub const K0: u32 = 173;
pub const K7: u32 = 180;
pub const BND0: u32 = 181;
pub const BND3: u32 = 184;
pub const CR0: u32 = 185;
pub const CR8: u32 = 193;
pub const CR15: u32 = 200;
pub const DR0: u32 = 201;
pub const DR15: u32 = 216;
pub const ST0: u32 = 217;
pub const ST7: u32 = 224;
pub const MM0: u32 = 225;
pub const MM7: u32 = 232;
pub const TR0: u32 = 233;
pub const TR7: u32 = 240;

/// One more than the largest register number.
pub const COUNT: u32 = 241;

/// Number of vector registers in each of the XMM, YMM and ZMM classes.
pub const VMM_COUNT: u32 = 32;

/// First general purpose register of the class of the given width.
pub open spec fn spec_gpr_base(size: crate::enums::OpSize) -> u32 {
    match size {
        crate::enums::OpSize::Size16 => AX,
        crate::enums::OpSize::Size32 => EAX,
        crate::enums::OpSize::Size64 => RAX,
    }
}

/// First general purpose register of the class of the given width.
#[verifier::when_used_as_spec(spec_gpr_base)]
pub fn gpr_base(size: crate::enums::OpSize) -> (r: u32)
    ensures
        r == spec_gpr_base(size),
{
    match size {
        crate::enums::OpSize::Size16 => AX,
        crate::enums::OpSize::Size32 => EAX,
        crate::enums::OpSize::Size64 => RAX,
    }
}

/// The 8-bit register that a 4-bit field selects.
///
/// Without a REX prefix the fields 4 to 7 name AH, CH, DH and BH.  With one
/// they name SPL, BPL, SIL and DIL, and 8 to 15 name R8L to R15L.
pub open spec fn spec_byte_register(index: u32, has_rex: bool) -> u32 {
    if has_rex && index >= 4 {
        (index + 4 + AL) as u32
    } else {
        (index + AL) as u32
    }
}

/// The 8-bit register that a 4-bit field selects.
#[verifier::when_used_as_spec(spec_byte_register)]
pub fn byte_register(index: u32, has_rex: bool) -> (r: u32)
    requires
        index < 0x1000,
    ensures
        r == spec_byte_register(index, has_rex),
{
    if has_rex && index >= 4 {
        index + 4 + AL
    } else {
        index + AL
    }
}

/// The register `index` places after `base`.
pub open spec fn spec_offset(base: u32, index: u32) -> u32 {
    (base + index) as u32
}

/// The register `index` places after `base`.
#[verifier::when_used_as_spec(spec_offset)]
pub fn offset(base: u32, index: u32) -> (r: u32)
    requires
        base < COUNT,
        index < 0x100,
    ensures
        r == spec_offset(base, index),
        r == base + index,
{
    base + index
}

/// First 64-bit general purpose register if `wide`, else first 32-bit one.
pub open spec fn spec_gpr32_or_64(wide: bool) -> u32 {
    if wide {
        RAX
    } else {
        EAX
    }
}

/// First 64-bit general purpose register if `wide`, else first 32-bit one.
#[verifier::when_used_as_spec(spec_gpr32_or_64)]
pub fn gpr32_or_64(wide: bool) -> (r: u32)
    ensures
        r == spec_gpr32_or_64(wide),
{
    if wide {
        RAX
    } else {
        EAX
    }
}

/// First general purpose register of the 16-bit class for 16-bit
/// operands, else of the 32-bit class.
pub open spec fn spec_gpr16_or_32(size: crate::enums::OpSize) -> u32 {
    if size != crate::enums::OpSize::Size16 {
        EAX
    } else {
        AX
    }
}

/// First general purpose register of the 16-bit class for 16-bit
/// operands, else of the 32-bit class.
#[verifier::when_used_as_spec(spec_gpr16_or_32)]
pub fn gpr16_or_32(size: crate::enums::OpSize) -> (r: u32)
    ensures
        r == spec_gpr16_or_32(size),
{
    if size != crate::enums::OpSize::Size16 {
        EAX
    } else {
        AX
    }
}

/// Whether register `number` of the class that starts at `base` is a
/// control or debug register that does not exist: CR1, CR5 to CR7 and CR9 to
/// CR15, and DR8 to DR15.
pub open spec fn spec_reserved_special_register(base: u32, number: u32) -> bool {
    if base == CR0 {
        number == 1 || (number != 8 && number >= 5)
    } else if base == DR0 {
        number > 7
    } else {
        false
    }
}

/// Whether register `number` of the class that starts at `base` is a
/// control or debug register that does not exist.
#[verifier::when_used_as_spec(spec_reserved_special_register)]
pub fn reserved_special_register(base: u32, number: u32) -> (b: bool)
    ensures
        b == spec_reserved_special_register(base, number),
{
    if base == CR0 {
        number == 1 || (number != 8 && number >= 5)
    } else if base == DR0 {
        number > 7
    } else {
        false
    }
}

} // verus!
