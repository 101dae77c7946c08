//! Bit sets that configure the decoder and its handlers.
use vstd::prelude::*;

verus! {

/// Options of a decoder, combined with `|`.
pub struct DecoderOptions;

impl DecoderOptions {
    /// No option set.
    pub const NONE: u32 = 0;
    /// Accept encodings that are reserved or undefined.
    pub const NO_INVALID_CHECK: u32 = 0x0000_0001;
    /// Decode near branches as AMD processors do in 64-bit mode.
    pub const AMD_BRANCHES: u32 = 0x0000_0002;
    /// Decode the reserved-NOP opcodes as reserved NOPs.
    pub const FORCE_RESERVED_NOP: u32 = 0x0000_0004;
    /// Decode `F3 90` as `XCHG`, not as `PAUSE`.
    pub const NO_PAUSE: u32 = 0x0000_2000;
    /// Decode `F3 0F 09` as `WBINVD`, not as `WBNOINVD`.
    pub const NO_WBNOINVD: u32 = 0x0000_4000;
    /// Do not read `LOCK MOV CR0` as `MOV CR8`.
    pub const NO_LOCK_MOV_CR0: u32 = 0x0000_8000;
}

/// Flags of a handler whose memory operand may be locked.
pub struct HandlerFlags;

impl HandlerFlags {
    /// No flag set.
    pub const NONE: u32 = 0;
    /// `F2` may be an XACQUIRE prefix.
    pub const XACQUIRE: u32 = 0x0000_0001;
    /// `F3` may be an XRELEASE prefix.
    pub const XRELEASE: u32 = 0x0000_0002;
    /// XACQUIRE and XRELEASE need no `LOCK` prefix.
    pub const XACQUIRE_XRELEASE_NO_LOCK: u32 = 0x0000_0004;
    /// The instruction accepts a `LOCK` prefix.
    pub const LOCK: u32 = 0x0000_0008;
}

/// Flags of the reg/mem mandatory-prefix selector: a set flag leaves the
/// prefix of that slot for the child handler to read.
pub struct LegacyHandlerFlags;

impl LegacyHandlerFlags {
    pub const HANDLER_REG: u32 = 0x0000_0001;
    pub const HANDLER_MEM: u32 = 0x0000_0002;
    pub const HANDLER_66_REG: u32 = 0x0000_0004;
    pub const HANDLER_66_MEM: u32 = 0x0000_0008;
    pub const HANDLER_F3_REG: u32 = 0x0000_0010;
    pub const HANDLER_F3_MEM: u32 = 0x0000_0020;
    pub const HANDLER_F2_REG: u32 = 0x0000_0040;
    pub const HANDLER_F2_MEM: u32 = 0x0000_0080;
}

/// Whether the bit set `flags` holds any bit of `mask`.
pub open spec fn spec_has_flag(flags: u32, mask: u32) -> bool {
    (flags & mask) != 0
}

/// Whether the bit set `flags` holds any bit of `mask`.
#[verifier::when_used_as_spec(spec_has_flag)]
pub fn has_flag(flags: u32, mask: u32) -> (b: bool)
    ensures
        b == spec_has_flag(flags, mask),
{
    (flags & mask) != 0
}

} // verus!
