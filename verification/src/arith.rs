//! Fixed-width arithmetic: little-endian values, sign extension and
//! addresses that wrap at the width of a branch.
use vstd::prelude::*;
use vstd::arithmetic::div_mod::{lemma_fundamental_div_mod, lemma_fundamental_div_mod_converse};
use crate::enums::OpSize;

verus! {

/// The value of two bytes in little-endian order.
#[verifier::opaque]
pub open spec fn spec_le16(b0: u8, b1: u8) -> u32 {
    (b0 + b1 * 0x100) as u32
}

/// The value of two bytes in little-endian order.
#[verifier::when_used_as_spec(spec_le16)]
pub fn le16(b0: u8, b1: u8) -> (v: u32)
    ensures
        v == spec_le16(b0, b1),
        v <= 0xFFFF,
{
    reveal(spec_le16);
    (b0 as u32) + (b1 as u32) * 0x100
}

/// The value of four bytes in little-endian order.
#[verifier::opaque]
pub open spec fn spec_le32(b0: u8, b1: u8, b2: u8, b3: u8) -> u32 {
    (b0 + b1 * 0x100 + b2 * 0x1_0000 + b3 * 0x100_0000) as u32
}

/// The value of four bytes in little-endian order.
#[verifier::when_used_as_spec(spec_le32)]
pub fn le32(b0: u8, b1: u8, b2: u8, b3: u8) -> (v: u32)
    ensures
        v == spec_le32(b0, b1, b2, b3),
{
    reveal(spec_le32);
    (b0 as u32) + (b1 as u32) * 0x100 + (b2 as u32) * 0x1_0000 + (b3 as u32) * 0x100_0000
}

/// The 64-bit value with the given low and high halves.
pub open spec fn spec_join64(low: u32, high: u32) -> u64 {
    (low + high * 0x1_0000_0000) as u64
}

/// The 64-bit value with the given low and high halves.
#[verifier::when_used_as_spec(spec_join64)]
pub fn join64(low: u32, high: u32) -> (v: u64)
    ensures
        v == spec_join64(low, high),
{
    (high as u64) * 0x1_0000_0000 + (low as u64)
}

/// The 8-bit value `b` read as a signed number.
pub open spec fn signed8(b: u32) -> int {
    if b < 0x80 {
        b as int
    } else {
        b - 0x100
    }
}

/// The 16-bit value `w` read as a signed number.
pub open spec fn signed16(w: u32) -> int {
    if w < 0x8000 {
        w as int
    } else {
        w - 0x1_0000
    }
}

/// The 32-bit value `d` read as a signed number.
pub open spec fn signed32(d: u32) -> int {
    if d < 0x8000_0000 {
        d as int
    } else {
        d - 0x1_0000_0000
    }
}

/// An 8-bit value as a signed displacement.
pub fn displacement8(b: u32) -> (d: i64)
    requires
        b <= 0xFF,
    ensures
        d == signed8(b),
{
    if b < 0x80 {
        b as i64
    } else {
        b as i64 - 0x100
    }
}

/// A 16-bit value as a signed displacement.
pub fn displacement16(w: u32) -> (d: i64)
    requires
        w <= 0xFFFF,
    ensures
        d == signed16(w),
{
    if w < 0x8000 {
        w as i64
    } else {
        w as i64 - 0x1_0000
    }
}

/// A 32-bit value as a signed displacement.
pub fn displacement32(v: u32) -> (d: i64)
    ensures
        d == signed32(v),
{
    if v < 0x8000_0000 {
        v as i64
    } else {
        v as i64 - 0x1_0000_0000
    }
}

/// An 8-bit value sign-extended to 16 bits.
pub open spec fn spec_sext8to16(b: u32) -> u32 {
    if b < 0x80 {
        b
    } else {
        (b + 0xFF00) as u32
    }
}

/// An 8-bit value sign-extended to 16 bits.
#[verifier::when_used_as_spec(spec_sext8to16)]
pub fn sext8to16(b: u32) -> (v: u32)
    requires
        b <= 0xFF,
    ensures
        v == spec_sext8to16(b),
        v <= 0xFFFF,
{
    if b < 0x80 {
        b
    } else {
        b + 0xFF00
    }
}

/// An 8-bit value sign-extended to 32 bits.
pub open spec fn spec_sext8to32(b: u32) -> u32 {
    if b < 0x80 {
        b
    } else {
        (b + 0xFFFF_FF00) as u32
    }
}

/// An 8-bit value sign-extended to 32 bits.
#[verifier::when_used_as_spec(spec_sext8to32)]
pub fn sext8to32(b: u32) -> (v: u32)
    requires
        b <= 0xFF,
    ensures
        v == spec_sext8to32(b),
{
    if b < 0x80 {
        b
    } else {
        b + 0xFFFF_FF00
    }
}

/// Number of values of an address or operand of the given width.
pub open spec fn modulus(size: OpSize) -> int {
    match size {
        OpSize::Size16 => 0x1_0000,
        OpSize::Size32 => 0x1_0000_0000,
        OpSize::Size64 => 0x1_0000_0000_0000_0000,
    }
}

/// The address `address` wrapped to the given width.
pub open spec fn wrap(address: int, size: OpSize) -> u64 {
    (address % modulus(size)) as u64
}

/// `ip + offset + displacement`, wrapped to 64 bits.
pub fn wrapping_address64(ip: u64, offset: u64, displacement: i64) -> (address: u64)
    requires
        offset <= 15,
    ensures
        address == wrap(ip + offset + displacement, OpSize::Size64),
{
    let first: u64 = ip.wrapping_add(offset);
    let second: u64 = first.wrapping_add_signed(displacement);
    proof {
        let m: int = 0x1_0000_0000_0000_0000;
        let x: int = ip + offset + displacement;
        let q: int = (x - second) / m;
        assert(x - second == 0 || x - second == m || x - second == -m || x - second == 2 * m);
        assert(x == q * m + second);
        lemma_fundamental_div_mod_converse(x, m, q, second as int);
    }
    second
}

/// `ip + offset + displacement`, wrapped to `bits` bits, where `m` is two to
/// the power `bits` and divides two to the power 32.
fn wrapping_address_small(ip: u64, offset: u64, displacement: i64, m: u64) -> (address: u64)
    requires
        offset <= 15,
        -0x8000_0000 <= displacement < 0x1_0000_0000,
        m == 0x1_0000 || m == 0x1_0000_0000,
    ensures
        address == (ip + offset + displacement) % (m as int),
        address < m,
{
    let base: u64 = ip % m;
    let shifted: u64 = (displacement + 0x1_0000_0000) as u64;
    let sum: u64 = base + offset + shifted;
    let address: u64 = sum % m;
    proof {
        let mi: int = m as int;
        let x: int = ip + offset + displacement;
        lemma_fundamental_div_mod(ip as int, mi);
        lemma_fundamental_div_mod(sum as int, mi);
        let k: int = (ip as int) / mi;
        let j: int = (sum as int) / mi;
        let c: int = if m == 0x1_0000 { 0x1_0000 } else { 1 };
        assert(c * mi == 0x1_0000_0000);
        let q: int = k + j - c;
        assert(ip == mi * k + base);
        assert(sum == mi * j + address);
        assert(x == q * mi + address) by (nonlinear_arith)
            requires
                ip == mi * k + base,
                sum == mi * j + address,
                sum == base + offset + displacement + c * mi,
                x == ip + offset + displacement,
                q == k + j - c,
        ;
        lemma_fundamental_div_mod_converse(x, mi, q, address as int);
    }
    address
}

/// `ip + offset + displacement`, wrapped to the given width.  The sum is
/// never an error: one that leaves the width comes back in at the other end.
pub fn wrapping_address(ip: u64, offset: u64, displacement: i64, size: OpSize) -> (address: u64)
    requires
        offset <= 15,
        -0x8000_0000 <= displacement < 0x1_0000_0000,
    ensures
        address == wrap(ip + offset + displacement, size),
        address < modulus(size),
{
    match size {
        OpSize::Size16 => wrapping_address_small(ip, offset, displacement, 0x1_0000),
        OpSize::Size32 => wrapping_address_small(ip, offset, displacement, 0x1_0000_0000),
        OpSize::Size64 => wrapping_address64(ip, offset, displacement),
    }
}

/// Bits 7 and 6 of a byte: the mod field of a ModRM byte, the scale of a SIB byte.
#[verifier::opaque]
pub open spec fn spec_bits76(b: u32) -> u32 {
    b / 64
}

/// Bits 5 to 3 of a byte: the reg field of a ModRM byte, the index of a SIB byte.
#[verifier::opaque]
pub open spec fn spec_bits543(b: u32) -> u32 {
    (b / 8) % 8
}

/// Bits 2 to 0 of a byte: the rm field of a ModRM byte, the base of a SIB byte.
#[verifier::opaque]
pub open spec fn spec_bits210(b: u32) -> u32 {
    b % 8
}

/// Bits 7 and 6 of a byte.
#[verifier::when_used_as_spec(spec_bits76)]
pub fn bits76(b: u32) -> (v: u32)
    requires
        b <= 0xFF,
    ensures
        v == spec_bits76(b),
        v <= 3,
{
    reveal(spec_bits76);
    b / 64
}

/// Bits 5 to 3 of a byte.
#[verifier::when_used_as_spec(spec_bits543)]
pub fn bits543(b: u32) -> (v: u32)
    ensures
        v == spec_bits543(b),
        v <= 7,
{
    reveal(spec_bits543);
    (b / 8) % 8
}

/// Bits 2 to 0 of a byte.
#[verifier::when_used_as_spec(spec_bits210)]
pub fn bits210(b: u32) -> (v: u32)
    ensures
        v == spec_bits210(b),
        v <= 7,
{
    reveal(spec_bits210);
    b % 8
}

} // verus!
