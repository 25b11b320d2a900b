//! The register-register arithmetic of the machine: wrapping 8-bit
//! addition and subtraction with their carry/borrow flags, the one-bit
//! shifts with their evicted bits, and the decimal decomposition used by
//! the BCD store instruction.  Every operation is total and exact: the
//! result is the operation modulo 256 and the flag is pinned down for
//! every pair of operands.

use vstd::prelude::*;

verus! {

/// Adds two register values with 8-bit wraparound and no flag effect.
pub fn wrapping_add_byte(a: u8, b: u8) -> (r: u8)
    ensures
        r == (a + b) % 256,
{
    let sum = a as u16 + b as u16;
    (sum % 256) as u8
}

/// Adds two register values; the result wraps modulo 256 and the flag is
/// 1 exactly when the true sum does not fit in eight bits.
pub fn add_with_carry(a: u8, b: u8) -> (r: (u8, u8))
    ensures
        r.0 == (a + b) % 256,
        r.1 == if a + b >= 256 { 1u8 } else { 0u8 },
{
    let sum = a as u16 + b as u16;
    let flag: u8 = if sum >= 256 { 1 } else { 0 };
    ((sum % 256) as u8, flag)
}

/// Subtracts `b` from `a`; the result wraps modulo 256 and the flag is 1
/// exactly when no borrow occurs, that is when `a >= b`.
pub fn sub_with_borrow(a: u8, b: u8) -> (r: (u8, u8))
    ensures
        r.0 == if a >= b { a - b } else { a - b + 256 },
        r.1 == if a >= b { 1u8 } else { 0u8 },
{
    if a >= b {
        (a - b, 1)
    } else {
        let diff = a as u16 + 256 - b as u16;
        ((diff % 256) as u8, 0)
    }
}

/// Shifts a register value right by one; the result is the shifted byte
/// and the flag is the evicted low bit.
pub fn shift_right_with_flag(a: u8) -> (r: (u8, u8))
    ensures
        r.0 == a / 2,
        r.1 == a % 2,
{
    proof {
        assert(a >> 1u8 == a / 2) by (bit_vector);
        assert(a & 0x1 == a % 2) by (bit_vector);
    }
    (a >> 1u8, a & 0x1)
}

/// Shifts a register value left by one; the result wraps modulo 256 and
/// the flag is the evicted high bit.
pub fn shift_left_with_flag(a: u8) -> (r: (u8, u8))
    ensures
        r.0 == (2 * a) % 256,
        r.1 == a / 128,
    {
    proof {
        assert(a << 1u8 == (2 * a) % 256) by (bit_vector);
        assert((a & 0x80) >> 7u8 == a / 128) by (bit_vector);
    }
    (a << 1u8, (a & 0x80) >> 7u8)
}

/// Splits a register value into its decimal digits: hundreds, tens, ones.
pub fn bcd_digits(v: u8) -> (r: (u8, u8, u8))
    ensures
        r.0 == v / 100,
        r.1 == (v / 10) % 10,
        r.2 == v % 10,
{
    (v / 100, (v / 10) % 10, v % 10)
}

} // verus!
