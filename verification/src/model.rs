//! Plaintext meaning of the encrypted scalars: modular reduction at each of
//! the bit widths the circuits use.

use vstd::prelude::*;

verus! {

/// Value of `x` reduced into the 4-bit range.
pub open spec fn m4(x: int) -> u8 {
    (x % 0x10) as u8
}

/// Value of `x` reduced into the 8-bit range.
pub open spec fn m8(x: int) -> u8 {
    (x % 0x100) as u8
}

/// Value of `x` reduced into the 10-bit range.
pub open spec fn m10(x: int) -> u16 {
    (x % 0x400) as u16
}

/// Value of `x` reduced into the 16-bit range.
pub open spec fn m16(x: int) -> u16 {
    (x % 0x1_0000) as u16
}

/// Value of `x` reduced into the 64-bit range.
pub open spec fn m64(x: int) -> u64 {
    (x % 0x1_0000_0000_0000_0000) as u64
}

/// 1 for a true condition, 0 for a false one: the arithmetic form of a
/// boolean, as the oblivious casts produce it.
pub open spec fn b2i(b: bool) -> int {
    if b {
        1int
    } else {
        0int
    }
}

/// Threshold bucketing over a descending chain of thresholds is total and
/// exclusive: for every value, exactly one of the four bucket indicators
/// holds. The three bucketings of the scoring circuit are instances, with
/// `(a, b, c)` the ordered thresholds of each.
pub proof fn lemma_chain_buckets_partition(x: int, a: int, b: int, c: int)
    requires
        a >= b >= c,
    ensures
        b2i(x > a) + b2i(x <= a && x > b) + b2i(x <= b && x > c) + b2i(x <= c) == 1,
{
}

/// The standard wrapping addition is the modular sum.
pub proof fn lemma_wrapping_add64(a: u64, b: u64)
    ensures
        vstd::wrapping::u64_specs::wrapping_add(a, b) == m64(a + b),
{
}

/// The standard wrapping multiplication is the modular product.
pub proof fn lemma_wrapping_mul64(a: u64, b: u64)
    ensures
        vstd::wrapping::u64_specs::wrapping_mul(a, b) == m64(a * b),
{
}

} // verus!
