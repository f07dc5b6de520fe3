//! Arithmetic modulo the register width, and how the wrapping operations of
//! the machine integers compute it.

use vstd::prelude::*;

verus! {

/// Reduction of an integer modulo 2^64.
pub open spec fn wrap64(x: int) -> u64 {
    (x % 0x1_0000_0000_0000_0000) as u64
}

/// Reduction of an integer modulo 2^128.
pub open spec fn wrap128(x: int) -> u128 {
    (x % 0x1_0000_0000_0000_0000_0000_0000_0000_0000int) as u128
}

/// A wrapping product is the product reduced modulo 2^64.
pub proof fn lemma_mul_wraps64(a: u64, b: u64)
    ensures
        a.wrapping_mul(b) == wrap64(a * b),
{
}

/// Reducing before or after adding a constant gives the same residue.
proof fn lemma_reduce_then_add64(p: int, c: int)
    ensures
        wrap64(wrap64(p) + c) == wrap64(p + c),
{
}

/// A wrapping product followed by a wrapping sum is `a * b + c` modulo 2^64.
pub proof fn lemma_mul_add_wraps64(a: u64, b: u64, c: u64)
    ensures
        a.wrapping_mul(b).wrapping_add(c) == wrap64(a * b + c),
{
    lemma_mul_wraps64(a, b);
    lemma_reduce_then_add64(a * b, c as int);
}

/// Two wrapping sums in a row are `a + b + c` modulo 2^64.
pub proof fn lemma_add_add_wraps64(a: u64, b: u64, c: u64)
    ensures
        a.wrapping_add(b).wrapping_add(c) == wrap64(a + b + c),
{
}

/// A wrapping difference is the difference reduced modulo 2^64.
pub proof fn lemma_sub_wraps64(a: u64, b: u64)
    ensures
        a.wrapping_sub(b) == wrap64(a - b),
{
}

/// A wrapping product is the product reduced modulo 2^128.
pub proof fn lemma_mul_wraps128(a: u128, b: u128)
    ensures
        a.wrapping_mul(b) == wrap128(a * b),
{
}

/// Reducing before or after adding a constant gives the same residue.
proof fn lemma_reduce_then_add128(p: int, c: int)
    ensures
        wrap128(wrap128(p) + c) == wrap128(p + c),
{
}

/// A wrapping product followed by a wrapping sum is `a * b + c` modulo 2^128.
pub proof fn lemma_mul_add_wraps128(a: u128, b: u128, c: u128)
    ensures
        a.wrapping_mul(b).wrapping_add(c) == wrap128(a * b + c),
{
    lemma_mul_wraps128(a, b);
    lemma_reduce_then_add128(a * b, c as int);
}

} // verus!
