//! Word-level building blocks: rotations, wrapping sums and big-endian bytes.

use vstd::prelude::*;

verus! {

/// `x` rotated left by `n` bit positions: the bits shifted out at the top come
/// back in at the bottom. Only `n` modulo 64 matters.
pub open spec fn rotl64(x: u64, n: u32) -> u64 {
    let k = n % 64;
    if k == 0 {
        x
    } else {
        (x << k) | (x >> ((64 - k) as u32))
    }
}

/// `x` rotated right by `n` bit positions. Only `n` modulo 64 matters.
pub open spec fn rotr64(x: u64, n: u32) -> u64 {
    let k = n % 64;
    if k == 0 {
        x
    } else {
        (x >> k) | (x << ((64 - k) as u32))
    }
}

/// The sum of `a` and `b` modulo 2^64.
pub open spec fn wadd(a: u64, b: u64) -> u64 {
    ((a as int + b as int) % 0x1_0000_0000_0000_0000) as u64
}

/// The product of `a` and `b` modulo 2^64.
pub open spec fn wmul(a: u64, b: u64) -> u64 {
    ((a as int * b as int) % 0x1_0000_0000_0000_0000) as u64
}

/// Byte `k` (0 is the most significant) of the big-endian form of `w`.
pub open spec fn be_byte(w: u64, k: int) -> u8 {
    (w >> ((8 * (7 - k)) as u64)) as u8
}

/// Rotates `x` left by `n` bits.
pub fn rotate_left(x: u64, n: u32) -> (r: u64)
    ensures
        r == rotl64(x, n),
{
    let k: u32 = n % 64;
    if k == 0 {
        x
    } else {
        (x << k) | (x >> (64 - k))
    }
}

/// Rotates `x` right by `n` bits.
pub fn rotate_right(x: u64, n: u32) -> (r: u64)
    ensures
        r == rotr64(x, n),
{
    let k: u32 = n % 64;
    if k == 0 {
        x
    } else {
        (x >> k) | (x << (64 - k))
    }
}

/// Adds modulo 2^64.
pub fn wrapping_sum(a: u64, b: u64) -> (r: u64)
    ensures
        r == wadd(a, b),
{
    a.wrapping_add(b)
}

/// Multiplies modulo 2^64.
pub fn wrapping_product(a: u64, b: u64) -> (r: u64)
    ensures
        r == wmul(a, b),
{
    a.wrapping_mul(b)
}

} // verus!
