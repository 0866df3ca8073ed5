//! Round constants: one 64-bit word per round, combined from fixed primes, a
//! round-dependent factor, the noise of the input and the hash length.

use vstd::prelude::*;
use crate::bits::{rotate_left, rotate_right, rotl64, rotr64, wadd, wmul, wrapping_product, wrapping_sum};
use crate::noise::{generate_lwe_noise, lwe_noise};

verus! {

/// The golden-ratio prime that is rotated by the round and seeds the noise.
pub const PRIME: u64 = 0x9E3779B97F4A7C15;

/// The base that the round index is added to.
pub const ROUND_BASE: u64 = 0xABCDEF1234567890;

/// The second prime, rotated by the round modulo 32.
pub const EXTRA_PRIME: u64 = 0x7FFFFFFFFFFFFFFF;

/// The constant of `round` for the bytes `input`:
/// `rotl(PRIME, round mod 64) * rotl(f, 32) + rotr(f, 16)
///  + rotl(EXTRA_PRIME, round mod 32) + rotl(noise, 8) + hash_length`,
/// where `f = round + ROUND_BASE` and every sum and product is modulo 2^64.
pub open spec fn round_constant(round: usize, input: Seq<u8>, hash_length: usize, key: Option<u64>) -> u64 {
    let round_factor = wadd(round as u64, ROUND_BASE);
    let rotated_prime = rotl64(PRIME, (round % 64) as u32);
    let extra = rotl64(EXTRA_PRIME, (round % 32) as u32);
    let noise = rotl64(lwe_noise(input, round, PRIME, key), 8);
    wadd(
        wadd(
            wadd(wadd(wmul(rotated_prime, rotl64(round_factor, 32)), rotr64(round_factor, 16)), extra),
            noise,
        ),
        hash_length as u64,
    )
}

/// Computes the constant of `round` for the bytes `input_data`, the hash
/// length and the optional key.
pub fn generate_constants(round: usize, input_data: &[u8], hash_length: usize, key: Option<u64>) -> (r: u64)
    ensures
        r == round_constant(round, input_data@, hash_length, key),
{
    let round_factor: u64 = wrapping_sum(round as u64, ROUND_BASE);
    let rotated_prime: u64 = rotate_left(PRIME, (round % 64) as u32);
    let factor_left: u64 = rotate_left(round_factor, 32);
    let factor_right: u64 = rotate_right(round_factor, 16);
    let extra: u64 = rotate_left(EXTRA_PRIME, (round % 32) as u32);
    let noise: u64 = rotate_left(generate_lwe_noise(input_data, round, PRIME, key), 8);
    let product: u64 = wrapping_product(rotated_prime, factor_left);
    let fixed: u64 = wrapping_sum(wrapping_sum(product, factor_right), extra);
    wrapping_sum(wrapping_sum(fixed, noise), hash_length as u64)
}

} // verus!
