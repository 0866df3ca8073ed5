//! The noise function: a 64-bit perturbation mixed from the input bytes, the
//! round index and a seed. It is a mixing ingredient, not a random generator:
//! the same arguments always give the same word.

use vstd::prelude::*;
use crate::bits::{rotate_left, rotl64, wadd, wmul, wrapping_product, wrapping_sum};

verus! {

/// The accumulator after the bytes of `input` have been taken in, starting
/// from `seed`: the byte at index `i` is multiplied by `i + 1`, added, and the
/// accumulator is rotated left by 7.
pub open spec fn noise_fold(seed: u64, input: Seq<u8>) -> u64
    decreases input.len(),
{
    if input.len() == 0 {
        seed
    } else {
        rotl64(
            wadd(noise_fold(seed, input.drop_last()), wmul(input.last() as u64, input.len() as u64)),
            7,
        )
    }
}

/// The seed of the accumulator: the key where there is one, else the prime.
pub open spec fn noise_seed(prime: u64, key: Option<u64>) -> u64 {
    match key {
        Some(k) => k,
        None => prime,
    }
}

/// The noise word of `input` at `round`: the folded accumulator, xor the
/// round, rotated left by the round modulo 64.
pub open spec fn lwe_noise(input: Seq<u8>, round: usize, prime: u64, key: Option<u64>) -> u64 {
    rotl64(noise_fold(noise_seed(prime, key), input) ^ (round as u64), (round % 64) as u32)
}

/// Computes the noise word of `input_data` at `round`, seeded with `key` or,
/// without a key, with `prime`.
pub fn generate_lwe_noise(input_data: &[u8], round: usize, prime: u64, key: Option<u64>) -> (r: u64)
    ensures
        r == lwe_noise(input_data@, round, prime, key),
{
    let mut acc: u64 = match key {
        Some(k) => k,
        None => prime,
    };
    let mut i: usize = 0;
    while i < input_data.len()
        invariant
            i <= input_data.len(),
            acc == noise_fold(noise_seed(prime, key), input_data@.subrange(0, i as int)),
        decreases input_data.len() - i,
    {
        proof {
            assert(input_data@.subrange(0, i + 1).drop_last() =~= input_data@.subrange(0, i as int));
        }
        let weight: u64 = (i + 1) as u64;
        acc = rotate_left(wrapping_sum(acc, wrapping_product(input_data[i] as u64, weight)), 7);
        i += 1;
    }
    proof {
        assert(input_data@.subrange(0, i as int) =~= input_data@);
    }
    rotate_left(acc ^ (round as u64), (round % 64) as u32)
}

} // verus!
