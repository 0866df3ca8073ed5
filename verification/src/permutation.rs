//! The permutation: one add-rotate-xor round over the whole word array, every
//! new word computed from the frozen words of the round before.

use vstd::prelude::*;
use vstd::arithmetic::div_mod::{lemma_mod_add_multiples_vanish, lemma_small_mod};
use rayon::iter::{IntoParallelIterator, ParallelIterator};
use crate::bits::{rotate_left, rotate_right, rotl64, rotr64, wadd, wrapping_sum};
use crate::constants::{generate_constants, round_constant};
use crate::digest_size::DigestSize;

verus! {

/// Word `i` of the next round, from the words `old` of the round before and
/// the round's constant:
/// `rotl(rotl(old[i] + constant + old[i+3], 29) + (old[i+1] & old[i+2]) + rotr(old[i+4], 17), 23)`,
/// indices modulo the number of words, sums modulo 2^64.
pub open spec fn next_word(old_words: Seq<u64>, constant: u64, i: int) -> u64
    recommends
        0 <= i < old_words.len(),
{
    let n = old_words.len() as int;
    let a = old_words[i];
    let b = old_words[(i + 1) % n];
    let c = old_words[(i + 2) % n];
    let d = old_words[(i + 3) % n];
    let e = old_words[(i + 4) % n];
    rotl64(wadd(wadd(rotl64(wadd(wadd(a, constant), d), 29), b & c), rotr64(e, 17)), 23)
}

/// The word array after one round with `constant`.
pub open spec fn next_words(old_words: Seq<u64>, constant: u64) -> Seq<u64> {
    Seq::new(old_words.len(), |i: int| next_word(old_words, constant, i))
}

/// The index `k` places after `i` on a ring of `n` places.
fn ring_index(i: usize, k: usize, n: usize) -> (r: usize)
    requires
        i < n,
    ensures
        r == (i + k) % (n as int),
{
    let room: usize = n - i;
    if k < room {
        proof {
            lemma_small_mod((i + k) as nat, n as nat);
        }
        i + k
    } else {
        proof {
            lemma_mod_add_multiples_vanish((k - room) as int, n as int);
        }
        (k - room) % n
    }
}

/// Computes word `i` of the next round from the first `n` words of `state`.
pub fn mix_word(state: &[u64], n: usize, constant: u64, i: usize) -> (r: u64)
    requires
        i < n <= state.len(),
    ensures
        r == next_word(state@.take(n as int), constant, i as int),
{
    let a: u64 = state[i];
    let b: u64 = state[ring_index(i, 1, n)];
    let c: u64 = state[ring_index(i, 2, n)];
    let d: u64 = state[ring_index(i, 3, n)];
    let e: u64 = state[ring_index(i, 4, n)];
    let inner: u64 = rotate_left(wrapping_sum(wrapping_sum(a, constant), d), 29);
    rotate_left(wrapping_sum(wrapping_sum(inner, b & c), rotate_right(e, 17)), 23)
}

/// Computes all words of the next round on rayon's worker pool: the range
/// `0..n` is turned into a parallel iterator (`into_par_iter`), each index is
/// mapped through `mix_word` (`map`), and the results are gathered into a
/// vector (`collect`). The frozen `state` is only read, and each result goes
/// to a buffer of its own.
///
/// This contract is believed of rayon, not proved: collecting an indexed
/// parallel iterator into a `Vec` yields as many items as the range has
/// indices, in the order of the indices, so element `i` is what `mix_word`
/// returns for `i`. That rayon can start its pool of worker threads on first
/// use is taken for granted.
#[verifier::external_body]
fn mix_all_words(state: &[u64], n: usize, constant: u64) -> (out: Vec<u64>)
    requires
        n <= state.len(),
    ensures
        out@.len() == n,
        forall|i: int| 0 <= i < n ==> out@[i] == next_word(state@.take(n as int), constant, i),
{
    (0..n).into_par_iter().map(|i| mix_word(state, n, constant, i)).collect()
}

/// One round of the permutation on the first `state_size` words of `state`,
/// with the constant of `round` for `input_data`.
pub fn permute_core(
    state: &[u64],
    input_data: &[u8],
    round: usize,
    state_size: usize,
    digest_size: DigestSize,
    key: Option<u64>,
) -> (out: Vec<u64>)
    requires
        state_size <= state.len(),
    ensures
        out@ == next_words(
            state@.take(state_size as int),
            round_constant(round, input_data@, digest_size.length() as usize, key),
        ),
{
    let constant: u64 = generate_constants(round, input_data, digest_size.digest_length(), key);
    let out = mix_all_words(state, state_size, constant);
    proof {
        assert(out@ =~= next_words(state@.take(state_size as int), constant));
    }
    out
}

} // verus!
