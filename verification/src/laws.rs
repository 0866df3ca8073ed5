//! What holds of the hasher in every state: the laws that relate
//! construction, absorption, finalization and reset.

use vstd::prelude::*;
use vstd::arithmetic::div_mod::{lemma_mod_bound, lemma_small_mod};
use crate::bits::be_byte;
use crate::digest_size::DigestSize;
use crate::state::{
    absorb, absorb_base, be_byte_128, bit_count, chunk_count, digest_of, finalized_state,
    initial_state, message_digest, pad_zeros, padded, reset_state, run_rounds, well_sized,
    xor_chunks, HashState, Phase, FINAL_ROUNDS, PAD_BYTE,
};
use crate::utils::be_word;

verus! {

/// Rounds keep the number of words.
pub proof fn lemma_run_rounds_len(
    words: Seq<u64>,
    seed: Seq<u8>,
    size: DigestSize,
    key: Option<u64>,
    first: nat,
    count: nat,
)
    ensures
        run_rounds(words, seed, size, key, first, count).len() == words.len(),
    decreases count,
{
    if count > 0 {
        lemma_run_rounds_len(words, seed, size, key, first, (count - 1) as nat);
    }
}

/// Taking blocks in keeps the number of words.
pub proof fn lemma_xor_chunks_len(words: Seq<u64>, data: Seq<u8>, k: nat)
    requires
        words.len() > 0,
    ensures
        xor_chunks(words, data, k).len() == words.len(),
    decreases k,
{
    if k > 0 {
        lemma_xor_chunks_len(words, data, (k - 1) as nat);
        lemma_mod_bound(k - 1, words.len() as int);
    }
}

/// The phases follow one another as the hasher is used: absorbing leads to
/// `Absorbing` from every phase, finalizing to `Finalized`, a reset to
/// `Fresh`.
pub proof fn lemma_phase_transitions(s: HashState, data: Seq<u8>)
    ensures
        absorb(s, data).phase == Phase::Absorbing,
        finalized_state(s).phase == Phase::Finalized,
        reset_state(s).phase == Phase::Fresh,
{
}

/// Every fresh state has the word count of its size.
pub proof fn lemma_initial_state_well_sized(size: DigestSize, key: Option<u64>)
    ensures
        well_sized(initial_state(size, key)),
        initial_state(size, key).total_len == 0,
        initial_state(size, key).phase == Phase::Fresh,
{
}

/// The word array keeps its length: absorbing, finalizing and resetting a
/// state with the word count of its size give such a state again, of the same
/// size and key.
pub proof fn lemma_word_count_is_fixed(s: HashState, data: Seq<u8>)
    requires
        well_sized(s),
    ensures
        well_sized(absorb(s, data)),
        well_sized(finalized_state(s)),
        well_sized(reset_state(s)),
        absorb(s, data).size == s.size && absorb(s, data).key == s.key,
        finalized_state(s).size == s.size && finalized_state(s).key == s.key,
        reset_state(s).size == s.size && reset_state(s).key == s.key,
{
    let base = absorb_base(s);
    let taken = xor_chunks(base.words, data, chunk_count(data.len()));
    lemma_xor_chunks_len(base.words, data, chunk_count(data.len()));
    lemma_run_rounds_len(taken, data, base.size, base.key, 0, base.size.rounds());
    if s.phase != Phase::Finalized {
        let mixed = s.words.update(
            0,
            (s.words[0] ^ (bit_count(s.total_len) as u64)) ^ (PAD_BYTE as u64),
        );
        lemma_run_rounds_len(
            mixed,
            padded(Seq::empty(), s.total_len),
            s.size,
            s.key,
            s.size.rounds(),
            FINAL_ROUNDS as nat,
        );
    }
}

/// The counter grows by the length of what is absorbed, as long as it stays
/// below 2^128.
pub proof fn lemma_counter_grows(s: HashState, data: Seq<u8>)
    requires
        s.phase != Phase::Finalized,
        s.total_len + data.len() <= u128::MAX,
    ensures
        absorb(s, data).total_len == s.total_len + data.len(),
        absorb(s, data).total_len >= s.total_len,
{
}

/// Determinism: the digest is a function of the size, the key and the
/// message. Two hashers that were constructed alike and absorbed the same
/// message in one call are in the same state and give the same digest.
pub proof fn lemma_digest_is_deterministic(
    size: DigestSize,
    key: Option<u64>,
    m: Seq<u8>,
    first: HashState,
    second: HashState,
)
    requires
        first == absorb(initial_state(size, key), m),
        second == absorb(initial_state(size, key), m),
    ensures
        first == second,
        digest_of(first) == digest_of(second),
        digest_of(first) == message_digest(size, key, m),
{
}

/// Fixed length: the digest of every state has the length of its size, 16,
/// 32 or 64 bytes, whatever was absorbed.
pub proof fn lemma_digest_length(s: HashState)
    ensures
        digest_of(s).len() == s.size.length(),
        s.size == DigestSize::Bit128 ==> digest_of(s).len() == 16,
        s.size == DigestSize::Bit256 ==> digest_of(s).len() == 32,
        s.size == DigestSize::Bit512 ==> digest_of(s).len() == 64,
{
}

/// Fixed length, for messages: the digest of every message, the empty one
/// too, has the length of the size.
pub proof fn lemma_message_digest_length(size: DigestSize, key: Option<u64>, m: Seq<u8>)
    ensures
        message_digest(size, key, m).len() == size.length(),
{
}

/// Finalizing twice is finalizing once: the state stays and the digest is
/// the same.
pub proof fn lemma_finalize_is_idempotent(s: HashState)
    ensures
        finalized_state(finalized_state(s)) == finalized_state(s),
        digest_of(finalized_state(s)) == digest_of(s),
{
}

/// Absorbing after the digest has been taken starts a new message: the
/// result is that of absorbing into a fresh state.
pub proof fn lemma_absorb_after_finalize_starts_over(s: HashState, data: Seq<u8>)
    ensures
        absorb(finalized_state(s), data) == absorb(initial_state(s.size, s.key), data),
        digest_of(absorb(finalized_state(s), data)) == message_digest(s.size, s.key, data),
{
}

/// Reset: whatever state a hasher is in, after a reset it gives the digest
/// that a newly constructed hasher of the same size and key gives, and
/// absorbs as one.
pub proof fn lemma_reset_gives_fresh_digest(s: HashState, data: Seq<u8>)
    ensures
        reset_state(s) == initial_state(s.size, s.key),
        digest_of(reset_state(s)) == digest_of(initial_state(s.size, s.key)),
        digest_of(absorb(reset_state(s), data)) == message_digest(s.size, s.key, data),
        reset_state(reset_state(s)) == reset_state(s),
{
}

/// Padding keeps the data, marks its end, and fills up to a block boundary
/// with the fewest zero bytes: the padded length is a multiple of eight, and
/// the last 16 bytes hold the bit count.
pub proof fn lemma_padded_shape(data: Seq<u8>, total_len: u128)
    ensures
        padded(data, total_len).len() == data.len() + 1 + pad_zeros(data.len()) + 16,
        padded(data, total_len).len() % 8 == 0,
        pad_zeros(data.len()) < 8,
        padded(data, total_len).subrange(0, data.len() as int) == data,
        padded(data, total_len)[data.len() as int] == PAD_BYTE,
        forall|i: int|
            data.len() < i <= data.len() + pad_zeros(data.len()) ==> padded(data, total_len)[i] == 0,
        forall|k: int|
            0 <= k < 16 ==> padded(data, total_len)[data.len() + 1 + pad_zeros(data.len()) + k]
                == be_byte_128(bit_count(total_len), k),
{
    assert(padded(data, total_len).subrange(0, data.len() as int) =~= data);
}

/// The digest reads the words in index order, each once: for the three
/// sizes the state is wide enough that byte `o` of the digest is byte
/// `o mod 8` of word `o / 8`.
pub proof fn lemma_digest_reads_words_in_order(s: HashState, o: int)
    requires
        well_sized(s),
        0 <= o < s.size.length(),
    ensures
        digest_of(s)[o] == be_byte(finalized_state(s).words[o / 8], o % 8),
{
    lemma_word_count_is_fixed(s, Seq::empty());
    lemma_small_mod((o / 8) as nat, s.size.words());
}

/// Output and input agree on the byte order: the eight bytes that a word is
/// squeezed into, absorbed as one block, spell the same word.
pub proof fn lemma_big_endian_round_trip(w: u64)
    ensures
        be_word(Seq::new(8, |k: int| be_byte(w, k))) == w,
{
    let bytes = Seq::new(8, |k: int| be_byte(w, k));
    let b0 = be_byte(w, 0);
    let b1 = be_byte(w, 1);
    let b2 = be_byte(w, 2);
    let b3 = be_byte(w, 3);
    let b4 = be_byte(w, 4);
    let b5 = be_byte(w, 5);
    let b6 = be_byte(w, 6);
    let b7 = be_byte(w, 7);
    let s1 = seq![b0];
    let s2 = s1.push(b1);
    let s3 = s2.push(b2);
    let s4 = s3.push(b3);
    let s5 = s4.push(b4);
    let s6 = s5.push(b5);
    let s7 = s6.push(b6);
    let s8 = s7.push(b7);
    assert(s8 =~= bytes);
    assert(s1.drop_last() =~= Seq::<u8>::empty());
    assert(s2.drop_last() =~= s1);
    assert(s3.drop_last() =~= s2);
    assert(s4.drop_last() =~= s3);
    assert(s5.drop_last() =~= s4);
    assert(s6.drop_last() =~= s5);
    assert(s7.drop_last() =~= s6);
    assert(s8.drop_last() =~= s7);
    let w0: u64 = 0;
    let w1 = (w0 << 8) | (b0 as u64);
    let w2 = (w1 << 8) | (b1 as u64);
    let w3 = (w2 << 8) | (b2 as u64);
    let w4 = (w3 << 8) | (b3 as u64);
    let w5 = (w4 << 8) | (b4 as u64);
    let w6 = (w5 << 8) | (b5 as u64);
    let w7 = (w6 << 8) | (b6 as u64);
    let w8 = (w7 << 8) | (b7 as u64);
    assert(be_word(Seq::<u8>::empty()) == w0);
    assert(be_word(s1) == w1);
    assert(be_word(s2) == w2);
    assert(be_word(s3) == w3);
    assert(be_word(s4) == w4);
    assert(be_word(s5) == w5);
    assert(be_word(s6) == w6);
    assert(be_word(s7) == w7);
    assert(be_word(s8) == w8);
    assert(w8 == w) by (bit_vector)
        requires
            b0 == (w >> 56u64) as u8,
            b1 == (w >> 48u64) as u8,
            b2 == (w >> 40u64) as u8,
            b3 == (w >> 32u64) as u8,
            b4 == (w >> 24u64) as u8,
            b5 == (w >> 16u64) as u8,
            b6 == (w >> 8u64) as u8,
            b7 == (w >> 0u64) as u8,
            w1 == (0u64 << 8) | (b0 as u64),
            w2 == (w1 << 8) | (b1 as u64),
            w3 == (w2 << 8) | (b2 as u64),
            w4 == (w3 << 8) | (b3 as u64),
            w5 == (w4 << 8) | (b4 as u64),
            w6 == (w5 << 8) | (b5 as u64),
            w7 == (w6 << 8) | (b6 as u64),
            w8 == (w7 << 8) | (b7 as u64),
    ;
}

} // verus!
