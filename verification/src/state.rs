//! The mathematical model of a hasher: what its word array, counter and
//! phase are after construction, absorption, finalization and reset.

use vstd::prelude::*;
use crate::bits::be_byte;
use crate::constants::round_constant;
use crate::digest_size::DigestSize;
use crate::permutation::next_words;
use crate::utils::be_word;

verus! {

/// The word that fills an initial state beyond its listed words.
pub const IV_FILL: u64 = 0x0123456789ABCDEF;

/// The padding byte that follows the data.
pub const PAD_BYTE: u8 = 0x80;

/// The number of rounds that finalization adds after the length is mixed in.
pub const FINAL_ROUNDS: usize = 4;

/// The 25 words that every initial state starts with.
pub open spec fn iv_base() -> Seq<u64> {
    seq![
        0x0123456789ABCDEFu64,
        0x23456789ABCDEF01u64,
        0x456789ABCDEF0123u64,
        0x6789ABCDEF012345u64,
        0x89ABCDEF01234567u64,
        0xABCDEF0123456789u64,
        0xCDEF0123456789ABu64,
        0xEF0123456789ABCDu64,
        0x13579BDF02468ACEu64,
        0x2468ACE13579BDF0u64,
        0x3579BDF02468ACE1u64,
        0x468ACE13579BDF02u64,
        0x579BDF02468ACE13u64,
        0x68ACE13579BDF24u64,
        0x79BDF02468ACE35u64,
        0x8ACE13579BDF468u64,
        0x9BDF02468ACE579u64,
        0xACE13579BDF68ACu64,
        0xBDF02468ACE79BDu64,
        0xCE13579BDF8ACE0u64,
        0xDF02468ACE9BDF1u64,
        0xE13579BDFACE135u64,
        0xF02468ACEBDF024u64,
        0x0123456789ABCDEFu64,
        0x89ABCDEF01234567u64,
    ]
}

/// The words that the wider states add after the first 25: the 256-bit state
/// takes the first 7 of them, the 512-bit state all 14.
pub open spec fn iv_extension() -> Seq<u64> {
    seq![
        0x23456789ABCDEF01u64,
        0x456789ABCDEF0123u64,
        0x6789ABCDEF012345u64,
        0x89ABCDEF01234567u64,
        0xABCDEF0123456789u64,
        0xCDEF0123456789ABu64,
        0xEF0123456789ABCDu64,
        0x13579BDF02468ACEu64,
        0x2468ACE13579BDF0u64,
        0x3579BDF02468ACE1u64,
        0x468ACE13579BDF02u64,
        0x579BDF02468ACE13u64,
        0x68ACE13579BDF24u64,
        0x79BDF02468ACE35u64,
    ]
}

/// How many words of the extension a size takes.
pub open spec fn iv_extension_len(size: DigestSize) -> nat {
    match size {
        DigestSize::Bit128 => 0,
        DigestSize::Bit256 => 7,
        DigestSize::Bit512 => 14,
    }
}

/// The initial word array of a size: the base words, then its share of the
/// extension, then the fill word up to the size's number of words.
pub open spec fn initial_words(size: DigestSize) -> Seq<u64> {
    let listed = iv_base() + iv_extension().take(iv_extension_len(size) as int);
    Seq::new(size.words(), |i: int| if i < listed.len() { listed[i] } else { IV_FILL })
}

/// The phase of a hasher. Construction and reset lead to `Fresh`, every
/// absorption to `Absorbing`, finalization to `Finalized`.
#[derive(Debug, Copy, Clone, PartialEq, Eq, Structural)]
pub enum Phase {
    Fresh,
    Absorbing,
    Finalized,
}

/// What a hasher is: its words, its size, the count of bytes absorbed since
/// the last reset, its key, and its phase.
pub struct HashState {
    pub words: Seq<u64>,
    pub size: DigestSize,
    pub total_len: u128,
    pub key: Option<u64>,
    pub phase: Phase,
}

/// The fresh state of a size and key.
pub open spec fn initial_state(size: DigestSize, key: Option<u64>) -> HashState {
    HashState { words: initial_words(size), size, total_len: 0, key, phase: Phase::Fresh }
}

/// The state after a reset: the fresh state of the same size and key.
pub open spec fn reset_state(s: HashState) -> HashState {
    initial_state(s.size, s.key)
}

/// The word array has the size's number of words.
pub open spec fn well_sized(s: HashState) -> bool {
    s.words.len() == s.size.words()
}

/// The number of blocks of up to eight bytes that `len` bytes split into.
pub open spec fn chunk_count(len: nat) -> nat {
    (len + 7) / 8
}

/// Block `j` of `data`: eight bytes from offset `8 * j`, or what is left of
/// `data` there.
pub open spec fn chunk_at(data: Seq<u8>, j: int) -> Seq<u8> {
    data.subrange(8 * j, if 8 * j + 8 <= data.len() { 8 * j + 8 } else { data.len() as int })
}

/// The words after the first `k` blocks of `data` have been taken in: block
/// `j`, read as a big-endian word, is xored into word `j mod N`.
pub open spec fn xor_chunks(words: Seq<u64>, data: Seq<u8>, k: nat) -> Seq<u64>
    decreases k,
{
    if k == 0 {
        words
    } else {
        let before = xor_chunks(words, data, (k - 1) as nat);
        let at = (k - 1) % (words.len() as int);
        before.update(at, before[at] ^ be_word(chunk_at(data, k - 1)))
    }
}

/// The words after the rounds `first`, `first + 1`, .. (`count` of them), each
/// with its own constant for the bytes `seed`.
pub open spec fn run_rounds(
    words: Seq<u64>,
    seed: Seq<u8>,
    size: DigestSize,
    key: Option<u64>,
    first: nat,
    count: nat,
) -> Seq<u64>
    decreases count,
{
    if count == 0 {
        words
    } else {
        next_words(
            run_rounds(words, seed, size, key, first, (count - 1) as nat),
            round_constant((first + count - 1) as usize, seed, size.length() as usize, key),
        )
    }
}

/// The sum of the counter and a length, modulo 2^128.
pub open spec fn counter_plus(total_len: u128, len: nat) -> u128 {
    ((total_len as int + len as int) % (u128::MAX as int + 1)) as u128
}

/// The counter in bits, modulo 2^128.
pub open spec fn bit_count(total_len: u128) -> u128 {
    ((total_len as int * 8) % (u128::MAX as int + 1)) as u128
}

/// The state that an absorption starts from: a state whose digest has been
/// taken starts over, as if reset.
pub open spec fn absorb_base(s: HashState) -> HashState {
    if s.phase == Phase::Finalized {
        initial_state(s.size, s.key)
    } else {
        s
    }
}

/// The state after `data` has been absorbed: its blocks are xored into the
/// words, the size's number of rounds runs with constants for `data`, and the
/// counter grows by the length of `data`.
pub open spec fn absorb(s: HashState, data: Seq<u8>) -> HashState {
    let base = absorb_base(s);
    HashState {
        words: run_rounds(
            xor_chunks(base.words, data, chunk_count(data.len())),
            data,
            base.size,
            base.key,
            0,
            base.size.rounds(),
        ),
        size: base.size,
        total_len: counter_plus(base.total_len, data.len()),
        key: base.key,
        phase: Phase::Absorbing,
    }
}

/// Byte `k` (0 is the most significant) of the 16-byte big-endian form of `v`.
pub open spec fn be_byte_128(v: u128, k: int) -> u8 {
    (v >> ((8 * (15 - k)) as u128)) as u8
}

/// The number of zero bytes between the padding byte and the length field.
pub open spec fn pad_zeros(len: nat) -> nat {
    (7 - len % 8) as nat
}

/// `data` padded: the padding byte, zero bytes up to a block boundary, and
/// the bit count as a 16-byte big-endian field.
pub open spec fn padded(data: Seq<u8>, total_len: u128) -> Seq<u8> {
    data + seq![PAD_BYTE] + Seq::new(pad_zeros(data.len()), |i: int| 0u8) + Seq::new(
        16,
        |k: int| be_byte_128(bit_count(total_len), k),
    )
}

/// The words after the final mixing: the low 64 bits of the bit count and
/// the padding byte are xored into word 0, then four more rounds run,
/// numbered on from the absorption rounds, with constants for the padded
/// `tail`.
pub open spec fn final_words(s: HashState, tail: Seq<u8>) -> Seq<u64> {
    let mixed = s.words.update(0, (s.words[0] ^ (bit_count(s.total_len) as u64)) ^ (PAD_BYTE as u64));
    run_rounds(mixed, padded(tail, s.total_len), s.size, s.key, s.size.rounds(), FINAL_ROUNDS as nat)
}

/// The state after finalization, which mixes with an empty tail. A state
/// whose digest has been taken stays as it is.
pub open spec fn finalized_state(s: HashState) -> HashState {
    if s.phase == Phase::Finalized {
        s
    } else {
        HashState {
            words: final_words(s, Seq::empty()),
            size: s.size,
            total_len: s.total_len,
            key: s.key,
            phase: Phase::Finalized,
        }
    }
}

/// The first `len` bytes squeezed from `words`: byte `o` is byte `o mod 8` of
/// the big-endian form of word `(o / 8) mod N`.
pub open spec fn squeeze(words: Seq<u64>, len: nat) -> Seq<u8> {
    Seq::new(len, |o: int| be_byte(words[(o / 8) % (words.len() as int)], o % 8))
}

/// The digest that finalization returns from state `s`.
pub open spec fn digest_of(s: HashState) -> Seq<u8> {
    squeeze(finalized_state(s).words, s.size.length())
}

/// The digest of the message `m` for a size and key: construct, absorb `m`
/// in one call, finalize.
pub open spec fn message_digest(size: DigestSize, key: Option<u64>, m: Seq<u8>) -> Seq<u8> {
    digest_of(absorb(initial_state(size, key), m))
}

} // verus!
