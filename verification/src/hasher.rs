//! The hasher: construct, absorb, finalize, reset.
//!
//! Taking the digest twice gives the same bytes, and absorbing after the
//! digest has been taken starts a new message, as if the hasher had been
//! reset first.

use vstd::prelude::*;
use vstd::arithmetic::div_mod::lemma_mod_bound;
use crate::digest_size::DigestSize;
use crate::permutation::permute_core;
use crate::state::{
    absorb, absorb_base, be_byte_128, bit_count, chunk_count, counter_plus, digest_of,
    final_words, finalized_state, initial_state, initial_words, iv_base, iv_extension,
    iv_extension_len, pad_zeros, padded, reset_state, run_rounds, squeeze, well_sized,
    xor_chunks,
    HashState, Phase, FINAL_ROUNDS, IV_FILL, PAD_BYTE,
};
use crate::laws::{lemma_run_rounds_len, lemma_xor_chunks_len};
use crate::utils::to_u64;

verus! {

/// A hasher of one digest size, with an optional key.
#[derive(Debug)]
pub struct BlueHashCore {
    state: Vec<u64>,
    round_count: usize,
    digest_size: DigestSize,
    total_len: u128,
    key: Option<u64>,
    phase: Phase,
}

impl View for BlueHashCore {
    type V = HashState;

    closed spec fn view(&self) -> HashState {
        HashState {
            words: self.state@,
            size: self.digest_size,
            total_len: self.total_len,
            key: self.key,
            phase: self.phase,
        }
    }
}

impl Clone for BlueHashCore {
    fn clone(&self) -> (copy: Self)
        ensures
            copy@ == self@,
    {
        proof {
            use_type_invariant(self);
        }
        let state = self.state.clone();
        proof {
            assert(state@ =~= self.state@);
        }
        BlueHashCore {
            state,
            round_count: self.round_count,
            digest_size: self.digest_size,
            total_len: self.total_len,
            key: self.key,
            phase: self.phase,
        }
    }
}

impl BlueHashCore {
    /// The word array has the size's number of words, and the round count
    /// is the size's.
    #[verifier::type_invariant]
    spec fn well_formed(&self) -> bool {
        &&& self.state@.len() == self.digest_size.words()
        &&& self.round_count == self.digest_size.rounds()
    }

    /// The fixed initial word array of a digest size.
    pub fn fixed_iv(digest_size: DigestSize) -> (iv: Vec<u64>)
        ensures
            iv@ == initial_words(digest_size),
    {
        let mut iv: Vec<u64> = vec![
            0x0123456789ABCDEF,
            0x23456789ABCDEF01,
            0x456789ABCDEF0123,
            0x6789ABCDEF012345,
            0x89ABCDEF01234567,
            0xABCDEF0123456789,
            0xCDEF0123456789AB,
            0xEF0123456789ABCD,
            0x13579BDF02468ACE,
            0x2468ACE13579BDF0,
            0x3579BDF02468ACE1,
            0x468ACE13579BDF02,
            0x579BDF02468ACE13,
            0x68ACE13579BDF24,
            0x79BDF02468ACE35,
            0x8ACE13579BDF468,
            0x9BDF02468ACE579,
            0xACE13579BDF68AC,
            0xBDF02468ACE79BD,
            0xCE13579BDF8ACE0,
            0xDF02468ACE9BDF1,
            0xE13579BDFACE135,
            0xF02468ACEBDF024,
            0x0123456789ABCDEF,
            0x89ABCDEF01234567,
        ];
        let extension: Vec<u64> = vec![
            0x23456789ABCDEF01,
            0x456789ABCDEF0123,
            0x6789ABCDEF012345,
            0x89ABCDEF01234567,
            0xABCDEF0123456789,
            0xCDEF0123456789AB,
            0xEF0123456789ABCD,
            0x13579BDF02468ACE,
            0x2468ACE13579BDF0,
            0x3579BDF02468ACE1,
            0x468ACE13579BDF02,
            0x579BDF02468ACE13,
            0x68ACE13579BDF24,
            0x79BDF02468ACE35,
        ];
        proof {
            assert(iv@ =~= iv_base());
            assert(extension@ =~= iv_extension());
        }
        let taken: usize = match digest_size {
            DigestSize::Bit128 => 0,
            DigestSize::Bit256 => 7,
            DigestSize::Bit512 => 14,
        };
        iv.extend_from_slice(vstd::slice::slice_subrange(extension.as_slice(), 0, taken));
        let ghost listed = iv@;
        proof {
            assert(listed =~= iv_base() + iv_extension().take(iv_extension_len(digest_size) as int));
        }
        iv.resize(digest_size.state_size(), IV_FILL);
        proof {
            assert(iv@.len() == digest_size.words());
            assert forall|i: int| 0 <= i < iv@.len() implies iv@[i] == initial_words(digest_size)[i] by {
                if i < listed.len() {
                    assert(iv@.subrange(0, listed.len() as int)[i] == listed[i]);
                }
            }
            assert(iv@ =~= initial_words(digest_size));
        }
        iv
    }

    /// A fresh hasher of the given size, without a key.
    pub fn new(digest_size: DigestSize) -> (h: Self)
        ensures
            h@ == initial_state(digest_size, None),
    {
        let state = Self::fixed_iv(digest_size);
        BlueHashCore {
            state,
            round_count: digest_size.round_count(),
            digest_size,
            total_len: 0,
            key: None,
            phase: Phase::Fresh,
        }
    }

    /// A fresh hasher of the given size whose noise is seeded with `key`.
    pub fn new_keyed(digest_size: DigestSize, key: u64) -> (h: Self)
        ensures
            h@ == initial_state(digest_size, Some(key)),
    {
        let state = Self::fixed_iv(digest_size);
        BlueHashCore {
            state,
            round_count: digest_size.round_count(),
            digest_size,
            total_len: 0,
            key: Some(key),
            phase: Phase::Fresh,
        }
    }

    /// The phase that this hasher is in.
    pub fn phase(&self) -> (phase: Phase)
        ensures
            phase == self@.phase,
    {
        self.phase
    }

    /// The count of bytes absorbed since construction or the last reset,
    /// modulo 2^128.
    pub fn total_len(&self) -> (len: u128)
        ensures
            len == self@.total_len,
    {
        self.total_len
    }

    /// The size that this hasher was made for. Every hasher has the word
    /// count of its size.
    pub fn digest_size(&self) -> (size: DigestSize)
        ensures
            size == self@.size,
            well_sized(self@),
    {
        proof {
            use_type_invariant(self);
        }
        self.digest_size
    }

    /// Pads `data`: the padding byte, zero bytes up to a block boundary, then
    /// the count of absorbed bits as a 16-byte big-endian field.
    pub fn pad(&self, data: &[u8]) -> (out: Vec<u8>)
        ensures
            out@ == padded(data@, self@.total_len),
    {
        let mut out: Vec<u8> = Vec::new();
        let mut i: usize = 0;
        while i < data.len()
            invariant
                i <= data.len(),
                out@ == data@.subrange(0, i as int),
            decreases data.len() - i,
        {
            out.push(data[i]);
            proof {
                assert(out@ =~= data@.subrange(0, i + 1));
            }
            i += 1;
        }
        out.push(PAD_BYTE);
        let zeros: usize = 7 - data.len() % 8;
        let mut z: usize = 0;
        while z < zeros
            invariant
                z <= zeros,
                out@ =~= data@ + seq![PAD_BYTE] + Seq::new(z as nat, |i: int| 0u8),
            decreases zeros - z,
        {
            out.push(0);
            z += 1;
        }
        let bits: u128 = self.total_len.wrapping_mul(8);
        assert(bits == bit_count(self.total_len));
        let mut k: usize = 0;
        while k < 16
            invariant
                k <= 16,
                zeros == pad_zeros(data@.len()),
                bits == bit_count(self.total_len),
                out@ =~= data@ + seq![PAD_BYTE] + Seq::new(zeros as nat, |i: int| 0u8) + Seq::new(
                    k as nat,
                    |j: int| be_byte_128(bits, j),
                ),
            decreases 16 - k,
        {
            let shift: u128 = 8 * (15 - k as u128);
            out.push((bits >> shift) as u8);
            k += 1;
        }
        out
    }

    /// Mixes the length into the state and runs the final rounds, seeded by
    /// the padded `extra_data`.
    fn final_mix(&mut self, extra_data: &[u8])
        ensures
            final(self)@ == (HashState {
                words: final_words(old(self)@, extra_data@),
                size: old(self)@.size,
                total_len: old(self)@.total_len,
                key: old(self)@.key,
                phase: old(self)@.phase,
            }),
    {
        proof {
            use_type_invariant(&*self);
        }
        let n: usize = self.digest_size.state_size();
        let bits: u128 = self.total_len.wrapping_mul(8);
        assert(bits == bit_count(self.total_len));
        let first: u64 = self.state[0];
        self.state[0] = (first ^ (#[verifier::truncate] (bits as u64))) ^ (PAD_BYTE as u64);
        let tail = self.pad(extra_data);
        let ghost mixed = self.state@;
        let mut done: usize = 0;
        while done < FINAL_ROUNDS
            invariant
                done <= FINAL_ROUNDS,
                n == self.digest_size.words(),
                self.round_count == self.digest_size.rounds(),
                self.digest_size == old(self).digest_size,
                self.total_len == old(self).total_len,
                self.key == old(self).key,
                self.phase == old(self).phase,
                tail@ == padded(extra_data@, self.total_len),
                mixed.len() == n,
                self.state@ == run_rounds(
                    mixed,
                    tail@,
                    self.digest_size,
                    self.key,
                    self.digest_size.rounds(),
                    done as nat,
                ),
            decreases FINAL_ROUNDS - done,
        {
            proof {
                lemma_run_rounds_len(mixed, tail@, self.digest_size, self.key, self.digest_size.rounds(), done as nat);
            }
            let round: usize = self.round_count + done;
            let ghost before = self.state@;
            self.state = permute_core(self.state.as_slice(), tail.as_slice(), round, n, self.digest_size, self.key);
            proof {
                assert(before.take(n as int) =~= before);
            }
            done += 1;
        }
    }

    /// Puts the hasher back into the fresh state of its size and key.
    fn restart(&mut self)
        ensures
            final(self)@ == initial_state(old(self)@.size, old(self)@.key),
    {
        proof {
            use_type_invariant(&*self);
        }
        self.state = Self::fixed_iv(self.digest_size);
        self.total_len = 0;
        self.phase = Phase::Fresh;
    }
}

/// The hashing interface.
pub trait Digest {
    /// Takes `data` into the state.
    fn update(&mut self, data: &[u8]);

    /// Returns the digest of what has been taken in.
    fn finalize(&mut self) -> Vec<u8>;

    /// Puts the hasher back into its initial state.
    fn reset(&mut self);
}

impl Digest for BlueHashCore {
    /// Absorbs `data`: each block of up to eight bytes, read big-endian, is
    /// xored into the word of its index modulo the state size; then the
    /// size's number of rounds runs, with constants for `data`. After the
    /// digest has been taken, this starts a new message.
    fn update(&mut self, data: &[u8])
        ensures
            final(self)@ == absorb(old(self)@, data@),
            well_sized(final(self)@),
    {
        proof {
            use_type_invariant(&*self);
        }
        if self.phase == Phase::Finalized {
            self.restart();
        }
        proof {
            use_type_invariant(&*self);
        }
        let ghost base = self@;
        assert(base == absorb_base(old(self)@));
        self.phase = Phase::Absorbing;
        self.total_len = self.total_len.wrapping_add(data.len() as u128);
        assert(self.total_len == counter_plus(base.total_len, data@.len()));
        let n: usize = self.digest_size.state_size();
        let chunks: usize = data.len() / 8 + if data.len() % 8 == 0 {
            0
        } else {
            1
        };
        assert(chunks == chunk_count(data@.len()));
        let mut j: usize = 0;
        while j < chunks
            invariant
                j <= chunks,
                chunks == chunk_count(data@.len()),
                n == self.digest_size.words(),
                n == base.words.len(),
                self.round_count == self.digest_size.rounds(),
                self.digest_size == base.size,
                self.key == base.key,
                self.phase == Phase::Absorbing,
                self.total_len == counter_plus(base.total_len, data@.len()),
                self.state@ == xor_chunks(base.words, data@, j as nat),
            decreases chunks - j,
        {
            proof {
                lemma_xor_chunks_len(base.words, data@, j as nat);
                lemma_mod_bound(j as int, n as int);
            }
            let total: usize = data.len();
            assert(8 * j < total);
            let start: usize = j * 8;
            let end: usize = if total - start >= 8 {
                start + 8
            } else {
                total
            };
            let block: u64 = to_u64(vstd::slice::slice_subrange(data, start, end));
            let at: usize = j % n;
            let word: u64 = self.state[at];
            self.state[at] = word ^ block;
            j += 1;
        }
        let ghost taken = self.state@;
        proof {
            lemma_xor_chunks_len(base.words, data@, chunks as nat);
        }
        let mut round: usize = 0;
        while round < self.round_count
            invariant
                round <= self.round_count,
                n == self.digest_size.words(),
                taken.len() == n,
                self.round_count == self.digest_size.rounds(),
                self.digest_size == base.size,
                self.key == base.key,
                self.phase == Phase::Absorbing,
                self.total_len == counter_plus(base.total_len, data@.len()),
                self.state@ == run_rounds(taken, data@, self.digest_size, self.key, 0, round as nat),
            decreases self.round_count - round,
        {
            proof {
                lemma_run_rounds_len(taken, data@, self.digest_size, self.key, 0, round as nat);
            }
            let ghost before = self.state@;
            self.state = permute_core(self.state.as_slice(), data, round, n, self.digest_size, self.key);
            proof {
                assert(before.take(n as int) =~= before);
            }
            round += 1;
        }
        proof {
            use_type_invariant(&*self);
        }
    }

    /// Takes the digest: mixes the length in, runs the final rounds, and
    /// squeezes the size's number of bytes from the words, big-endian, in
    /// index order. A second call returns the same bytes.
    fn finalize(&mut self) -> (digest: Vec<u8>)
        ensures
            final(self)@ == finalized_state(old(self)@),
            digest@ == digest_of(old(self)@),
            digest@.len() == old(self)@.size.length(),
            well_sized(final(self)@),
    {
        if self.phase != Phase::Finalized {
            let tail: Vec<u8> = Vec::new();
            self.final_mix(tail.as_slice());
            proof {
                use_type_invariant(&*self);
            }
            self.phase = Phase::Finalized;
        }
        proof {
            use_type_invariant(&*self);
        }
        let len: usize = self.digest_size.digest_length();
        let n: usize = self.digest_size.state_size();
        let mut digest: Vec<u8> = Vec::new();
        let mut offset: usize = 0;
        while offset < len
            invariant
                offset <= len,
                n == self.state@.len(),
                n > 0,
                digest@ == squeeze(self.state@, offset as nat),
            decreases len - offset,
        {
            proof {
                lemma_mod_bound(offset as int / 8, n as int);
            }
            let word: u64 = self.state[(offset / 8) % n];
            let shift: u64 = 8 * (7 - (offset % 8) as u64);
            digest.push(#[verifier::truncate] ((word >> shift) as u8));
            proof {
                assert(digest@ =~= squeeze(self.state@, (offset + 1) as nat));
            }
            offset += 1;
        }
        digest
    }

    /// Restores the initial words of the size and zeroes the counter.
    fn reset(&mut self)
        ensures
            final(self)@ == reset_state(old(self)@),
            well_sized(final(self)@),
    {
        self.restart();
    }
}

} // verus!
