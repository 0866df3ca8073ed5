//! Reading bytes as a big-endian word.

use vstd::prelude::*;

verus! {

/// The word that the bytes of `s` spell, most significant byte first. Each
/// further byte moves the word one byte to the left, so of more than eight
/// bytes only the last eight count.
pub open spec fn be_word(s: Seq<u8>) -> u64
    decreases s.len(),
{
    if s.len() == 0 {
        0
    } else {
        (be_word(s.drop_last()) << 8) | (s.last() as u64)
    }
}

/// The natural number that the bytes of `s` spell in base 256, most
/// significant byte first.
pub open spec fn be_nat(s: Seq<u8>) -> nat
    decreases s.len(),
{
    if s.len() == 0 {
        0
    } else {
        be_nat(s.drop_last()) * 256 + s.last() as nat
    }
}

/// The number 256^n.
pub open spec fn pow256(n: nat) -> nat
    decreases n,
{
    if n == 0 {
        1
    } else {
        256 * pow256((n - 1) as nat)
    }
}

/// Converts a slice of bytes into a 64-bit word, big-endian.
pub fn to_u64(chunk: &[u8]) -> (r: u64)
    ensures
        r == be_word(chunk@),
{
    let mut acc: u64 = 0;
    let mut i: usize = 0;
    while i < chunk.len()
        invariant
            i <= chunk.len(),
            acc == be_word(chunk@.subrange(0, i as int)),
        decreases chunk.len() - i,
    {
        proof {
            assert(chunk@.subrange(0, i + 1).drop_last() =~= chunk@.subrange(0, i as int));
        }
        acc = (acc << 8) | (chunk[i] as u64);
        i += 1;
    }
    proof {
        assert(chunk@.subrange(0, i as int) =~= chunk@);
    }
    acc
}

/// On at most eight bytes the word is the base-256 number itself: nothing is
/// shifted out.
pub proof fn lemma_be_word_is_number(s: Seq<u8>)
    requires
        s.len() <= 8,
    ensures
        be_word(s) as nat == be_nat(s),
        be_nat(s) < pow256(s.len()),
    decreases s.len(),
{
    if s.len() > 0 {
        let t = s.drop_last();
        lemma_be_word_is_number(t);
        lemma_pow256_bounds(t.len());
        let hi = be_word(t);
        let lo = s.last();
        assert(((hi << 8) | (lo as u64)) == hi * 256 + lo) by (bit_vector)
            requires
                hi < 0x100_0000_0000_0000u64,
        ;
    }
}

/// The powers of 256 up to the eighth, which is 2^64.
pub proof fn lemma_pow256_bounds(n: nat)
    requires
        n <= 8,
    ensures
        pow256(n) <= 0x1_0000_0000_0000_0000,
        n <= 7 ==> pow256(n) <= 0x100_0000_0000_0000,
{
    reveal_with_fuel(pow256, 10);
}

} // verus!
