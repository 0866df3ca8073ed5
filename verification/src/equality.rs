//! Comparison of byte strings in time that does not depend on where they
//! first differ.

use vstd::prelude::*;

verus! {

/// Tells whether `a` and `b` hold the same bytes. Unequal lengths are
/// rejected at once; otherwise every pair of bytes is xored into one
/// accumulator, which is looked at only after the last pair.
pub fn constant_time_eq(a: &[u8], b: &[u8]) -> (same: bool)
    ensures
        same == (a@ == b@),
{
    if a.len() != b.len() {
        return false;
    }
    let mut diff: u8 = 0;
    let mut i: usize = 0;
    proof {
        assert(a@.subrange(0, 0) =~= b@.subrange(0, 0));
    }
    while i < a.len()
        invariant
            i <= a.len(),
            a.len() == b.len(),
            (diff == 0) == (a@.subrange(0, i as int) == b@.subrange(0, i as int)),
        decreases a.len() - i,
    {
        let x: u8 = a[i];
        let y: u8 = b[i];
        let before: u8 = diff;
        diff = before | (x ^ y);
        proof {
            assert(((before | (x ^ y)) == 0) == (before == 0 && x == y)) by (bit_vector);
            let a_now = a@.subrange(0, i as int);
            let b_now = b@.subrange(0, i as int);
            let a_next = a@.subrange(0, i + 1);
            let b_next = b@.subrange(0, i + 1);
            assert(a_next.drop_last() =~= a_now);
            assert(b_next.drop_last() =~= b_now);
            assert(a_next.last() == x && b_next.last() == y);
            if a_now == b_now && x == y {
                assert(a_next =~= b_next);
            }
        }
        i += 1;
    }
    proof {
        assert(a@.subrange(0, i as int) =~= a@);
        assert(b@.subrange(0, i as int) =~= b@);
    }
    diff == 0
}

} // verus!
