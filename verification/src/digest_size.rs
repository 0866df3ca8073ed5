//! The three digest sizes and the parameters that each one fixes.

use vstd::prelude::*;

verus! {

/// The size of the digest, in bits.
#[derive(Debug, Copy, Clone, PartialEq, Eq, Structural)]
pub enum DigestSize {
    Bit128,
    Bit256,
    Bit512,
}

impl DigestSize {
    /// The number of rounds that one absorption runs: twice the base count
    /// of 56, 64 or 80 rounds.
    pub open spec fn rounds(self) -> nat {
        match self {
            DigestSize::Bit128 => 112,
            DigestSize::Bit256 => 128,
            DigestSize::Bit512 => 160,
        }
    }

    /// The length of the digest in bytes.
    pub open spec fn length(self) -> nat {
        match self {
            DigestSize::Bit128 => 16,
            DigestSize::Bit256 => 32,
            DigestSize::Bit512 => 64,
        }
    }

    /// The number of 64-bit words of the state.
    pub open spec fn words(self) -> nat {
        match self {
            DigestSize::Bit128 => 25,
            DigestSize::Bit256 => 32,
            DigestSize::Bit512 => 40,
        }
    }

    /// The number of rounds that one absorption runs: 112, 128 or 160.
    pub fn round_count(&self) -> (r: usize)
        ensures
            r == self.rounds(),
    {
        match self {
            DigestSize::Bit128 => 112,
            DigestSize::Bit256 => 128,
            DigestSize::Bit512 => 160,
        }
    }

    /// The length of the digest in bytes: 16, 32 or 64.
    pub fn digest_length(&self) -> (r: usize)
        ensures
            r == self.length(),
    {
        match self {
            DigestSize::Bit128 => 16,
            DigestSize::Bit256 => 32,
            DigestSize::Bit512 => 64,
        }
    }

    /// The number of 64-bit words of the state: 25, 32 or 40.
    pub fn state_size(&self) -> (r: usize)
        ensures
            r == self.words(),
    {
        match self {
            DigestSize::Bit128 => 25,
            DigestSize::Bit256 => 32,
            DigestSize::Bit512 => 40,
        }
    }

    /// The state is wide enough to hold the whole digest: no word is squeezed
    /// twice.
    pub proof fn lemma_state_holds_digest(self)
        ensures
            self.words() * 8 >= self.length(),
            self.length() % 8 == 0,
    {
    }
}

} // verus!
