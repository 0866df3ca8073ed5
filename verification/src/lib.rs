//! BlueHash: a sponge-like hash primitive over 64-bit words, built from
//! add-rotate-xor rounds whose constants derive from a byte-mixing noise
//! function.
//!
//! A hasher is constructed for one of three digest sizes, absorbs bytes,
//! and is finalized into a digest of 16, 32 or 64 bytes:
//!
//! - the state starts from a fixed initial word array of 25, 32 or 40 words;
//! - each absorption xors its blocks of eight bytes, read big-endian, into
//!   the words in turn, and then runs 112, 128 or 160 rounds whose constants are
//!   derived from the bytes of that call; no input is kept after the call;
//! - finalization xors the bit count and the padding byte into the first
//!   word, runs four more rounds seeded by the padded tail, whose length
//!   field is 16 bytes wide, and squeezes the digest big-endian from the
//!   words in index order;
//! - a round is the plain add-rotate-xor formula, with no byte substitution
//!   after it, and every new word is computed from the words of the round
//!   before, never from the round in progress.
//!
//! Finalizing twice returns the same digest, and absorbing after
//! finalization starts a new message. Each call of `update` is a step of its
//! own: it ends with its rounds, so a message absorbed in several calls
//! gives another digest than the same bytes absorbed in one.
//!
//! Every function carries a contract over the mathematical model of its
//! data in [`state`], and every contract but one is proved: that the worker
//! pool returns the words of a round in index order is believed of rayon.

pub mod bits;
pub mod constants;
pub mod digest_size;
pub mod equality;
pub mod hasher;
pub mod laws;
pub mod noise;
pub mod permutation;
pub mod state;
pub mod utils;

pub use crate::bits::{rotate_left, rotate_right};
pub use crate::constants::generate_constants;
pub use crate::digest_size::DigestSize;
pub use crate::equality::constant_time_eq;
pub use crate::hasher::{BlueHashCore, Digest};
pub use crate::noise::generate_lwe_noise;
pub use crate::permutation::permute_core;
pub use crate::state::Phase;
pub use crate::utils::to_u64;
