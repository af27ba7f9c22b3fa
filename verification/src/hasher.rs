//! The streaming combiner: a stateful hasher folding repeated writes
//! into one running 64-bit value.
//!
//! Each `write` call digests that call's bytes with the tree hash and
//! folds the digest into the accumulator with an avalanche-style step;
//! `finish` returns the accumulator unmodified and may be called any
//! number of times, interleaved with further writes. The accumulator
//! after a sequence of writes therefore depends on the exact write
//! boundaries, not only on the concatenation of the bytes — boundary
//! sensitivity is a documented limitation of the combining step, not a
//! collision-resistance guarantee.

use crate::highway::highway_hash;
use crate::highway::highwayhash64;
use vstd::prelude::*;

verus! {

/// The constant added when folding a fresh digest into the running
/// accumulator (the 64-bit golden-ratio word).
pub const COMBINE_INCREMENT: u64 = 0x9e3779b97f4a7c16;

/// The all-zero default key.
pub open spec fn zero_key() -> Seq<u64> {
    seq![0u64, 0u64, 0u64, 0u64]
}

/// Avalanche-style fold of a fresh digest `d` into the accumulator
/// `acc`: `acc ^ (d + increment + (acc << 6) + (acc >> 2))` with every
/// addition wrapping modulo 2^64.
pub open spec fn combine(acc: u64, d: u64) -> u64 {
    acc ^ d.wrapping_add(COMBINE_INCREMENT).wrapping_add(acc << 6).wrapping_add(acc >> 2)
}

/// A streaming tree-hash combiner: a caller-supplied 256-bit key and a
/// 64-bit running accumulator.
#[derive(Clone, Debug)]
pub struct HighwayHasher {
    key: [u64; 4],
    hash: u64,
}

impl HighwayHasher {
    /// The key this combiner digests every write under.
    pub closed spec fn spec_key(&self) -> Seq<u64> {
        self.key@
    }

    /// The current accumulator value.
    pub closed spec fn spec_acc(&self) -> u64 {
        self.hash
    }

    /// Creates a combiner with the all-zero key and a zero accumulator.
    pub fn new() -> (h: HighwayHasher)
        ensures
            h.spec_key() == zero_key(),
            h.spec_acc() == 0,
    {
        let h = HighwayHasher { key: [0, 0, 0, 0], hash: 0 };
        proof {
            assert(h.key@ =~= zero_key());
        }
        h
    }

    /// Creates a combiner under the given key, with a zero accumulator.
    pub fn new_with_key(key: [u64; 4]) -> (h: HighwayHasher)
        ensures
            h.spec_key() == key@,
            h.spec_acc() == 0,
    {
        HighwayHasher { key, hash: 0 }
    }

    /// Digests `msg` under the key and folds the digest into the
    /// accumulator with the avalanche combining step. The key is never
    /// changed.
    pub fn write(&mut self, msg: &[u8])
        ensures
            final(self).spec_key() == old(self).spec_key(),
            final(self).spec_acc() == combine(
                old(self).spec_acc(),
                highway_hash(old(self).spec_key(), msg@),
            ),
    {
        let lhs = self.hash;
        let rhs = highwayhash64(&self.key, msg);
        self.hash = lhs ^ rhs.wrapping_add(COMBINE_INCREMENT).wrapping_add(lhs << 6).wrapping_add(
            lhs >> 2,
        );
    }

    /// Returns the accumulator unmodified: idempotent, and callable
    /// again after further writes.
    pub fn finish(&self) -> (r: u64)
        ensures
            r == self.spec_acc(),
    {
        self.hash
    }
}

impl Default for HighwayHasher {
    /// Defaults to the all-zero key, like `new`.
    fn default() -> (h: HighwayHasher)
        ensures
            h.spec_key() == zero_key(),
            h.spec_acc() == 0,
    {
        HighwayHasher::new()
    }
}

} // verus!
