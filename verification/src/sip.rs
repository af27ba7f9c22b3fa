//! The SipHash family: keyed 64-bit digests under a 128-bit key.
//!
//! `siphash` is the 2-4 schedule (two mixing rounds per 8-byte word, four
//! finalization rounds); `siphash13` is the reduced-round 1-3 schedule.
//! The message is consumed as little-endian 64-bit words; the final,
//! possibly empty, partial word carries the low byte of the message
//! length in its top byte, so messages differing only by trailing zero
//! bytes at a word boundary do not collide.

use crate::bytes::le64_at;
use crate::bytes::le_partial;
use crate::bytes::load_le64;
use crate::bytes::load_le_partial;
use vstd::prelude::*;

verus! {

/// The four 64-bit words of the SipHash mixing state.
#[derive(Clone, Copy)]
pub struct SipState {
    pub v0: u64,
    pub v1: u64,
    pub v2: u64,
    pub v3: u64,
}

/// Left rotation of a 64-bit word by `n` bits, `0 < n < 64`.
pub open spec fn rotl64(x: u64, n: u64) -> u64
    recommends
        0 < n < 64,
{
    (x << n) | (x >> (64 - n) as u64)
}

/// The state before any message word is absorbed: the key words folded
/// into the four initialization constants.
pub open spec fn sip_init(k0: u64, k1: u64) -> SipState {
    SipState {
        v0: k0 ^ 0x736f6d6570736575,
        v1: k1 ^ 0x646f72616e646f6d,
        v2: k0 ^ 0x6c7967656e657261,
        v3: k1 ^ 0x7465646279746573,
    }
}

/// One SipRound: two add-rotate-xor halves over the four state words.
pub open spec fn sip_round(s: SipState) -> SipState {
    let v0 = s.v0.wrapping_add(s.v1);
    let v1 = rotl64(s.v1, 13) ^ v0;
    let v0 = rotl64(v0, 32);
    let v2 = s.v2.wrapping_add(s.v3);
    let v3 = rotl64(s.v3, 16) ^ v2;
    let v0 = v0.wrapping_add(v3);
    let v3 = rotl64(v3, 21) ^ v0;
    let v2 = v2.wrapping_add(v1);
    let v1 = rotl64(v1, 17) ^ v2;
    let v2 = rotl64(v2, 32);
    SipState { v0, v1, v2, v3 }
}

/// `n` successive SipRounds.
pub open spec fn sip_rounds(s: SipState, n: nat) -> SipState
    decreases n,
{
    if n == 0 {
        s
    } else {
        sip_round(sip_rounds(s, (n - 1) as nat))
    }
}

/// Absorbing one 64-bit word: xor into `v3`, `c` rounds, xor into `v0`.
pub open spec fn sip_absorb(s: SipState, w: u64, c: nat) -> SipState {
    let s1 = SipState { v3: s.v3 ^ w, ..s };
    let s2 = sip_rounds(s1, c);
    SipState { v0: s2.v0 ^ w, ..s2 }
}

/// The state after the first `k` complete 8-byte words of `msg` have
/// been absorbed with `c` rounds each.
pub open spec fn sip_words(k0: u64, k1: u64, msg: Seq<u8>, c: nat, k: nat) -> SipState
    decreases k,
{
    if k == 0 {
        sip_init(k0, k1)
    } else {
        sip_absorb(sip_words(k0, k1, msg, c, (k - 1) as nat), le64_at(msg, 8 * (k - 1)), c)
    }
}

/// The final word: the bytes after the last complete word in
/// little-endian order, with the low byte of the message length as the
/// most significant byte.
pub open spec fn sip_tail_word(msg: Seq<u8>) -> u64 {
    (((msg.len() as u64) & 0xff) << 56) | le_partial(msg, 8 * (msg.len() / 8) as int, (msg.len() % 8) as nat)
}

/// The SipHash digest of `msg` under key words `k0, k1`, with `c`
/// compression rounds per word and `d` finalization rounds.
pub open spec fn sip_hash(c: nat, d: nat, k0: u64, k1: u64, msg: Seq<u8>) -> u64 {
    let s = sip_words(k0, k1, msg, c, msg.len() / 8);
    let s2 = sip_absorb(s, sip_tail_word(msg), c);
    let s3 = SipState { v2: s2.v2 ^ 0xff, ..s2 };
    let s4 = sip_rounds(s3, d);
    s4.v0 ^ s4.v1 ^ s4.v2 ^ s4.v3
}

fn rotl64_exec(x: u64, n: u64) -> (r: u64)
    requires
        0 < n < 64,
    ensures
        r == rotl64(x, n),
{
    (x << n) | (x >> (64 - n))
}

fn sip_round_exec(s: SipState) -> (r: SipState)
    ensures
        r == sip_round(s),
{
    let v0 = s.v0.wrapping_add(s.v1);
    let v1 = rotl64_exec(s.v1, 13) ^ v0;
    let v0 = rotl64_exec(v0, 32);
    let v2 = s.v2.wrapping_add(s.v3);
    let v3 = rotl64_exec(s.v3, 16) ^ v2;
    let v0 = v0.wrapping_add(v3);
    let v3 = rotl64_exec(v3, 21) ^ v0;
    let v2 = v2.wrapping_add(v1);
    let v1 = rotl64_exec(v1, 17) ^ v2;
    let v2 = rotl64_exec(v2, 32);
    SipState { v0, v1, v2, v3 }
}

fn sip_rounds_exec(s: SipState, n: usize) -> (r: SipState)
    ensures
        r == sip_rounds(s, n as nat),
{
    let mut cur = s;
    let mut i: usize = 0;
    while i < n
        invariant
            i <= n,
            cur == sip_rounds(s, i as nat),
        decreases n - i,
    {
        cur = sip_round_exec(cur);
        i = i + 1;
    }
    cur
}

fn sip_absorb_exec(s: SipState, w: u64, c: usize) -> (r: SipState)
    ensures
        r == sip_absorb(s, w, c as nat),
{
    let s1 = SipState { v3: s.v3 ^ w, ..s };
    let s2 = sip_rounds_exec(s1, c);
    SipState { v0: s2.v0 ^ w, ..s2 }
}

/// Computes the SipHash digest with `c` compression and `d` finalization
/// rounds.
fn sip_compute(key: &[u64; 2], data: &[u8], c: usize, d: usize) -> (r: u64)
    ensures
        r == sip_hash(c as nat, d as nat, key@[0], key@[1], data@),
{
    let len = data.len();
    let nwords = len / 8;
    let mut s = SipState {
        v0: key[0] ^ 0x736f6d6570736575,
        v1: key[1] ^ 0x646f72616e646f6d,
        v2: key[0] ^ 0x6c7967656e657261,
        v3: key[1] ^ 0x7465646279746573,
    };
    let mut k: usize = 0;
    while k < nwords
        invariant
            k <= nwords,
            nwords == data@.len() / 8,
            len == data@.len(),
            s == sip_words(key@[0], key@[1], data@, c as nat, k as nat),
        decreases nwords - k,
    {
        proof {
            assert(8 * (k + 1) <= 8 * nwords <= data@.len());
        }
        let w = load_le64(data, 8 * k);
        s = sip_absorb_exec(s, w, c);
        k = k + 1;
    }
    let rem = len % 8;
    let tail = (((len as u64) & 0xff) << 56) | load_le_partial(data, len - rem, rem);
    let s2 = sip_absorb_exec(s, tail, c);
    let s3 = SipState { v2: s2.v2 ^ 0xff, ..s2 };
    let s4 = sip_rounds_exec(s3, d);
    s4.v0 ^ s4.v1 ^ s4.v2 ^ s4.v3
}

/// Returns the SipHash-2-4 digest of `bytes` under `key`.
pub fn siphash(key: &[u64; 2], bytes: &[u8]) -> (r: u64)
    ensures
        r == sip_hash(2, 4, key@[0], key@[1], bytes@),
{
    sip_compute(key, bytes, 2, 4)
}

/// Returns the reduced-round SipHash-1-3 digest of `bytes` under `key`.
pub fn siphash13(key: &[u64; 2], bytes: &[u8]) -> (r: u64)
    ensures
        r == sip_hash(1, 3, key@[0], key@[1], bytes@),
{
    sip_compute(key, bytes, 1, 3)
}

/// Determinism of the SipHash family: any two digests of the same key
/// and message under the same round schedule are equal.
pub proof fn lemma_sip_deterministic(c: nat, d: nat, k0: u64, k1: u64, msg: Seq<u8>, r1: u64, r2: u64)
    requires
        r1 == sip_hash(c, d, k0, k1, msg),
        r2 == sip_hash(c, d, k0, k1, msg),
    ensures
        r1 == r2,
{
}

} // verus!
