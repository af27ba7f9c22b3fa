//! The SSE4.1 formulation of the tree hash.
//!
//! This engine keeps the 1024-bit state as two 128-bit halves of two
//! lanes each and mixes a half at a time, the way the SSE4.1 target
//! lays the state out in vector registers: the packed 32-bit multiply
//! takes the low half of each lane (the first state half pairs it with
//! a half-swap of `v0`, the second with a 32-bit right shift), and the
//! zipper merge is a byte shuffle of a 16-byte half driven by a fixed
//! selector.
//!
//! Its digest is specified by its own model, `highway_sse41_hash`, and
//! is pinned by its own regression vector. No equality with the
//! portable engine's `highway_hash` is claimed here: the variant is
//! kept as a distinct, independently-pinned algorithm until the
//! divergence once reported between the two is root-caused.

use crate::bytes::le64_at;
use crate::bytes::load_le64;
use crate::highway::build_tail_packet;
use crate::highway::hh_tail_packet;
use crate::highway::rot32_by;
use crate::highway::rot32_by_exec;
use crate::highway::rotl32;
use vstd::prelude::*;

verus! {

/// One 128-bit half: two 64-bit lanes.
#[derive(Clone, Copy)]
pub struct Half {
    pub lo: u64,
    pub hi: u64,
}

/// The tree-hash state as the SSE4.1 engine arranges it: each quarter
/// split into a low half (lanes 0 and 1) and a high half (lanes 2
/// and 3).
#[derive(Clone, Copy)]
pub struct SseState {
    pub v0l: Half,
    pub v0h: Half,
    pub v1l: Half,
    pub v1h: Half,
    pub mul0l: Half,
    pub mul0h: Half,
    pub mul1l: Half,
    pub mul1h: Half,
}

/// The packed 32-bit multiply on one lane pair: the low 32 bits of each
/// operand multiplied into a full 64-bit product.
pub open spec fn mul_lo32(a: u64, b: u64) -> u64 {
    (a & 0xffff_ffff).wrapping_mul(b & 0xffff_ffff)
}

/// Byte `k` of a 16-byte half, little-endian within each lane.
pub open spec fn half_byte(p: Half, k: int) -> u64 {
    if k < 8 {
        (p.lo >> (8 * k) as u64) & 0xff
    } else {
        (p.hi >> (8 * (k - 8)) as u64) & 0xff
    }
}

/// The zipper-merge byte shuffle of one half, as the fixed shuffle
/// selector `0x070806090D0A040B_000F010E05020C03` orders the bytes.
pub open spec fn sse_zipper(p: Half) -> Half {
    Half {
        lo: half_byte(p, 3) | (half_byte(p, 12) << 8) | (half_byte(p, 2) << 16)
            | (half_byte(p, 5) << 24) | (half_byte(p, 14) << 32) | (half_byte(p, 1) << 40)
            | (half_byte(p, 15) << 48) | (half_byte(p, 0) << 56),
        hi: half_byte(p, 11) | (half_byte(p, 4) << 8) | (half_byte(p, 10) << 16)
            | (half_byte(p, 13) << 24) | (half_byte(p, 9) << 32) | (half_byte(p, 6) << 40)
            | (half_byte(p, 8) << 48) | (half_byte(p, 7) << 56),
    }
}

/// Lane-wise wrapping addition of two halves.
pub open spec fn half_add(a: Half, b: Half) -> Half {
    Half { lo: a.lo.wrapping_add(b.lo), hi: a.hi.wrapping_add(b.hi) }
}

/// The state seeded from the four key words, arranged in halves.
pub open spec fn sse_init(key: Seq<u64>) -> SseState {
    SseState {
        v0l: Half { lo: 0xdbe6_d5d5_fe4c_ce2f ^ key[0], hi: 0xa409_3822_299f_31d0 ^ key[1] },
        v0h: Half { lo: 0x1319_8a2e_0370_7344 ^ key[2], hi: 0x243f_6a88_85a3_08d3 ^ key[3] },
        v1l: Half {
            lo: 0x3bd3_9e10_cb0e_f593 ^ rotl32(key[0]),
            hi: 0xc0ac_f169_b5f1_8a8c ^ rotl32(key[1]),
        },
        v1h: Half {
            lo: 0xbe54_66cf_34e9_0c6c ^ rotl32(key[2]),
            hi: 0x4528_21e6_38d0_1377 ^ rotl32(key[3]),
        },
        mul0l: Half { lo: 0xdbe6_d5d5_fe4c_ce2f, hi: 0xa409_3822_299f_31d0 },
        mul0h: Half { lo: 0x1319_8a2e_0370_7344, hi: 0x243f_6a88_85a3_08d3 },
        mul1l: Half { lo: 0x3bd3_9e10_cb0e_f593, hi: 0xc0ac_f169_b5f1_8a8c },
        mul1h: Half { lo: 0xbe54_66cf_34e9_0c6c, hi: 0x4528_21e6_38d0_1377 },
    }
}

/// One update step over a packet given as two halves, mixing a half at
/// a time as the vector engine does.
#[verifier::opaque]
pub open spec fn sse_update(s: SseState, ph: Half, pl: Half) -> SseState {
    let v1l = half_add(half_add(s.v1l, pl), s.mul0l);
    let v1h = half_add(half_add(s.v1h, ph), s.mul0h);
    let mul0l = Half {
        lo: s.mul0l.lo ^ mul_lo32(v1l.lo, rotl32(s.v0l.lo)),
        hi: s.mul0l.hi ^ mul_lo32(v1l.hi, rotl32(s.v0l.hi)),
    };
    let mul0h = Half {
        lo: s.mul0h.lo ^ mul_lo32(v1h.lo, s.v0h.lo >> 32),
        hi: s.mul0h.hi ^ mul_lo32(v1h.hi, s.v0h.hi >> 32),
    };
    let v0l = half_add(s.v0l, s.mul1l);
    let v0h = half_add(s.v0h, s.mul1h);
    let mul1l = Half {
        lo: s.mul1l.lo ^ mul_lo32(v0l.lo, rotl32(v1l.lo)),
        hi: s.mul1l.hi ^ mul_lo32(v0l.hi, rotl32(v1l.hi)),
    };
    let mul1h = Half {
        lo: s.mul1h.lo ^ mul_lo32(v0h.lo, v1h.lo >> 32),
        hi: s.mul1h.hi ^ mul_lo32(v0h.hi, v1h.hi >> 32),
    };
    let w0l = half_add(v0l, sse_zipper(v1l));
    let w0h = half_add(v0h, sse_zipper(v1h));
    let w1l = half_add(v1l, sse_zipper(w0l));
    let w1h = half_add(v1h, sse_zipper(w0h));
    SseState {
        v0l: w0l,
        v0h: w0h,
        v1l: w1l,
        v1h: w1h,
        mul0l,
        mul0h,
        mul1l,
        mul1h,
    }
}

/// A half with both lanes half-swapped (rotated by 32 bits).
pub open spec fn half_rot32(p: Half) -> Half {
    Half { lo: rotl32(p.lo), hi: rotl32(p.hi) }
}

/// One finalization round: the halves of `v0`, each lane half-swapped,
/// fed back as a packet with the halves exchanged.
pub open spec fn sse_permute_update(s: SseState) -> SseState {
    sse_update(s, half_rot32(s.v0l), half_rot32(s.v0h))
}

/// Four permute-and-update rounds, then lane 0 of
/// `(v0 + mul0) + (v1 + mul1)`.
pub open spec fn sse_finalize(s: SseState) -> u64 {
    let s4 = sse_permute_update(sse_permute_update(sse_permute_update(sse_permute_update(s))));
    (s4.v0l.lo.wrapping_add(s4.mul0l.lo)).wrapping_add(s4.v1l.lo.wrapping_add(s4.mul1l.lo))
}

/// The low half (lanes 0 and 1) of the packet at `off`.
pub open spec fn half_l_at(msg: Seq<u8>, off: int) -> Half {
    Half { lo: le64_at(msg, off), hi: le64_at(msg, off + 8) }
}

/// The high half (lanes 2 and 3) of the packet at `off`.
pub open spec fn half_h_at(msg: Seq<u8>, off: int) -> Half {
    Half { lo: le64_at(msg, off + 16), hi: le64_at(msg, off + 24) }
}

/// The state after the first `n` complete 32-byte packets of `msg`.
pub open spec fn sse_blocks(key: Seq<u64>, msg: Seq<u8>, n: nat) -> SseState
    decreases n,
{
    if n == 0 {
        sse_init(key)
    } else {
        sse_update(
            sse_blocks(key, msg, (n - 1) as nat),
            half_h_at(msg, 32 * (n - 1)),
            half_l_at(msg, 32 * (n - 1)),
        )
    }
}

/// The pre-tail step: the leftover byte count broadcast to both 32-bit
/// halves of every `v0` lane, and every `v1` lane's halves rotated by
/// that count.
pub open spec fn sse_pretail(s: SseState, m: u64) -> SseState
    recommends
        1 <= m < 32,
{
    let inc = (m << 32) | m;
    SseState {
        v0l: Half { lo: s.v0l.lo.wrapping_add(inc), hi: s.v0l.hi.wrapping_add(inc) },
        v0h: Half { lo: s.v0h.lo.wrapping_add(inc), hi: s.v0h.hi.wrapping_add(inc) },
        v1l: Half { lo: rot32_by(m, s.v1l.lo), hi: rot32_by(m, s.v1l.hi) },
        v1h: Half { lo: rot32_by(m, s.v1h.lo), hi: rot32_by(m, s.v1h.hi) },
        ..s
    }
}

/// The state after the whole message: every complete packet, then, if
/// any bytes are left over, the pre-tail step and the padded packet.
pub open spec fn sse_state(key: Seq<u64>, msg: Seq<u8>) -> SseState {
    let nfull = msg.len() / 32;
    let s = sse_blocks(key, msg, nfull);
    if msg.len() % 32 == 0 {
        s
    } else {
        let packet = hh_tail_packet(msg.subrange(32 * nfull as int, msg.len() as int));
        sse_update(
            sse_pretail(s, (msg.len() % 32) as u64),
            half_h_at(packet, 0),
            half_l_at(packet, 0),
        )
    }
}

/// The 64-bit digest of the SSE4.1 formulation of the tree hash.
pub open spec fn highway_sse41_hash(key: Seq<u64>, msg: Seq<u8>) -> u64 {
    sse_finalize(sse_state(key, msg))
}

/// Byte `k` of a 16-byte half.
fn half_byte_exec(p: Half, k: u64) -> (r: u64)
    requires
        0 <= k < 16,
    ensures
        r == half_byte(p, k as int),
{
    if k < 8 {
        (p.lo >> (8 * k)) & 0xff
    } else {
        (p.hi >> (8 * (k - 8))) & 0xff
    }
}

fn sse_zipper_exec(p: Half) -> (r: Half)
    ensures
        r == sse_zipper(p),
{
    Half {
        lo: half_byte_exec(p, 3) | (half_byte_exec(p, 12) << 8) | (half_byte_exec(p, 2) << 16)
            | (half_byte_exec(p, 5) << 24) | (half_byte_exec(p, 14) << 32)
            | (half_byte_exec(p, 1) << 40) | (half_byte_exec(p, 15) << 48)
            | (half_byte_exec(p, 0) << 56),
        hi: half_byte_exec(p, 11) | (half_byte_exec(p, 4) << 8) | (half_byte_exec(p, 10) << 16)
            | (half_byte_exec(p, 13) << 24) | (half_byte_exec(p, 9) << 32)
            | (half_byte_exec(p, 6) << 40) | (half_byte_exec(p, 8) << 48)
            | (half_byte_exec(p, 7) << 56),
    }
}

fn half_add_exec(a: Half, b: Half) -> (r: Half)
    ensures
        r == half_add(a, b),
{
    Half { lo: a.lo.wrapping_add(b.lo), hi: a.hi.wrapping_add(b.hi) }
}

fn mul_lo32_exec(a: u64, b: u64) -> (r: u64)
    ensures
        r == mul_lo32(a, b),
{
    (a & 0xffff_ffff).wrapping_mul(b & 0xffff_ffff)
}

fn rotl32_exec(x: u64) -> (r: u64)
    ensures
        r == rotl32(x),
{
    (x << 32) | (x >> 32)
}

fn sse_init_exec(key: &[u64; 4]) -> (s: SseState)
    ensures
        s == sse_init(key@),
{
    SseState {
        v0l: Half {
            lo: 0xdbe6_d5d5_fe4c_ce2f ^ key[0],
            hi: 0xa409_3822_299f_31d0 ^ key[1],
        },
        v0h: Half {
            lo: 0x1319_8a2e_0370_7344 ^ key[2],
            hi: 0x243f_6a88_85a3_08d3 ^ key[3],
        },
        v1l: Half {
            lo: 0x3bd3_9e10_cb0e_f593 ^ rotl32_exec(key[0]),
            hi: 0xc0ac_f169_b5f1_8a8c ^ rotl32_exec(key[1]),
        },
        v1h: Half {
            lo: 0xbe54_66cf_34e9_0c6c ^ rotl32_exec(key[2]),
            hi: 0x4528_21e6_38d0_1377 ^ rotl32_exec(key[3]),
        },
        mul0l: Half { lo: 0xdbe6_d5d5_fe4c_ce2f, hi: 0xa409_3822_299f_31d0 },
        mul0h: Half { lo: 0x1319_8a2e_0370_7344, hi: 0x243f_6a88_85a3_08d3 },
        mul1l: Half { lo: 0x3bd3_9e10_cb0e_f593, hi: 0xc0ac_f169_b5f1_8a8c },
        mul1h: Half { lo: 0xbe54_66cf_34e9_0c6c, hi: 0x4528_21e6_38d0_1377 },
    }
}

fn sse_update_exec(s: SseState, ph: Half, pl: Half) -> (r: SseState)
    ensures
        r == sse_update(s, ph, pl),
{
    proof {
        reveal(sse_update);
    }
    let v1l = half_add_exec(half_add_exec(s.v1l, pl), s.mul0l);
    let v1h = half_add_exec(half_add_exec(s.v1h, ph), s.mul0h);
    let mul0l = Half {
        lo: s.mul0l.lo ^ mul_lo32_exec(v1l.lo, rotl32_exec(s.v0l.lo)),
        hi: s.mul0l.hi ^ mul_lo32_exec(v1l.hi, rotl32_exec(s.v0l.hi)),
    };
    let mul0h = Half {
        lo: s.mul0h.lo ^ mul_lo32_exec(v1h.lo, s.v0h.lo >> 32),
        hi: s.mul0h.hi ^ mul_lo32_exec(v1h.hi, s.v0h.hi >> 32),
    };
    let v0l = half_add_exec(s.v0l, s.mul1l);
    let v0h = half_add_exec(s.v0h, s.mul1h);
    let mul1l = Half {
        lo: s.mul1l.lo ^ mul_lo32_exec(v0l.lo, rotl32_exec(v1l.lo)),
        hi: s.mul1l.hi ^ mul_lo32_exec(v0l.hi, rotl32_exec(v1l.hi)),
    };
    let mul1h = Half {
        lo: s.mul1h.lo ^ mul_lo32_exec(v0h.lo, v1h.lo >> 32),
        hi: s.mul1h.hi ^ mul_lo32_exec(v0h.hi, v1h.hi >> 32),
    };
    let w0l = half_add_exec(v0l, sse_zipper_exec(v1l));
    let w0h = half_add_exec(v0h, sse_zipper_exec(v1h));
    let w1l = half_add_exec(v1l, sse_zipper_exec(w0l));
    let w1h = half_add_exec(v1h, sse_zipper_exec(w0h));
    SseState {
        v0l: w0l,
        v0h: w0h,
        v1l: w1l,
        v1h: w1h,
        mul0l,
        mul0h,
        mul1l,
        mul1h,
    }
}

fn sse_permute_update_exec(s: SseState) -> (r: SseState)
    ensures
        r == sse_permute_update(s),
{
    let ph = Half { lo: rotl32_exec(s.v0l.lo), hi: rotl32_exec(s.v0l.hi) };
    let pl = Half { lo: rotl32_exec(s.v0h.lo), hi: rotl32_exec(s.v0h.hi) };
    sse_update_exec(s, ph, pl)
}

fn sse_finalize_exec(s: SseState) -> (r: u64)
    ensures
        r == sse_finalize(s),
{
    let s1 = sse_permute_update_exec(s);
    let s2 = sse_permute_update_exec(s1);
    let s3 = sse_permute_update_exec(s2);
    let s4 = sse_permute_update_exec(s3);
    (s4.v0l.lo.wrapping_add(s4.mul0l.lo)).wrapping_add(s4.v1l.lo.wrapping_add(s4.mul1l.lo))
}

fn sse_pretail_exec(s: SseState, m: u64) -> (r: SseState)
    requires
        1 <= m < 32,
    ensures
        r == sse_pretail(s, m),
{
    let inc = (m << 32) | m;
    SseState {
        v0l: Half { lo: s.v0l.lo.wrapping_add(inc), hi: s.v0l.hi.wrapping_add(inc) },
        v0h: Half { lo: s.v0h.lo.wrapping_add(inc), hi: s.v0h.hi.wrapping_add(inc) },
        v1l: Half { lo: rot32_by_exec(m, s.v1l.lo), hi: rot32_by_exec(m, s.v1l.hi) },
        v1h: Half { lo: rot32_by_exec(m, s.v1h.lo), hi: rot32_by_exec(m, s.v1h.hi) },
        ..s
    }
}

/// Loads the two packet halves at `off`.
fn load_halves(s: &[u8], off: usize) -> (r: (Half, Half))
    requires
        off + 32 <= s@.len(),
    ensures
        r.0 == half_h_at(s@, off as int),
        r.1 == half_l_at(s@, off as int),
{
    let slen: usize = s.len();
    assert(off + 32 <= slen);
    let pl = Half { lo: load_le64(s, off), hi: load_le64(s, off + 8) };
    let ph = Half { lo: load_le64(s, off + 16), hi: load_le64(s, off + 24) };
    (ph, pl)
}

/// Returns the 64-bit digest of `bytes` under `key` as the SSE4.1
/// formulation of the tree hash computes it. Pinned by its own
/// regression vector; see the module description.
#[verifier::rlimit(60)]
pub fn highwayhash64_sse41(key: &[u64; 4], bytes: &[u8]) -> (r: u64)
    ensures
        r == highway_sse41_hash(key@, bytes@),
{
    let mut st = sse_init_exec(key);
    let len = bytes.len();
    let nfull = len / 32;
    let mut k: usize = 0;
    while k < nfull
        invariant
            k <= nfull,
            nfull == bytes@.len() / 32,
            len == bytes@.len(),
            st == sse_blocks(key@, bytes@, k as nat),
        decreases nfull - k,
    {
        let (ph, pl) = load_halves(bytes, 32 * k);
        st = sse_update_exec(st, ph, pl);
        k = k + 1;
    }
    let rem = len % 32;
    if rem != 0 {
        st = sse_pretail_exec(st, rem as u64);
        let packet = build_tail_packet(bytes, len - rem);
        let (ph, pl) = load_halves(packet.as_slice(), 0);
        st = sse_update_exec(st, ph, pl);
    }
    sse_finalize_exec(st)
}

/// Determinism of the SSE4.1 variant: any two of its digests of the
/// same key and message are equal.
pub proof fn lemma_sse41_deterministic(key: Seq<u64>, msg: Seq<u8>, r1: u64, r2: u64)
    requires
        r1 == highway_sse41_hash(key, msg),
        r2 == highway_sse41_hash(key, msg),
    ensures
        r1 == r2,
{
}

} // verus!
