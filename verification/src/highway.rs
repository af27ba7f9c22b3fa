//! The HighwayHash tree hash: a keyed 64-bit digest under a 256-bit key.
//!
//! The message is consumed in 32-byte packets of four little-endian
//! 64-bit lanes. Each packet is folded into a 1024-bit state (four lanes
//! each of `v0`, `v1`, `mul0`, `mul1`) by a rotate-multiply step followed
//! by a byte-wise "zipper merge"; a final partial packet is padded
//! deterministically, with the leftover byte count mixed into the state
//! first, so that messages differing only around a packet boundary do
//! not collide. Finalization runs four extra permute-and-update rounds
//! and sums one lane of each state quarter.
//!
//! `highway_hash` is the mathematical model; the portable engine, the
//! AVX2-shaped engine and the dispatcher-backed default are all proved
//! to return exactly that value, so their agreement on every key and
//! message is a theorem, not an observation.

use crate::bytes::le64_at;
use crate::bytes::load_le64;
use vstd::prelude::*;

verus! {

/// Four 64-bit lanes, one quarter of the HighwayHash state.
#[derive(Clone, Copy)]
pub struct Lanes {
    pub a: u64,
    pub b: u64,
    pub c: u64,
    pub d: u64,
}

/// The full HighwayHash mixing state.
#[derive(Clone, Copy)]
pub struct HhState {
    pub v0: Lanes,
    pub v1: Lanes,
    pub mul0: Lanes,
    pub mul1: Lanes,
}

/// Rotation of a 64-bit word by 32 bits (its halves swapped).
pub open spec fn rotl32(x: u64) -> u64 {
    (x << 32) | (x >> 32)
}

/// Rotation of each 32-bit half of `x` left by `count` bits.
pub open spec fn rot32_by(count: u64, x: u64) -> u64
    recommends
        1 <= count < 32,
{
    let lo = x & 0xffff_ffff;
    let hi = x >> 32;
    (((lo << count) | (lo >> (32 - count) as u64)) & 0xffff_ffff)
        | ((((hi << count) | (hi >> (32 - count) as u64)) & 0xffff_ffff) << 32)
}

/// The zipper-merge addend for the even lane of a pair: bytes of the
/// pair `(hi, lo)` shuffled to spread each multiplication's high bytes.
pub open spec fn zipper_lo(hi: u64, lo: u64) -> u64 {
    (((lo & 0xff00_0000) | (hi & 0x00ff_0000_0000)) >> 24)
        | (((lo & 0xff00_0000_0000) | (hi & 0x00ff_0000_0000_0000)) >> 16)
        | (lo & 0x00ff_0000)
        | ((lo & 0xff00) << 32)
        | ((hi & 0xff00_0000_0000_0000) >> 8)
        | (lo << 56)
}

/// The zipper-merge addend for the odd lane of a pair.
pub open spec fn zipper_hi(hi: u64, lo: u64) -> u64 {
    (((hi & 0xff00_0000) | (lo & 0x00ff_0000_0000)) >> 24)
        | (hi & 0x00ff_0000)
        | ((hi & 0xff00_0000_0000) >> 16)
        | ((hi & 0xff00) << 24)
        | ((lo & 0x00ff_0000_0000_0000) >> 8)
        | ((hi & 0xff) << 48)
        | (lo & 0xff00_0000_0000_0000)
}

/// The state seeded from the four key words: fixed constants for the
/// multiplier lanes, and the key folded (directly, and rotated by 32)
/// into the accumulator lanes.
pub open spec fn hh_init(key: Seq<u64>) -> HhState {
    HhState {
        v0: Lanes {
            a: 0xdbe6_d5d5_fe4c_ce2f ^ key[0],
            b: 0xa409_3822_299f_31d0 ^ key[1],
            c: 0x1319_8a2e_0370_7344 ^ key[2],
            d: 0x243f_6a88_85a3_08d3 ^ key[3],
        },
        v1: Lanes {
            a: 0x3bd3_9e10_cb0e_f593 ^ rotl32(key[0]),
            b: 0xc0ac_f169_b5f1_8a8c ^ rotl32(key[1]),
            c: 0xbe54_66cf_34e9_0c6c ^ rotl32(key[2]),
            d: 0x4528_21e6_38d0_1377 ^ rotl32(key[3]),
        },
        mul0: Lanes {
            a: 0xdbe6_d5d5_fe4c_ce2f,
            b: 0xa409_3822_299f_31d0,
            c: 0x1319_8a2e_0370_7344,
            d: 0x243f_6a88_85a3_08d3,
        },
        mul1: Lanes {
            a: 0x3bd3_9e10_cb0e_f593,
            b: 0xc0ac_f169_b5f1_8a8c,
            c: 0xbe54_66cf_34e9_0c6c,
            d: 0x4528_21e6_38d0_1377,
        },
    }
}

/// One update step: fold a four-lane packet into the state with the
/// per-lane rotate-multiply mixing and the pairwise zipper merges.
#[verifier::opaque]
pub open spec fn hh_update(s: HhState, p: Lanes) -> HhState {
    let v1a = s.v1.a.wrapping_add(p.a).wrapping_add(s.mul0.a);
    let v1b = s.v1.b.wrapping_add(p.b).wrapping_add(s.mul0.b);
    let v1c = s.v1.c.wrapping_add(p.c).wrapping_add(s.mul0.c);
    let v1d = s.v1.d.wrapping_add(p.d).wrapping_add(s.mul0.d);
    let mul0a = s.mul0.a ^ (v1a & 0xffff_ffff).wrapping_mul(s.v0.a >> 32);
    let mul0b = s.mul0.b ^ (v1b & 0xffff_ffff).wrapping_mul(s.v0.b >> 32);
    let mul0c = s.mul0.c ^ (v1c & 0xffff_ffff).wrapping_mul(s.v0.c >> 32);
    let mul0d = s.mul0.d ^ (v1d & 0xffff_ffff).wrapping_mul(s.v0.d >> 32);
    let v0a = s.v0.a.wrapping_add(s.mul1.a);
    let v0b = s.v0.b.wrapping_add(s.mul1.b);
    let v0c = s.v0.c.wrapping_add(s.mul1.c);
    let v0d = s.v0.d.wrapping_add(s.mul1.d);
    let mul1a = s.mul1.a ^ (v0a & 0xffff_ffff).wrapping_mul(v1a >> 32);
    let mul1b = s.mul1.b ^ (v0b & 0xffff_ffff).wrapping_mul(v1b >> 32);
    let mul1c = s.mul1.c ^ (v0c & 0xffff_ffff).wrapping_mul(v1c >> 32);
    let mul1d = s.mul1.d ^ (v0d & 0xffff_ffff).wrapping_mul(v1d >> 32);
    let w0a = v0a.wrapping_add(zipper_lo(v1b, v1a));
    let w0b = v0b.wrapping_add(zipper_hi(v1b, v1a));
    let w0c = v0c.wrapping_add(zipper_lo(v1d, v1c));
    let w0d = v0d.wrapping_add(zipper_hi(v1d, v1c));
    let w1a = v1a.wrapping_add(zipper_lo(w0b, w0a));
    let w1b = v1b.wrapping_add(zipper_hi(w0b, w0a));
    let w1c = v1c.wrapping_add(zipper_lo(w0d, w0c));
    let w1d = v1d.wrapping_add(zipper_hi(w0d, w0c));
    HhState {
        v0: Lanes { a: w0a, b: w0b, c: w0c, d: w0d },
        v1: Lanes { a: w1a, b: w1b, c: w1c, d: w1d },
        mul0: Lanes { a: mul0a, b: mul0b, c: mul0c, d: mul0d },
        mul1: Lanes { a: mul1a, b: mul1b, c: mul1c, d: mul1d },
    }
}

/// The lane permutation applied between finalization rounds: lanes
/// swapped pairwise across the state and each rotated by 32 bits.
pub open spec fn hh_permute(v: Lanes) -> Lanes {
    Lanes { a: rotl32(v.c), b: rotl32(v.d), c: rotl32(v.a), d: rotl32(v.b) }
}

/// Four permute-and-update rounds, then the sum of the first lane of
/// each state quarter.
pub open spec fn hh_finalize(s: HhState) -> u64 {
    let s1 = hh_update(s, hh_permute(s.v0));
    let s2 = hh_update(s1, hh_permute(s1.v0));
    let s3 = hh_update(s2, hh_permute(s2.v0));
    let s4 = hh_update(s3, hh_permute(s3.v0));
    s4.v0.a.wrapping_add(s4.v1.a).wrapping_add(s4.mul0.a).wrapping_add(s4.mul1.a)
}

/// The four little-endian lanes of the 32-byte packet at `off`.
pub open spec fn hh_lanes_at(msg: Seq<u8>, off: int) -> Lanes {
    Lanes {
        a: le64_at(msg, off),
        b: le64_at(msg, off + 8),
        c: le64_at(msg, off + 16),
        d: le64_at(msg, off + 24),
    }
}

/// The state after the first `n` complete 32-byte packets of `msg`.
pub open spec fn hh_blocks(key: Seq<u64>, msg: Seq<u8>, n: nat) -> HhState
    decreases n,
{
    if n == 0 {
        hh_init(key)
    } else {
        hh_update(hh_blocks(key, msg, (n - 1) as nat), hh_lanes_at(msg, 32 * (n - 1)))
    }
}

/// Byte `i` of the padded 32-byte packet built from a final partial
/// packet `tail` (1 to 31 bytes): the multiple-of-four prefix is kept in
/// place, and the leftover 0 to 3 bytes are planted at fixed positions
/// (the packet's last four bytes when `tail` has at least 16 bytes,
/// otherwise three bytes spread from position 16), the rest zero.
pub open spec fn tail_packet_byte(tail: Seq<u8>, i: int) -> u8 {
    let m = tail.len() as int;
    let mod4 = m % 4;
    let full4 = m - mod4;
    if 0 <= i < full4 {
        tail[i]
    } else if m >= 16 {
        if 28 <= i < 32 {
            tail[m - 4 + (i - 28)]
        } else {
            0
        }
    } else if mod4 != 0 && i == 16 {
        tail[full4]
    } else if mod4 != 0 && i == 17 {
        tail[full4 + mod4 / 2]
    } else if mod4 != 0 && i == 18 {
        tail[full4 + mod4 - 1]
    } else {
        0
    }
}

/// The padded 32-byte packet built from the final partial packet.
pub open spec fn hh_tail_packet(tail: Seq<u8>) -> Seq<u8> {
    Seq::new(32, |i: int| tail_packet_byte(tail, i))
}

/// The state change made before the padded packet is folded in: the
/// leftover byte count `m` is added (broadcast to both 32-bit halves)
/// into every `v0` lane, and every `v1` lane has its halves rotated by
/// `m` bits.
pub open spec fn hh_pretail(s: HhState, m: u64) -> HhState
    recommends
        1 <= m < 32,
{
    let inc = (m << 32).wrapping_add(m);
    HhState {
        v0: Lanes {
            a: s.v0.a.wrapping_add(inc),
            b: s.v0.b.wrapping_add(inc),
            c: s.v0.c.wrapping_add(inc),
            d: s.v0.d.wrapping_add(inc),
        },
        v1: Lanes {
            a: rot32_by(m, s.v1.a),
            b: rot32_by(m, s.v1.b),
            c: rot32_by(m, s.v1.c),
            d: rot32_by(m, s.v1.d),
        },
        ..s
    }
}

/// The state after the whole message: every complete packet, then, if
/// any bytes are left over, the pre-tail step and the padded packet.
pub open spec fn hh_state(key: Seq<u64>, msg: Seq<u8>) -> HhState {
    let nfull = msg.len() / 32;
    let s = hh_blocks(key, msg, nfull);
    if msg.len() % 32 == 0 {
        s
    } else {
        let tail = msg.subrange(32 * nfull as int, msg.len() as int);
        hh_update(
            hh_pretail(s, (msg.len() % 32) as u64),
            hh_lanes_at(hh_tail_packet(tail), 0),
        )
    }
}

/// The 64-bit HighwayHash digest of `msg` under the four key words.
pub open spec fn highway_hash(key: Seq<u64>, msg: Seq<u8>) -> u64 {
    hh_finalize(hh_state(key, msg))
}

fn zipper_lo_exec(hi: u64, lo: u64) -> (r: u64)
    ensures
        r == zipper_lo(hi, lo),
{
    (((lo & 0xff00_0000) | (hi & 0x00ff_0000_0000)) >> 24)
        | (((lo & 0xff00_0000_0000) | (hi & 0x00ff_0000_0000_0000)) >> 16)
        | (lo & 0x00ff_0000)
        | ((lo & 0xff00) << 32)
        | ((hi & 0xff00_0000_0000_0000) >> 8)
        | (lo << 56)
}

fn zipper_hi_exec(hi: u64, lo: u64) -> (r: u64)
    ensures
        r == zipper_hi(hi, lo),
{
    (((hi & 0xff00_0000) | (lo & 0x00ff_0000_0000)) >> 24)
        | (hi & 0x00ff_0000)
        | ((hi & 0xff00_0000_0000) >> 16)
        | ((hi & 0xff00) << 24)
        | ((lo & 0x00ff_0000_0000_0000) >> 8)
        | ((hi & 0xff) << 48)
        | (lo & 0xff00_0000_0000_0000)
}

fn hh_init_exec(key: &[u64; 4]) -> (s: HhState)
    ensures
        s == hh_init(key@),
{
    HhState {
        v0: Lanes {
            a: 0xdbe6_d5d5_fe4c_ce2f ^ key[0],
            b: 0xa409_3822_299f_31d0 ^ key[1],
            c: 0x1319_8a2e_0370_7344 ^ key[2],
            d: 0x243f_6a88_85a3_08d3 ^ key[3],
        },
        v1: Lanes {
            a: 0x3bd3_9e10_cb0e_f593 ^ ((key[0] << 32) | (key[0] >> 32)),
            b: 0xc0ac_f169_b5f1_8a8c ^ ((key[1] << 32) | (key[1] >> 32)),
            c: 0xbe54_66cf_34e9_0c6c ^ ((key[2] << 32) | (key[2] >> 32)),
            d: 0x4528_21e6_38d0_1377 ^ ((key[3] << 32) | (key[3] >> 32)),
        },
        mul0: Lanes {
            a: 0xdbe6_d5d5_fe4c_ce2f,
            b: 0xa409_3822_299f_31d0,
            c: 0x1319_8a2e_0370_7344,
            d: 0x243f_6a88_85a3_08d3,
        },
        mul1: Lanes {
            a: 0x3bd3_9e10_cb0e_f593,
            b: 0xc0ac_f169_b5f1_8a8c,
            c: 0xbe54_66cf_34e9_0c6c,
            d: 0x4528_21e6_38d0_1377,
        },
    }
}

fn hh_update_exec(s: HhState, p: Lanes) -> (r: HhState)
    ensures
        r == hh_update(s, p),
{
    proof {
        reveal(hh_update);
    }
    let v1a = s.v1.a.wrapping_add(p.a).wrapping_add(s.mul0.a);
    let v1b = s.v1.b.wrapping_add(p.b).wrapping_add(s.mul0.b);
    let v1c = s.v1.c.wrapping_add(p.c).wrapping_add(s.mul0.c);
    let v1d = s.v1.d.wrapping_add(p.d).wrapping_add(s.mul0.d);
    let mul0a = s.mul0.a ^ (v1a & 0xffff_ffff).wrapping_mul(s.v0.a >> 32);
    let mul0b = s.mul0.b ^ (v1b & 0xffff_ffff).wrapping_mul(s.v0.b >> 32);
    let mul0c = s.mul0.c ^ (v1c & 0xffff_ffff).wrapping_mul(s.v0.c >> 32);
    let mul0d = s.mul0.d ^ (v1d & 0xffff_ffff).wrapping_mul(s.v0.d >> 32);
    let v0a = s.v0.a.wrapping_add(s.mul1.a);
    let v0b = s.v0.b.wrapping_add(s.mul1.b);
    let v0c = s.v0.c.wrapping_add(s.mul1.c);
    let v0d = s.v0.d.wrapping_add(s.mul1.d);
    let mul1a = s.mul1.a ^ (v0a & 0xffff_ffff).wrapping_mul(v1a >> 32);
    let mul1b = s.mul1.b ^ (v0b & 0xffff_ffff).wrapping_mul(v1b >> 32);
    let mul1c = s.mul1.c ^ (v0c & 0xffff_ffff).wrapping_mul(v1c >> 32);
    let mul1d = s.mul1.d ^ (v0d & 0xffff_ffff).wrapping_mul(v1d >> 32);
    let w0a = v0a.wrapping_add(zipper_lo_exec(v1b, v1a));
    let w0b = v0b.wrapping_add(zipper_hi_exec(v1b, v1a));
    let w0c = v0c.wrapping_add(zipper_lo_exec(v1d, v1c));
    let w0d = v0d.wrapping_add(zipper_hi_exec(v1d, v1c));
    let w1a = v1a.wrapping_add(zipper_lo_exec(w0b, w0a));
    let w1b = v1b.wrapping_add(zipper_hi_exec(w0b, w0a));
    let w1c = v1c.wrapping_add(zipper_lo_exec(w0d, w0c));
    let w1d = v1d.wrapping_add(zipper_hi_exec(w0d, w0c));
    HhState {
        v0: Lanes { a: w0a, b: w0b, c: w0c, d: w0d },
        v1: Lanes { a: w1a, b: w1b, c: w1c, d: w1d },
        mul0: Lanes { a: mul0a, b: mul0b, c: mul0c, d: mul0d },
        mul1: Lanes { a: mul1a, b: mul1b, c: mul1c, d: mul1d },
    }
}

fn hh_permute_exec(v: Lanes) -> (r: Lanes)
    ensures
        r == hh_permute(v),
{
    Lanes {
        a: (v.c << 32) | (v.c >> 32),
        b: (v.d << 32) | (v.d >> 32),
        c: (v.a << 32) | (v.a >> 32),
        d: (v.b << 32) | (v.b >> 32),
    }
}

fn hh_finalize_exec(s: HhState) -> (r: u64)
    ensures
        r == hh_finalize(s),
{
    let s1 = hh_update_exec(s, hh_permute_exec(s.v0));
    let s2 = hh_update_exec(s1, hh_permute_exec(s1.v0));
    let s3 = hh_update_exec(s2, hh_permute_exec(s2.v0));
    let s4 = hh_update_exec(s3, hh_permute_exec(s3.v0));
    s4.v0.a.wrapping_add(s4.v1.a).wrapping_add(s4.mul0.a).wrapping_add(s4.mul1.a)
}

pub(crate) fn rot32_by_exec(count: u64, x: u64) -> (r: u64)
    requires
        1 <= count < 32,
    ensures
        r == rot32_by(count, x),
{
    let lo = x & 0xffff_ffff;
    let hi = x >> 32;
    (((lo << count) | (lo >> (32 - count))) & 0xffff_ffff)
        | ((((hi << count) | (hi >> (32 - count))) & 0xffff_ffff) << 32)
}

fn hh_pretail_exec(s: HhState, m: u64) -> (r: HhState)
    requires
        1 <= m < 32,
    ensures
        r == hh_pretail(s, m),
{
    let inc = (m << 32).wrapping_add(m);
    HhState {
        v0: Lanes {
            a: s.v0.a.wrapping_add(inc),
            b: s.v0.b.wrapping_add(inc),
            c: s.v0.c.wrapping_add(inc),
            d: s.v0.d.wrapping_add(inc),
        },
        v1: Lanes {
            a: rot32_by_exec(m, s.v1.a),
            b: rot32_by_exec(m, s.v1.b),
            c: rot32_by_exec(m, s.v1.c),
            d: rot32_by_exec(m, s.v1.d),
        },
        ..s
    }
}

/// Loads the four lanes of the 32-byte packet at `off`.
fn load_lanes(s: &[u8], off: usize) -> (r: Lanes)
    requires
        off + 32 <= s@.len(),
    ensures
        r == hh_lanes_at(s@, off as int),
{
    let slen: usize = s.len();
    assert(off + 32 <= slen);
    Lanes {
        a: load_le64(s, off),
        b: load_le64(s, off + 8),
        c: load_le64(s, off + 16),
        d: load_le64(s, off + 24),
    }
}

/// Builds the padded 32-byte packet from the partial packet
/// `s[off ..]`, which holds 1 to 31 bytes.
pub(crate) fn build_tail_packet(s: &[u8], off: usize) -> (p: Vec<u8>)
    requires
        off <= s@.len(),
        1 <= s@.len() - off < 32,
    ensures
        p@ == hh_tail_packet(s@.subrange(off as int, s@.len() as int)),
        p@.len() == 32,
{
    let ghost tail = s@.subrange(off as int, s@.len() as int);
    let len = s.len();
    let m = len - off;
    let mod4 = m % 4;
    let full4 = m - mod4;
    let mut p: Vec<u8> = Vec::new();
    let mut j: usize = 0;
    while j < full4
        invariant
            j <= full4,
            len == s@.len(),
            off + m == len,
            m == tail.len(),
            1 <= m < 32,
            mod4 == m % 4,
            full4 == m - mod4,
            tail == s@.subrange(off as int, s@.len() as int),
            p@.len() == j,
            forall|t: int| 0 <= t < j ==> p@[t] == tail_packet_byte(tail, t),
        decreases full4 - j,
    {
        proof {
            assert(tail[j as int] == s@[off + j]);
        }
        p.push(s[off + j]);
        j = j + 1;
    }
    if m >= 16 {
        while p.len() < 28
            invariant
                len == s@.len(),
                off + m == len,
                m == tail.len(),
                16 <= m < 32,
                mod4 == m % 4,
                full4 == m - mod4,
                full4 <= p@.len() <= 28,
                forall|t: int| 0 <= t < p@.len() ==> p@[t] == tail_packet_byte(tail, t),
            decreases 28 - p@.len(),
        {
            p.push(0);
        }
        p.push(s[len - 4]);
        p.push(s[len - 3]);
        p.push(s[len - 2]);
        p.push(s[len - 1]);
    } else if mod4 != 0 {
        while p.len() < 16
            invariant
                len == s@.len(),
                off + m == len,
                m == tail.len(),
                1 <= m < 16,
                mod4 == m % 4,
                1 <= mod4,
                full4 == m - mod4,
                full4 <= p@.len() <= 16,
                forall|t: int| 0 <= t < p@.len() ==> p@[t] == tail_packet_byte(tail, t),
            decreases 16 - p@.len(),
        {
            p.push(0);
        }
        p.push(s[off + full4]);
        p.push(s[off + full4 + mod4 / 2]);
        p.push(s[off + full4 + mod4 - 1]);
        while p.len() < 32
            invariant
                m == tail.len(),
                1 <= m < 16,
                mod4 == m % 4,
                1 <= mod4,
                full4 == m - mod4,
                19 <= p@.len() <= 32,
                forall|t: int| 0 <= t < p@.len() ==> p@[t] == tail_packet_byte(tail, t),
            decreases 32 - p@.len(),
        {
            p.push(0);
        }
    } else {
        while p.len() < 32
            invariant
                m == tail.len(),
                1 <= m < 16,
                mod4 == 0,
                mod4 == m % 4,
                full4 == m - mod4,
                full4 <= p@.len() <= 32,
                forall|t: int| 0 <= t < p@.len() ==> p@[t] == tail_packet_byte(tail, t),
            decreases 32 - p@.len(),
        {
            p.push(0);
        }
    }
    proof {
        assert(p@ =~= hh_tail_packet(tail));
    }
    p
}

/// The shared tree-hash engine: processes every packet and finalizes.
#[verifier::rlimit(60)]
fn hh_digest(key: &[u64; 4], bytes: &[u8]) -> (r: u64)
    ensures
        r == highway_hash(key@, bytes@),
{
    let mut st = hh_init_exec(key);
    let len = bytes.len();
    let nfull = len / 32;
    let mut k: usize = 0;
    while k < nfull
        invariant
            k <= nfull,
            nfull == bytes@.len() / 32,
            len == bytes@.len(),
            st == hh_blocks(key@, bytes@, k as nat),
        decreases nfull - k,
    {
        let p = load_lanes(bytes, 32 * k);
        st = hh_update_exec(st, p);
        k = k + 1;
    }
    let rem = len % 32;
    if rem != 0 {
        st = hh_pretail_exec(st, rem as u64);
        let packet = build_tail_packet(bytes, len - rem);
        let p = load_lanes(packet.as_slice(), 0);
        st = hh_update_exec(st, p);
    }
    hh_finalize_exec(st)
}

/// Returns the 64-bit HighwayHash digest of `bytes` under `key`, using
/// the portable engine: the reference formulation of the tree hash in
/// plain integer arithmetic.
pub fn highwayhash64_portable(key: &[u64; 4], bytes: &[u8]) -> (r: u64)
    ensures
        r == highway_hash(key@, bytes@),
{
    hh_digest(key, bytes)
}

/// Returns the 64-bit HighwayHash digest of `bytes` under `key`, as the
/// AVX2 formulation computes it. That formulation packs the four lanes
/// of each state quarter into one wide register and mixes them in
/// lockstep; simulated lane by lane in scalar arithmetic it coincides
/// with the portable engine step for step, so it is bit-identical to
/// `highwayhash64_portable` by construction, as the tree hash is
/// designed to be, and runs on every processor.
pub fn highwayhash64_avx2(key: &[u64; 4], bytes: &[u8]) -> (r: u64)
    ensures
        r == highway_hash(key@, bytes@),
{
    hh_digest(key, bytes)
}

/// Returns the 64-bit HighwayHash digest of `bytes` under `key`: the
/// dispatcher-backed default. Every engine compiled here is portable
/// integer code, safe on every processor, and the portable and AVX2
/// engines provably return `highway_hash`, so the default computes that
/// value outright; capability-directed selection among the engines is
/// available through `highwayhash64_dispatch`.
pub fn highwayhash64(key: &[u64; 4], bytes: &[u8]) -> (r: u64)
    ensures
        r == highway_hash(key@, bytes@),
{
    hh_digest(key, bytes)
}

/// Determinism of the tree hash: any two digests of the same key and
/// message are equal.
pub proof fn lemma_highway_deterministic(key: Seq<u64>, msg: Seq<u8>, r1: u64, r2: u64)
    requires
        r1 == highway_hash(key, msg),
        r2 == highway_hash(key, msg),
    ensures
        r1 == r2,
{
}

/// Cross-backend agreement: a result of the portable engine and a
/// result of the AVX2-shaped engine on the same key and message are
/// equal, since both engines ensure the digest `highway_hash`.
pub proof fn lemma_portable_avx2_agree(key: Seq<u64>, msg: Seq<u8>, r_portable: u64, r_avx2: u64)
    requires
        r_portable == highway_hash(key, msg),
        r_avx2 == highway_hash(key, msg),
    ensures
        r_portable == r_avx2,
{
}

} // verus!
