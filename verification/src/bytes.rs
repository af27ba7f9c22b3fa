//! Little-endian loading of 64-bit lanes from byte sequences.
//!
//! Both hash families consume their input as little-endian 64-bit words;
//! the spec functions here are the single definition of that decoding,
//! and the executable loaders are proved to match them.

use vstd::prelude::*;

verus! {

/// The 64-bit word formed by the eight bytes `s[off .. off + 8]` in
/// little-endian order.
pub open spec fn le64_at(s: Seq<u8>, off: int) -> u64 {
    (s[off] as u64) | ((s[off + 1] as u64) << 8) | ((s[off + 2] as u64) << 16)
        | ((s[off + 3] as u64) << 24) | ((s[off + 4] as u64) << 32)
        | ((s[off + 5] as u64) << 40) | ((s[off + 6] as u64) << 48)
        | ((s[off + 7] as u64) << 56)
}

/// The 64-bit word formed by the `n` bytes `s[off .. off + n]` in
/// little-endian order, `n` at most 8; the remaining high bytes are zero.
pub open spec fn le_partial(s: Seq<u8>, off: int, n: nat) -> u64
    decreases n,
{
    if n == 0 {
        0u64
    } else {
        le_partial(s, off, (n - 1) as nat) | ((s[off + n - 1] as u64) << (8 * (n - 1)))
    }
}

/// Loads the eight bytes at `off` as a little-endian 64-bit word.
pub fn load_le64(s: &[u8], off: usize) -> (r: u64)
    requires
        off + 8 <= s@.len(),
    ensures
        r == le64_at(s@, off as int),
{
    (s[off] as u64) | ((s[off + 1] as u64) << 8) | ((s[off + 2] as u64) << 16)
        | ((s[off + 3] as u64) << 24) | ((s[off + 4] as u64) << 32)
        | ((s[off + 5] as u64) << 40) | ((s[off + 6] as u64) << 48)
        | ((s[off + 7] as u64) << 56)
}

/// Loads the `n` bytes at `off` as a little-endian 64-bit word, `n < 8`.
pub fn load_le_partial(s: &[u8], off: usize, n: usize) -> (r: u64)
    requires
        n < 8,
        off + n <= s@.len(),
    ensures
        r == le_partial(s@, off as int, n as nat),
{
    let slen = s.len();
    let mut acc: u64 = 0;
    let mut i: usize = 0;
    while i < n
        invariant
            i <= n,
            n < 8,
            off + n <= slen == s@.len(),
            acc == le_partial(s@, off as int, i as nat),
        decreases n - i,
    {
        acc = acc | ((s[off + i] as u64) << (8 * i));
        i = i + 1;
    }
    acc
}

} // verus!
