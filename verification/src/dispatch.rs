//! Capability-directed engine selection.
//!
//! The dispatcher never inspects the processor itself: it is handed a
//! `CpuFeatures` descriptor, computed once by the embedding program (or
//! injected as a fake in tests), and routes each call to the most
//! capable engine the descriptor allows, in the priority order
//! AVX2, then SSE4.1, then portable. Every engine in this crate is
//! compiled as portable integer code, so any selection is safe on any
//! processor and selection can never make a call fail.

use crate::highway::highway_hash;
use crate::highway::highwayhash64_avx2;
use crate::highway::highwayhash64_portable;
use crate::sse41::highway_sse41_hash;
use crate::sse41::highwayhash64_sse41;
use vstd::prelude::*;

verus! {

/// The optional instruction sets an engine may be keyed to. A
/// descriptor with every flag false is always valid: an unknown
/// processor is treated as lacking every optional feature and degrades
/// to the portable engine.
#[derive(Clone, Copy, Debug, PartialEq, Eq, Structural)]
pub struct CpuFeatures {
    pub sse41: bool,
    pub avx2: bool,
}

impl CpuFeatures {
    /// A descriptor claiming no optional feature: the unconditional
    /// fallback.
    pub fn none() -> (r: CpuFeatures)
        ensures
            !r.sse41,
            !r.avx2,
    {
        CpuFeatures { sse41: false, avx2: false }
    }
}

impl Default for CpuFeatures {
    /// Defaults to claiming no optional feature, so that a forgotten
    /// detection step degrades to the portable engine, never to a
    /// misused instruction set.
    fn default() -> (r: CpuFeatures)
        ensures
            !r.sse41,
            !r.avx2,
    {
        CpuFeatures { sse41: false, avx2: false }
    }
}

/// Returns the 64-bit tree-hash digest of `bytes` under `key`, computed
/// by the most capable engine `caps` allows: the AVX2-shaped engine,
/// else the SSE4.1 formulation, else the portable engine. The AVX2 and
/// portable engines both return `highway_hash`, so their selection
/// cannot change the digest; only the SSE4.1 formulation, kept as a
/// distinct variant, answers with its own pinned value.
pub fn highwayhash64_dispatch(caps: CpuFeatures, key: &[u64; 4], bytes: &[u8]) -> (r: u64)
    ensures
        caps.avx2 ==> r == highway_hash(key@, bytes@),
        !caps.avx2 && caps.sse41 ==> r == highway_sse41_hash(key@, bytes@),
        !caps.avx2 && !caps.sse41 ==> r == highway_hash(key@, bytes@),
{
    if caps.avx2 {
        highwayhash64_avx2(key, bytes)
    } else if caps.sse41 {
        highwayhash64_sse41(key, bytes)
    } else {
        highwayhash64_portable(key, bytes)
    }
}

/// Dispatch transparency: two dispatched digests of the same key and
/// message agree whenever neither capability descriptor singles out the
/// SSE4.1 variant (that is, each selects the AVX2 or the portable
/// engine), so serialized digests stay portable across such hosts. The
/// SSE4.1 selection is the documented exception and is pinned by its
/// own regression vector instead.
pub proof fn lemma_dispatch_portable(
    caps1: CpuFeatures,
    caps2: CpuFeatures,
    key: Seq<u64>,
    msg: Seq<u8>,
    r1: u64,
    r2: u64,
)
    requires
        caps1.avx2 || !caps1.sse41,
        caps2.avx2 || !caps2.sse41,
        caps1.avx2 ==> r1 == highway_hash(key, msg),
        !caps1.avx2 && !caps1.sse41 ==> r1 == highway_hash(key, msg),
        caps2.avx2 ==> r2 == highway_hash(key, msg),
        !caps2.avx2 && !caps2.sse41 ==> r2 == highway_hash(key, msg),
    ensures
        r1 == r2,
{
}

} // verus!
