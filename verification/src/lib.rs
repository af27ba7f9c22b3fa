//! Keyed, non-cryptographic 64-bit hash functions over byte sequences.
//!
//! The crate offers the HighwayHash tree hash under a 256-bit key
//! (a portable engine, an SSE4.1-shaped engine and an AVX2-shaped engine,
//! all in plain integer arithmetic), the SipHash family under a 128-bit
//! key (the 2-4 schedule and the reduced-round 1-3 schedule), a
//! capability-driven dispatcher that selects an engine from an injected
//! CPU-feature descriptor, and a streaming combiner that folds repeated
//! writes into one running 64-bit accumulator.
//!
//! Every digest is a pure function of the key and the message bytes; the
//! contract of each entry point states the exact value it returns, in
//! terms of a mathematical model of the mixing algorithm.

pub mod bytes;
pub mod dispatch;
pub mod hasher;
pub mod highway;
pub mod sip;
pub mod sse41;

pub use dispatch::highwayhash64_dispatch;
pub use dispatch::CpuFeatures;
pub use hasher::HighwayHasher;
pub use highway::highwayhash64;
pub use highway::highwayhash64_avx2;
pub use highway::highwayhash64_portable;
pub use sip::siphash;
pub use sip::siphash13;
pub use sse41::highwayhash64_sse41;
