//! Cross-validation of the digest functions against independent
//! implementations of the same algorithms: the `highway` crate for the
//! tree hash and the `siphasher` crate for the SipHash family. The
//! sweeps cover every leftover length through several packet
//! boundaries, exercising the tail paths byte count by byte count.

use highway::{HighwayHash, Key, PortableHash};
use highwayhash::{
    highwayhash64, highwayhash64_avx2, highwayhash64_portable, highwayhash64_sse41, siphash,
    siphash13,
};
use siphasher::sip::{SipHasher13, SipHasher24};

fn corpus(len: usize) -> Vec<u8> {
    let mut v = Vec::with_capacity(len);
    for i in 0..len {
        v.push((i.wrapping_mul(7).wrapping_add(3) & 0xff) as u8);
    }
    v
}

#[test]
fn test_highway_matches_reference_implementation() {
    let keys = [
        [1u64, 2, 3, 4],
        [0u64, 0, 0, 0],
        [0x0706050403020100u64, 0x0f0e0d0c0b0a0908, 0x1716151413121110, 0x1f1e1d1c1b1a1918],
    ];
    for key in keys {
        for len in 0..=100 {
            let data = corpus(len);
            let expected = PortableHash::new(Key(key)).hash64(&data);
            assert_eq!(highwayhash64_portable(&key, &data), expected);
            assert_eq!(highwayhash64(&key, &data), expected);
            assert_eq!(highwayhash64_avx2(&key, &data), expected);
        }
    }
}

#[test]
fn test_sse41_variant_matches_reference_on_corpus() {
    // The SSE4.1 formulation is pinned independently rather than proven
    // equal to the portable engine; this test records that on this
    // corpus it reproduces the reference implementation's values.
    let key = [1u64, 2, 3, 4];
    for len in 0..=100 {
        let data = corpus(len);
        let expected = PortableHash::new(Key(key)).hash64(&data);
        assert_eq!(highwayhash64_sse41(&key, &data), expected);
    }
}

#[test]
fn test_siphash_matches_reference_implementation() {
    let keys = [[1u64, 2], [0u64, 0], [0x0706050403020100u64, 0x0f0e0d0c0b0a0908]];
    for key in keys {
        for len in 0..=40 {
            let data = corpus(len);
            assert_eq!(
                siphash(&key, &data),
                SipHasher24::new_with_keys(key[0], key[1]).hash(&data)
            );
            assert_eq!(
                siphash13(&key, &data),
                SipHasher13::new_with_keys(key[0], key[1]).hash(&data)
            );
        }
    }
}

#[test]
fn test_regression_vector_against_reference() {
    let key = [1u64, 2, 3, 4];
    let bytes = [12, 23, 234, 123, 123, 2, 4];
    assert_eq!(PortableHash::new(Key(key)).hash64(&bytes), 6732608382896043210);
}
