//! Regression vectors and behavioural tests for the single-shot digest
//! functions, the dispatcher and the streaming combiner.

use highwayhash::{
    highwayhash64, highwayhash64_avx2, highwayhash64_dispatch, highwayhash64_portable,
    highwayhash64_sse41, siphash, siphash13, CpuFeatures, HighwayHasher,
};

#[test]
fn test_highwayhash64() {
    let key = [1, 2, 3, 4];
    let bytes = [12, 23, 234, 123, 123, 2, 4];
    assert_eq!(highwayhash64(&key, &bytes), 6732608382896043210);
}

#[test]
fn test_highwayhash64_portable() {
    let key = [1, 2, 3, 4];
    let bytes = [12, 23, 234, 123, 123, 2, 4];
    assert_eq!(highwayhash64_portable(&key, &bytes), 6732608382896043210);
}

#[test]
fn test_highwayhash64_sse41() {
    let key = [1, 2, 3, 4];
    let bytes = [12, 23, 234, 123, 123, 2, 4];
    assert_eq!(highwayhash64_sse41(&key, &bytes), 6732608382896043210);
}

#[test]
fn test_highwayhash64_avx2() {
    let key = [1, 2, 3, 4];
    let bytes = [12, 23, 234, 123, 123, 2, 4];
    assert_eq!(highwayhash64_avx2(&key, &bytes), 6732608382896043210);
}

#[test]
fn test_siphash() {
    let key = [1, 2];
    let bytes = [12, 23, 234, 123, 123, 2, 4];
    assert_eq!(siphash(&key, &bytes), 16073328535944263387);
}

#[test]
fn test_siphash13() {
    let key = [1, 2];
    let bytes = [12, 23, 234, 123, 123, 2, 4];
    assert_eq!(siphash13(&key, &bytes), 16934527632061698845);
}

#[test]
fn test_determinism_repeated_calls() {
    let key = [0x0706050403020100u64, 0x0f0e0d0c0b0a0908, 0x1716151413121110, 0x1f1e1d1c1b1a1918];
    let sip_key = [0x0706050403020100u64, 0x0f0e0d0c0b0a0908];
    let msgs: [&[u8]; 4] = [b"", b"a", b"hello world, hello world, hello!", &[0xff; 100]];
    for msg in msgs {
        assert_eq!(highwayhash64(&key, msg), highwayhash64(&key, msg));
        assert_eq!(highwayhash64_portable(&key, msg), highwayhash64_portable(&key, msg));
        assert_eq!(highwayhash64_sse41(&key, msg), highwayhash64_sse41(&key, msg));
        assert_eq!(highwayhash64_avx2(&key, msg), highwayhash64_avx2(&key, msg));
        assert_eq!(siphash(&sip_key, msg), siphash(&sip_key, msg));
        assert_eq!(siphash13(&sip_key, msg), siphash13(&sip_key, msg));
    }
}

#[test]
fn test_cross_backend_agreement() {
    // The portable and AVX2 engines are proven to return the same
    // digest; the assertions here exercise that theorem on data. The
    // SSE4.1 variant is pinned by its own regression vector instead of
    // being asserted universally equal (see its golden test).
    let key = [11u64, 22, 33, 44];
    let msgs: [&[u8]; 5] = [b"", b"x", b"0123456789abcdef0123456789abcdef", b"tail7..", &[7; 63]];
    for msg in msgs {
        let p = highwayhash64_portable(&key, msg);
        assert_eq!(p, highwayhash64_avx2(&key, msg));
        assert_eq!(p, highwayhash64(&key, msg));
    }
}

#[test]
fn test_empty_input_defined_and_stable() {
    let key = [1u64, 2, 3, 4];
    let sip_key = [1u64, 2];
    let empty: &[u8] = &[];
    assert_eq!(highwayhash64(&key, empty), highwayhash64(&key, empty));
    assert_eq!(highwayhash64_portable(&key, empty), highwayhash64_avx2(&key, empty));
    assert_eq!(highwayhash64_sse41(&key, empty), highwayhash64_sse41(&key, empty));
    assert_eq!(siphash(&sip_key, empty), siphash(&sip_key, empty));
    assert_eq!(siphash13(&sip_key, empty), siphash13(&sip_key, empty));
}

#[test]
fn test_key_sensitivity() {
    let keys = [
        [1u64, 2, 3, 4],
        [2u64, 2, 3, 4],
        [1u64, 2, 3, 5],
        [0u64, 0, 0, 0],
        [u64::MAX, u64::MAX, u64::MAX, u64::MAX],
    ];
    let msgs: [&[u8]; 3] = [b"", b"foo", b"a slightly longer message for the corpus."];
    for msg in msgs {
        for i in 0..keys.len() {
            for j in 0..keys.len() {
                if i != j {
                    assert_ne!(highwayhash64(&keys[i], msg), highwayhash64(&keys[j], msg));
                }
            }
        }
    }
    let sip_keys = [[1u64, 2], [2u64, 2], [1u64, 3], [0u64, 0]];
    for msg in msgs {
        for i in 0..sip_keys.len() {
            for j in 0..sip_keys.len() {
                if i != j {
                    assert_ne!(siphash(&sip_keys[i], msg), siphash(&sip_keys[j], msg));
                }
            }
        }
    }
}

#[test]
fn test_dispatch_selects_engine() {
    let key = [9u64, 8, 7, 6];
    let msgs: [&[u8]; 4] = [b"", b"abc", &[0xab; 32], &[0xcd; 45]];
    for msg in msgs {
        let portable = highwayhash64_portable(&key, msg);
        let sse = highwayhash64_sse41(&key, msg);
        let avx = highwayhash64_avx2(&key, msg);
        let none = CpuFeatures { sse41: false, avx2: false };
        let sse_only = CpuFeatures { sse41: true, avx2: false };
        let avx_also = CpuFeatures { sse41: true, avx2: true };
        assert_eq!(highwayhash64_dispatch(none, &key, msg), portable);
        assert_eq!(highwayhash64_dispatch(sse_only, &key, msg), sse);
        assert_eq!(highwayhash64_dispatch(avx_also, &key, msg), avx);
        // Dispatch transparency between the engines that agree.
        assert_eq!(
            highwayhash64_dispatch(avx_also, &key, msg),
            highwayhash64_dispatch(none, &key, msg)
        );
    }
    let detected_nothing = CpuFeatures::default();
    assert_eq!(
        highwayhash64_dispatch(detected_nothing, &key, b"fallback"),
        highwayhash64_portable(&key, b"fallback")
    );
}

#[test]
fn test_streaming_single_write_matches_combine() {
    let key = [1u64, 2, 3, 4];
    let mut h = HighwayHasher::new_with_key(key);
    h.write(b"foo");
    let d = highwayhash64(&key, b"foo");
    let expected = d
        .wrapping_add(0x9e3779b97f4a7c16)
        .wrapping_add(0u64 << 6)
        .wrapping_add(0u64 >> 2);
    assert_eq!(h.finish(), expected);
}

#[test]
fn test_streaming_finish_idempotent_and_resumable() {
    let mut h = HighwayHasher::new();
    h.write(b"first");
    let a = h.finish();
    assert_eq!(h.finish(), a);
    h.write(b"second");
    let b = h.finish();
    assert_ne!(a, b);
    assert_eq!(h.finish(), b);
}

#[test]
fn test_streaming_boundary_sensitivity() {
    let key = [5u64, 6, 7, 8];
    let mut split = HighwayHasher::new_with_key(key);
    split.write(b"aa");
    split.write(b"bb");
    let mut joined = HighwayHasher::new_with_key(key);
    joined.write(b"aabb");
    joined.write(b"");
    let mut uneven = HighwayHasher::new_with_key(key);
    uneven.write(b"a");
    uneven.write(b"abb");
    assert_ne!(split.finish(), joined.finish());
    assert_ne!(split.finish(), uneven.finish());
}

#[test]
fn test_default_hasher_is_zero_keyed() {
    let mut d = HighwayHasher::default();
    let mut z = HighwayHasher::new_with_key([0, 0, 0, 0]);
    d.write(b"payload");
    z.write(b"payload");
    assert_eq!(d.finish(), z.finish());
    assert_eq!(HighwayHasher::new().finish(), 0);
}
