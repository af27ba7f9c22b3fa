//! The streaming combiner driven through `std::hash::Hasher`, as a
//! hash-table hasher would drive it.

use highwayhash::HighwayHasher;
use std::hash::{Hash, Hasher};

struct HighwayStdHasher(HighwayHasher);

impl Hasher for HighwayStdHasher {
    fn finish(&self) -> u64 {
        self.0.finish()
    }

    fn write(&mut self, msg: &[u8]) {
        self.0.write(msg);
    }
}

fn hash<T: Hash>(x: &T) -> u64 {
    let mut st = HighwayStdHasher(HighwayHasher::new());
    x.hash(&mut st);
    st.finish()
}

fn zero_byte_64(val: u64, byte: usize) -> u64 {
    assert!(byte < 8);
    val & !(0xff << (byte * 8))
}

fn zero_byte_32(val: u32, byte: usize) -> u32 {
    assert!(byte < 4);
    val & !(0xff << (byte * 8))
}

#[test]
fn lib_test_hash_usize() {
    let val = 0xdeadbeef_deadbeef_u64;
    assert_eq!(hash(&(val as u64)), hash(&(val as usize)));
    assert!(hash(&(val as u32)) != hash(&(val as usize)));
}

#[test]
fn test_hash_idempotent() {
    let val64 = 0xdeadbeef_deadbeef_u64;
    assert_eq!(hash(&val64), hash(&val64));
    let val32 = 0xdeadbeef_u32;
    assert_eq!(hash(&val32), hash(&val32));
}

#[test]
fn test_hash_no_bytes_dropped_64() {
    let val = 0xdeadbeef_deadbeef_u64;

    assert!(hash(&val) != hash(&zero_byte_64(val, 0)));
    assert!(hash(&val) != hash(&zero_byte_64(val, 1)));
    assert!(hash(&val) != hash(&zero_byte_64(val, 2)));
    assert!(hash(&val) != hash(&zero_byte_64(val, 3)));
    assert!(hash(&val) != hash(&zero_byte_64(val, 4)));
    assert!(hash(&val) != hash(&zero_byte_64(val, 5)));
    assert!(hash(&val) != hash(&zero_byte_64(val, 6)));
    assert!(hash(&val) != hash(&zero_byte_64(val, 7)));
}

#[test]
fn test_hash_no_bytes_dropped_32() {
    let val = 0xdeadbeef_u32;

    assert!(hash(&val) != hash(&zero_byte_32(val, 0)));
    assert!(hash(&val) != hash(&zero_byte_32(val, 1)));
    assert!(hash(&val) != hash(&zero_byte_32(val, 2)));
    assert!(hash(&val) != hash(&zero_byte_32(val, 3)));
}

#[test]
fn test_hash_no_concat_alias() {
    let s = ("aa", "bb");
    let t = ("aabb", "");
    let u = ("a", "abb");

    assert!(s != t && t != u);
    assert!(hash(&s) != hash(&t) && hash(&s) != hash(&u));

    let u = [1, 0, 0, 0];
    let v = (&u[..1], &u[1..3], &u[3..]);
    let w = (&u[..], &u[4..4], &u[4..4]);

    assert!(v != w);
    assert!(hash(&v) != hash(&w));
}
