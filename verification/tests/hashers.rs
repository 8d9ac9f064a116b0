use std::hash::Hasher;

use stdlib_rs::crypto::adler::Adler32Hasher;
use stdlib_rs::crypto::fnv::{Fnv32Hasher, Fnv64Hasher};

#[test]
fn adler_empty() {
    let mut hasher = Adler32Hasher::default();
    hasher.write(b"");
    assert_eq!(hasher.finish(), 1);
}

#[test]
fn test_123() {
    let mut hasher = Adler32Hasher::default();
    hasher.write(b"123");
    assert_eq!(hasher.finish(), 19726487);
}

#[test]
fn fnv_empty() {
    let mut wide = Fnv64Hasher::default();
    wide.write(b"");
    assert_eq!(wide.finish(), 14695981039346656037);
    let mut narrow = Fnv32Hasher::default();
    narrow.write(b"");
    assert_eq!(narrow.finish(), 2166136261);
}

#[test]
fn adler_of_a_word() {
    let mut hasher = Adler32Hasher::default();
    hasher.write(b"Wikipedia");
    assert_eq!(hasher.finish(), 0x11E60398);
}

#[test]
fn adler_in_two_writes() {
    let mut hasher = Adler32Hasher::seed(65521);
    hasher.write(b"Wiki");
    hasher.write(b"pedia");
    assert_eq!(hasher.finish(), 300286872);
}

#[test]
fn adler_sums_wrap_at_the_modulus() {
    let bytes = [255u8; 6000];
    let mut hasher = Adler32Hasher::default();
    hasher.write(&bytes);
    assert_eq!(hasher.finish(), 2761382378);
}

#[test]
fn adler_with_a_small_seed() {
    let mut hasher = Adler32Hasher::seed(13);
    hasher.write(b"abc");
    assert_eq!(hasher.finish(), 262153);
    let mut one = Adler32Hasher::seed(1);
    one.write(&[255, 255, 255]);
    assert_eq!(one.finish(), 0);
}

#[test]
fn fnv32_known_values() {
    let mut hasher = Fnv32Hasher::default();
    hasher.write(b"a");
    assert_eq!(hasher.finish(), 0xe40c292c);
    let mut hasher = Fnv32Hasher::default();
    hasher.write(b"foobar");
    assert_eq!(hasher.finish(), 0xbf9cf968);
}

#[test]
fn fnv64_known_values() {
    let mut hasher = Fnv64Hasher::default();
    hasher.write(b"a");
    assert_eq!(hasher.finish(), 0xaf63dc4c8601ec8c);
    let mut hasher = Fnv64Hasher::default();
    hasher.write(b"foobar");
    assert_eq!(hasher.finish(), 0x85944171f73967e8);
}

#[test]
fn fnv_seeded_and_split() {
    let mut narrow = Fnv32Hasher::seed(7);
    narrow.write(b"a");
    narrow.write(b"b");
    assert_eq!(narrow.finish(), 2197641680);
    let mut wide = Fnv64Hasher::seed(7);
    wide.write(b"ab");
    assert_eq!(wide.finish(), 97533278472784016);
    assert_eq!(Fnv32Hasher::seed(9).finish(), 9);
    assert_eq!(Fnv64Hasher::seed(9).finish(), 9);
}

#[test]
fn adler_is_steady_up_to_the_limit() {
    assert!(Adler32Hasher::default().is_steady());
    assert!(Adler32Hasher::seed(1).is_steady());
    assert!(Adler32Hasher::seed(0x8000_0000).is_steady());
    assert!(!Adler32Hasher::seed(0).is_steady());
    assert!(!Adler32Hasher::seed(0x8000_0001).is_steady());
    let mut hasher = Adler32Hasher::seed(0x8000_0000);
    hasher.write(&[255; 16]);
    assert!(hasher.is_steady());
}
