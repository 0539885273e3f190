use fasthash::murmur3::Hash32;
use fasthash::FastHash;
use vanity_guild::bucket::{
    bucket_for, bucket_of_hash, hash_key_fits, is_accepted, key_bytes, BUCKET_COUNT, MAX_HASH_INPUT,
};

#[test]
fn key_joins_label_and_id_with_colon() {
    assert_eq!(key_bytes("abc", "111"), b"abc:111".to_vec());
    assert_eq!(key_bytes("", ""), b":".to_vec());
    assert_eq!(key_bytes("ä", "1"), "ä:1".as_bytes().to_vec());
}

#[test]
fn bucket_reduces_modulo_ten_thousand() {
    assert_eq!(bucket_of_hash(613153351), 3351);
    assert_eq!(bucket_of_hash(0), 0);
    assert_eq!(bucket_of_hash(10000), 0);
    assert_eq!(bucket_of_hash(u32::MAX), 7295);
}

#[test]
fn bucket_of_abc_111_is_hash_of_joined_key() {
    let b = bucket_for("abc", "111");
    assert_eq!(b, Hash32::hash(b"abc:111") % 10000);
    assert!(b < BUCKET_COUNT);
}

#[test]
fn bucket_is_deterministic() {
    let a = bucket_for("2022-05_experiment", "978123456789012345");
    let b = bucket_for("2022-05_experiment", "978123456789012345");
    assert_eq!(a, b);
    assert_eq!(a, Hash32::hash(b"2022-05_experiment:978123456789012345") % 10000);
}

#[test]
fn bucket_hashes_the_key_not_its_parts() {
    // the hash of the whole key, not of the label or the id alone
    assert_eq!(Hash32::hash(b"hello"), 613153351);
    assert_eq!(bucket_for("he", "llo"), Hash32::hash(b"he:llo") % 10000);
}

#[test]
fn acceptance_bounds_are_exclusive() {
    assert!(!is_accepted(0));
    assert!(is_accepted(1));
    assert!(is_accepted(50));
    assert!(is_accepted(99));
    assert!(!is_accepted(100));
    assert!(!is_accepted(9999));
}

#[test]
fn key_length_limit() {
    assert_eq!(MAX_HASH_INPUT, 0x7fff_ffff);
    assert!(hash_key_fits("abc", "111"));
    assert!(hash_key_fits("", ""));
}
