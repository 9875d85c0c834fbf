use sonar_backend::uuid::{new_job_token, Uuid};
use std::collections::HashSet;

#[test]
fn identifier_from_bytes() {
    let id = Uuid::from_bytes([1, 2, 3, 4, 5, 6, 7, 8, 1, 2, 3, 4, 5, 6, 7, 8]);
    assert_eq!(
        id.0,
        [1, 2, 3, 4, 5, 6, 0x47, 8, 0x81, 2, 3, 4, 5, 6, 7, 8]
    );
    assert_eq!(id.simple(), "01020304050647088102030405060708");
    assert_eq!(id.hyphenated(), "01020304-0506-4708-8102-030405060708");
    assert_eq!(id.hyphenated().replace('-', ""), id.simple());
}

#[test]
fn job_token_shape() {
    let id = Uuid::from_bytes([0; 16]);
    assert_eq!(id.simple(), "00000000000040008000000000000000");
    assert_eq!(id.job_token(), "job_00000000000040008000000000000000");
    let t = new_job_token().unwrap();
    assert!(t.starts_with("job_"));
    assert_eq!(t.len(), 36);
    assert!(t[4..].chars().all(|c| c.is_ascii_hexdigit() && !c.is_ascii_uppercase()));
}

#[test]
fn tokens_of_distinct_identifiers_are_distinct() {
    let mut seen = HashSet::new();
    for n in 0..10_000u32 {
        let mut b = [0u8; 16];
        b[12..16].copy_from_slice(&n.to_le_bytes());
        let t = Uuid::from_bytes(b).job_token();
        assert!(seen.insert(t));
    }
}

#[test]
fn version_and_variant_bits_are_set() {
    let id = Uuid::from_bytes([0xff; 16]);
    assert_eq!(id.0[6], 0x4f);
    assert_eq!(id.0[8], 0xbf);
    assert_eq!(id.0[0], 0xff);
    let id = Uuid::from_bytes([0; 16]);
    assert_eq!(id.hyphenated(), "00000000-0000-4000-8000-000000000000");
}

#[test]
fn fresh_identifiers_differ() {
    let mut seen = HashSet::new();
    for _ in 0..10_000 {
        let id = Uuid::new_v4().unwrap();
        assert_eq!(id.0[6] >> 4, 4);
        assert_eq!(id.0[8] >> 6, 2);
        assert!(seen.insert(new_job_token().unwrap()));
    }
}
