use p2pchat::bridge::{
    base64_decode, base64_encode, ed25519_verify, generate_ed25519_keypair, keypair_encoding_valid, keypair_public_key,
    new_uuid, parse_datetime_seconds, parse_uuid, sign_with_keypair, uuid_text,
};

#[test]
fn base64_known_values() {
    assert_eq!(base64_encode(b"hello"), "aGVsbG8=");
    assert_eq!(base64_encode(&[]), "");
    assert_eq!(base64_decode("aGVsbG8="), Some(b"hello".to_vec()));
    assert_eq!(base64_decode("not base64!"), None);
}

#[test]
fn base64_roundtrip() {
    let bytes: Vec<u8> = (0u8..=255).collect();
    assert_eq!(base64_decode(&base64_encode(&bytes)), Some(bytes));
}

#[test]
fn datetime_parsing() {
    assert_eq!(parse_datetime_seconds("1970-01-01 00:01:00", "%Y-%m-%d %H:%M:%S"), Some(60));
    assert_eq!(parse_datetime_seconds("2024-01-01 00:00:00", "%Y-%m-%d %H:%M:%S"), Some(1_704_067_200));
    assert_eq!(parse_datetime_seconds("yesterday", "%Y-%m-%d %H:%M:%S"), None);
}

#[test]
fn uuid_parsing() {
    assert_eq!(parse_uuid("00000000-0000-0000-0000-000000000001"), Some(1));
    assert_eq!(parse_uuid("67e55044-10b1-426f-9247-bb680e5fe0c8"), Some(0x67e55044_10b1_426f_9247_bb680e5fe0c8));
    assert_eq!(parse_uuid("not a uuid"), None);
}

#[test]
fn fresh_uuids_differ() {
    assert_ne!(new_uuid(), new_uuid());
}

#[test]
fn generated_keypair_signs_and_verifies() {
    let key = generate_ed25519_keypair();
    assert_eq!(key.len(), 68);
    assert!(keypair_encoding_valid(&key));
    assert!(!keypair_encoding_valid(&[0, 1, 2]));
    let sig = sign_with_keypair(&key, b"message").unwrap();
    assert_eq!(sig.len(), 64);
    // The protobuf public key ends with the 32 raw key bytes.
    let pk = keypair_public_key(&key).unwrap();
    let raw = &pk[pk.len() - 32..];
    assert_eq!(ed25519_verify(raw, b"message", &sig), Some(true));
    assert_eq!(ed25519_verify(raw, b"other message", &sig), Some(false));
    assert_eq!(ed25519_verify(&[1, 2, 3], b"message", &sig), None);
    assert_eq!(sign_with_keypair(&[1, 2, 3], b"message"), None);
}

#[test]
fn uuid_text_reads_back() {
    let v = 0xfeed_beef_0000_4000_8000_0123_4567_89ab;
    let t = uuid_text(v);
    assert_eq!(t, "feedbeef-0000-4000-8000-0123456789ab");
    assert_eq!(parse_uuid(&t), Some(v));
}
