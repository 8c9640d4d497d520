use p2pchat::bridge::{generate_ed25519_keypair, keypair_public_key, sign_with_keypair};
use p2pchat::signable::{sign, Signed};

#[test]
fn signing_keeps_value_key_and_signature() {
    let key = generate_ed25519_keypair();
    let signed = sign(7u32, b"7", &key).unwrap();
    assert_eq!(*signed.content(), 7);
    assert_eq!(signed.pub_key(), &key);
    assert_eq!(signed.sig(), &sign_with_keypair(&key, b"7").unwrap());
    assert!(sign(7u32, b"7", &vec![1, 2, 3]).is_none());
}

#[test]
fn verification_with_raw_public_key() {
    let key = generate_ed25519_keypair();
    let sig = sign_with_keypair(&key, b"payload").unwrap();
    let pk = keypair_public_key(&key).unwrap();
    let raw = pk[pk.len() - 32..].to_vec();
    let good = Signed::from_parts(sig.clone(), raw.clone(), "v");
    assert_eq!(good.verify(b"payload"), Ok(Some(("v", raw.clone()))));
    let bad = Signed::from_parts(sig.clone(), raw, "v");
    assert_eq!(bad.verify(b"tampered"), Ok(None));
}

#[test]
fn keypair_encoding_is_not_a_public_key() {
    // A value signed with `sign` keeps the key pair's protobuf encoding as its
    // key, which is not a raw Ed25519 public key, so checking it is refused.
    let key = generate_ed25519_keypair();
    let signed = sign("v", b"v", &key).unwrap();
    assert_eq!(signed.verify(b"v"), Err(()));
}

#[test]
fn parts_roundtrip() {
    let s = Signed::from_parts(vec![1], vec![2], 3u8);
    assert_eq!(s.into_parts(), (vec![1], vec![2], 3u8));
}
