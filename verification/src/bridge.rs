//! The calls this library makes into other crates, each with the contract
//! that the rest of the library relies on. None of these bodies is checked;
//! each contract restates what the called crate documents.
use vstd::prelude::*;

verus! {

/// `std::io::Error`, carried through as it is.
#[verifier::external_type_specification]
#[verifier::external_body]
pub struct ExIoError(std::io::Error);

/// The standard (RFC 4648, padded) base64 text of `bytes`.
pub uninterp spec fn base64_standard_encode(bytes: Seq<u8>) -> Seq<char>;

/// The bytes that standard base64 `text` stands for, if it is valid.
pub uninterp spec fn base64_standard_decode(text: Seq<char>) -> Option<Seq<u8>>;

/// Calls `base64::Engine::encode` on the `STANDARD` engine. The contract says
/// that the text is the named encoding of the bytes, and that decoding it
/// with the same engine gives the bytes back, which is what the engine is for.
/// Short inputs only: the crate panics when the encoded length overflows.
#[verifier::external_body]
pub fn base64_encode(bytes: &[u8]) -> (r: String)
    requires
        bytes@.len() <= usize::MAX / 2,
    ensures
        r@ == base64_standard_encode(bytes@),
        base64_standard_decode(r@) == Some(bytes@),
{
    base64::Engine::encode(&base64::engine::general_purpose::STANDARD, bytes)
}

/// Calls `base64::Engine::decode` on the `STANDARD` engine. The contract says
/// that the result is the named decoding of the text: the bytes, or `None`
/// when the text is not valid standard base64.
#[verifier::external_body]
pub fn base64_decode(text: &str) -> (r: Option<Vec<u8>>)
    ensures
        match r {
            Some(b) => base64_standard_decode(text@) == Some(b@),
            None => base64_standard_decode(text@) is None,
        },
{
    base64::Engine::decode(&base64::engine::general_purpose::STANDARD, text).ok()
}

/// The seconds since the Unix epoch of the date and time that `text` writes
/// in `format`, read without a time zone; `None` when `text` does not match.
pub uninterp spec fn naive_datetime_seconds(text: Seq<char>, format: Seq<char>) -> Option<i64>;

/// Calls `chrono::NaiveDateTime::parse_from_str` and takes the result's
/// seconds since the epoch (`and_utc().timestamp()`). The contract names the
/// result; parsing depends on the two texts alone.
#[verifier::external_body]
pub fn parse_datetime_seconds(text: &str, format: &str) -> (r: Option<i64>)
    ensures
        r == naive_datetime_seconds(text@, format@),
{
    chrono::NaiveDateTime::parse_from_str(text, format).ok().map(|d| d.and_utc().timestamp())
}

/// The 128-bit value of the UUID that `text` writes, if it writes one.
pub uninterp spec fn uuid_text_value(text: Seq<char>) -> Option<u128>;

/// Calls `uuid::Uuid::from_str` and takes the UUID's 128-bit value. The
/// contract names the result; parsing depends on the text alone.
#[verifier::external_body]
pub fn parse_uuid(text: &str) -> (r: Option<u128>)
    ensures
        r == uuid_text_value(text@),
{
    <uuid::Uuid as std::str::FromStr>::from_str(text).ok().map(|u| u.as_u128())
}

/// The hyphenated, lower-case text of the UUID with 128-bit value `value`.
pub uninterp spec fn uuid_hyphenated(value: u128) -> Seq<char>;

/// Calls `uuid::Uuid::from_u128` and writes the UUID with its `Display`
/// impl, the hyphenated form. The contract names the text and says that
/// `Uuid::from_str` reads it back as the same value.
#[verifier::external_body]
pub fn uuid_text(value: u128) -> (r: String)
    ensures
        r@ == uuid_hyphenated(value),
        uuid_text_value(r@) == Some(value),
{
    uuid::Uuid::from_u128(value).to_string()
}

/// The bytes of an optional byte vector.
pub open spec fn opt_bytes_view(o: Option<Vec<u8>>) -> Option<Seq<u8>> {
    match o {
        Some(v) => Some(v@),
        None => None,
    }
}

/// Calls `libp2p::identity::Keypair::generate_ed25519` and encodes the fresh
/// key pair with `to_protobuf_encoding`. The key is random, so the contract
/// says which bytes come back only as far as every outcome shares it: the
/// encoding of an Ed25519 key pair is its key-type field and its 64 key
/// bytes, 68 bytes in all, it cannot fail (the crate fails only for RSA key
/// pairs), and `Keypair::from_protobuf_encoding` reads it back as a key pair.
#[verifier::external_body]
pub fn generate_ed25519_keypair() -> (r: Vec<u8>)
    ensures
        r@.len() == 68,
        is_keypair_encoding(r@),
{
    libp2p::identity::Keypair::generate_ed25519().to_protobuf_encoding().unwrap_or_default()
}

/// The signature that the key pair encoded (as protobuf) in `key` makes of
/// `msg`; `None` when `key` is not such an encoding or signing fails.
pub uninterp spec fn keypair_signature(key: Seq<u8>, msg: Seq<u8>) -> Option<Seq<u8>>;

/// Calls `libp2p::identity::Keypair::from_protobuf_encoding` on `key`, then
/// `Keypair::sign` on `msg`. The contract names the result: Ed25519 signing
/// is deterministic, so it depends on the two byte strings alone.
#[verifier::external_body]
pub fn sign_with_keypair(key: &[u8], msg: &[u8]) -> (r: Option<Vec<u8>>)
    ensures
        opt_bytes_view(r) == keypair_signature(key@, msg@),
{
    libp2p::identity::Keypair::from_protobuf_encoding(key).ok()?.sign(msg).ok()
}

/// The protobuf encoding of the public half of the key pair encoded (as
/// protobuf) in `key`; `None` when `key` is not such an encoding.
pub uninterp spec fn keypair_public_encoding(key: Seq<u8>) -> Option<Seq<u8>>;

/// Calls `libp2p::identity::Keypair::from_protobuf_encoding` on `key`, then
/// `PublicKey::encode_protobuf` on the pair's public key. The contract names
/// the result, which depends on the bytes alone.
#[verifier::external_body]
pub fn keypair_public_key(key: &[u8]) -> (r: Option<Vec<u8>>)
    ensures
        opt_bytes_view(r) == keypair_public_encoding(key@),
{
    libp2p::identity::Keypair::from_protobuf_encoding(key).ok().map(|k| k.public().encode_protobuf())
}

/// Whether `sig` is a valid Ed25519 signature of `msg` under the public key
/// whose 32 bytes are `public_key`; `None` when those bytes are not a key.
pub uninterp spec fn ed25519_check(public_key: Seq<u8>, msg: Seq<u8>, sig: Seq<u8>) -> Option<bool>;

/// Calls `libp2p::identity::ed25519::PublicKey::try_from_bytes` on
/// `public_key`, then `PublicKey::verify`. The contract names the result,
/// which depends on the three byte strings alone.
#[verifier::external_body]
pub fn ed25519_verify(public_key: &[u8], msg: &[u8], sig: &[u8]) -> (r: Option<bool>)
    ensures
        r == ed25519_check(public_key@, msg@, sig@),
{
    libp2p::identity::ed25519::PublicKey::try_from_bytes(public_key).ok().map(|k| k.verify(msg, sig))
}

/// Whether `bytes` is the protobuf encoding of a key pair.
pub uninterp spec fn is_keypair_encoding(bytes: Seq<u8>) -> bool;

/// Calls `libp2p::identity::Keypair::from_protobuf_encoding` and reports
/// whether it succeeded. The contract names the result, which depends on the
/// bytes alone.
#[verifier::external_body]
pub fn keypair_encoding_valid(bytes: &[u8]) -> (r: bool)
    ensures
        r == is_keypair_encoding(bytes@),
{
    libp2p::identity::Keypair::from_protobuf_encoding(bytes).is_ok()
}

/// Calls `uuid::Uuid::new_v4` and takes the UUID's 128-bit value. The value
/// is random, so nothing is said of it.
#[verifier::external_body]
pub fn new_uuid() -> (r: u128)
{
    uuid::Uuid::new_v4().as_u128()
}

/// Calls `String::push`: the text gets `c` appended, as std documents.
#[verifier::external_body]
pub(crate) fn string_push(s: &mut String, c: char)
    ensures
        final(s)@ == old(s)@.push(c),
{
    s.push(c)
}

/// Calls `String::pop`: the last character is taken off the text and
/// returned, or `None` comes back and the text stays when it is empty, as std
/// documents.
#[verifier::external_body]
pub(crate) fn string_pop(s: &mut String) -> (r: Option<char>)
    ensures
        old(s)@.len() == 0 ==> r is None && final(s)@ == old(s)@,
        old(s)@.len() > 0 ==> r == Some(old(s)@.last()) && final(s)@ == old(s)@.drop_last(),
{
    s.pop()
}

} // verus!
