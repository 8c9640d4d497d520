//! Talking to the HTTP tracker that maps usernames to peer ids: the addresses
//! asked for, and what its replies mean.
use vstd::prelude::*;
use vstd::utf8::encode_utf8;
use crate::bridge::{
    base64_encode, base64_standard_encode, keypair_public_encoding, keypair_public_key, keypair_signature,
    sign_with_keypair,
};

verus! {

/// Whether an HTTP status code reports success (`200` to `299`).
pub open spec fn is_success_spec(code: u16) -> bool {
    200 <= code < 300
}

/// Whether an HTTP status code reports a server error (`500` to `599`).
pub open spec fn is_server_error_spec(code: u16) -> bool {
    500 <= code < 600
}

/// Whether an HTTP status code reports success.
pub fn status_is_success(code: u16) -> (r: bool)
    ensures
        r == is_success_spec(code),
{
    200 <= code && code < 300
}

/// Whether an HTTP status code reports a server error.
pub fn status_is_server_error(code: u16) -> (r: bool)
    ensures
        r == is_server_error_spec(code),
{
    500 <= code && code < 600
}

/// Why a tracker request failed.
#[derive(Debug, Clone, PartialEq, Eq)]
pub enum TrackerError {
    ConnectionFailed(String),
    UsernameNotAvailable,
    UsernameNotFound,
    ServerError,
    ParseError(String),
}

/// The text that describes a tracker error.
pub open spec fn tracker_error_text(e: TrackerError) -> Seq<char> {
    match e {
        TrackerError::ConnectionFailed(s) => "Connection failed: "@ + s@,
        TrackerError::UsernameNotAvailable => "Username not available"@,
        TrackerError::UsernameNotFound => "Username not found"@,
        TrackerError::ServerError => "Server error"@,
        TrackerError::ParseError(s) => "Failed to parse response: "@ + s@,
    }
}

impl TrackerError {
    /// The text that describes the error.
    pub fn message(&self) -> (r: String)
        ensures
            r@ == tracker_error_text(*self),
    {
        match self {
            TrackerError::ConnectionFailed(s) => String::from_str("Connection failed: ").concat(s.as_str()),
            TrackerError::UsernameNotAvailable => String::from_str("Username not available"),
            TrackerError::UsernameNotFound => String::from_str("Username not found"),
            TrackerError::ServerError => String::from_str("Server error"),
            TrackerError::ParseError(s) => String::from_str("Failed to parse response: ").concat(s.as_str()),
        }
    }
}

/// The address of a tracker endpoint: `http://`, the tracker, then `path`.
pub open spec fn tracker_url_spec(tracker: Seq<char>, path: Seq<char>) -> Seq<char> {
    "http://"@ + tracker + path
}

/// The address that looks up the username of peer `id`.
pub fn find_by_id_url(tracker: &String, id: &String) -> (r: String)
    ensures
        r@ == tracker_url_spec(tracker@, "/find-by-id?q="@ + id@),
{
    let r = String::from_str("http://").concat(tracker.as_str()).concat("/find-by-id?q=").concat(id.as_str());
    assert(r@ =~= tracker_url_spec(tracker@, "/find-by-id?q="@ + id@));
    r
}

/// The address that looks up the peer registered as `username`.
pub fn find_by_name_url(tracker: &String, username: &String) -> (r: String)
    ensures
        r@ == tracker_url_spec(tracker@, "/find-by-name?q="@ + username@),
{
    let r = String::from_str("http://").concat(tracker.as_str()).concat("/find-by-name?q=").concat(username.as_str());
    assert(r@ =~= tracker_url_spec(tracker@, "/find-by-name?q="@ + username@));
    r
}

/// The address at which usernames are registered.
pub fn register_url(tracker: &String) -> (r: String)
    ensures
        r@ == tracker_url_spec(tracker@, "/register"@),
{
    let r = String::from_str("http://").concat(tracker.as_str()).concat("/register");
    assert(r@ =~= tracker_url_spec(tracker@, "/register"@));
    r
}

/// What a username lookup says of the name's availability: a name that is
/// found is taken, a name that is not found is free, and a server error or a
/// failed connection tells nothing. `status` is the reply's status code, or
/// the description of the connection failure.
pub fn username_availability(status: Result<u16, String>) -> (r: Result<bool, TrackerError>)
    ensures
        match status {
            Err(msg) => r == Err::<bool, TrackerError>(TrackerError::ConnectionFailed(msg)),
            Ok(code) => if is_success_spec(code) {
                r == Ok::<bool, TrackerError>(false)
            } else if is_server_error_spec(code) {
                r == Err::<bool, TrackerError>(TrackerError::ServerError)
            } else {
                r == Ok::<bool, TrackerError>(true)
            },
        },
{
    match status {
        Err(msg) => Err(TrackerError::ConnectionFailed(msg)),
        Ok(code) => {
            if status_is_success(code) {
                Ok(false)
            } else if status_is_server_error(code) {
                Err(TrackerError::ServerError)
            } else {
                Ok(true)
            }
        },
    }
}

/// What a registration reply's status means: `Ok(())` when the body is to be
/// read as the registration, otherwise why the registration failed.
pub fn registration_status(status: Result<u16, String>) -> (r: Result<(), TrackerError>)
    ensures
        match status {
            Err(msg) => r == Err::<(), TrackerError>(TrackerError::ConnectionFailed(msg)),
            Ok(code) => if is_success_spec(code) {
                r == Ok::<(), TrackerError>(())
            } else if is_server_error_spec(code) {
                r == Err::<(), TrackerError>(TrackerError::ServerError)
            } else {
                r == Err::<(), TrackerError>(TrackerError::UsernameNotAvailable)
            },
        },
{
    match status {
        Err(msg) => Err(TrackerError::ConnectionFailed(msg)),
        Ok(code) => {
            if status_is_success(code) {
                Ok(())
            } else if status_is_server_error(code) {
                Err(TrackerError::ServerError)
            } else {
                Err(TrackerError::UsernameNotAvailable)
            }
        },
    }
}

/// The outcome of a registration whose body was read: the registration, or
/// the reason the body could not be parsed.
pub fn registration_from_body<T>(body: Result<T, String>) -> (r: Result<T, TrackerError>)
    ensures
        match body {
            Ok(v) => r == Ok::<T, TrackerError>(v),
            Err(msg) => r == Err::<T, TrackerError>(TrackerError::ParseError(msg)),
        },
{
    match body {
        Ok(v) => Ok(v),
        Err(msg) => Err(TrackerError::ParseError(msg)),
    }
}

/// The body of a registration request: the registering key's public half and
/// the signature of the message, both as base64 text, and the message, the
/// serialized username payload.
#[derive(Debug, Clone, PartialEq, Eq)]
pub struct RegistrationBody {
    pub public_key: String,
    pub message: String,
    pub signature: String,
}

/// The body that registers the username of `message`, signed with the key
/// pair encoded (as protobuf) in `key`: the message's UTF-8 bytes are signed.
/// `None` when `key` is not a key pair that can sign, and when its public key
/// or the signature is too long to be written as base64 (over half the
/// address space).
pub fn registration_body(key: &[u8], message: String) -> (r: Option<RegistrationBody>)
    ensures
        match (keypair_public_encoding(key@), keypair_signature(key@, encode_utf8(message@))) {
            (Some(pk), Some(sig)) => if pk.len() <= usize::MAX / 2 && sig.len() <= usize::MAX / 2 {
                r matches Some(b) && b.public_key@ == base64_standard_encode(pk) && b.message@ == message@
                    && b.signature@ == base64_standard_encode(sig)
            } else {
                r is None
            },
            _ => r is None,
        },
{
    let public_key = keypair_public_key(key);
    let signature = sign_with_keypair(key, message.as_str().as_bytes());
    match (public_key, signature) {
        (Some(pk), Some(sig)) => {
            if pk.len() > usize::MAX / 2 || sig.len() > usize::MAX / 2 {
                return None;
            }
            let public_key = base64_encode(pk.as_slice());
            let signature = base64_encode(sig.as_slice());
            Some(RegistrationBody { public_key, message, signature })
        },
        _ => None,
    }
}

} // verus!
