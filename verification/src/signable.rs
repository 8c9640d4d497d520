//! Values signed with the node's key pair.
use vstd::prelude::*;
use crate::bridge::{ed25519_check, ed25519_verify, keypair_signature, sign_with_keypair};

verus! {

/// A value with a signature of its serialized form and the key that signed it.
#[derive(Debug)]
pub struct Signed<T> {
    sig: Vec<u8>,
    pub_key: Vec<u8>,
    content: T,
}

/// A copy of a byte vector.
fn copy_bytes(b: &Vec<u8>) -> (r: Vec<u8>)
    ensures
        r@ == b@,
{
    let mut r: Vec<u8> = Vec::new();
    let mut i: usize = 0;
    while i < b.len()
        invariant
            i <= b@.len(),
            r@ == b@.subrange(0, i as int),
        decreases b@.len() - i,
    {
        r.push(b[i]);
        i = i + 1;
        proof {
            assert(b@.subrange(0, i as int) =~= b@.subrange(0, i - 1).push(b@[i - 1]));
        }
    }
    proof {
        assert(b@.subrange(0, b@.len() as int) =~= b@);
    }
    r
}

impl<T> Signed<T> {
    /// The signature.
    pub closed spec fn sig_view(&self) -> Seq<u8> {
        self.sig@
    }

    /// The key that the value is said to be signed with.
    pub closed spec fn key_view(&self) -> Seq<u8> {
        self.pub_key@
    }

    /// The signed value.
    pub closed spec fn content_view(&self) -> T {
        self.content
    }

    /// The signature.
    pub fn sig(&self) -> (r: &Vec<u8>)
        ensures
            r@ == self.sig_view(),
    {
        &self.sig
    }

    /// The key that the value is said to be signed with.
    pub fn pub_key(&self) -> (r: &Vec<u8>)
        ensures
            r@ == self.key_view(),
    {
        &self.pub_key
    }

    /// The signed value.
    pub fn content(&self) -> (r: &T)
        ensures
            *r == self.content_view(),
    {
        &self.content
    }

    /// Puts the parts of a signed value back together, as they came over the
    /// wire.
    pub fn from_parts(sig: Vec<u8>, pub_key: Vec<u8>, content: T) -> (r: Self)
        ensures
            r.sig_view() == sig@,
            r.key_view() == pub_key@,
            r.content_view() == content,
    {
        Signed { sig, pub_key, content }
    }

    /// Takes a signed value apart: signature, key, value.
    pub fn into_parts(self) -> (r: (Vec<u8>, Vec<u8>, T))
        ensures
            r.0@ == self.sig_view(),
            r.1@ == self.key_view(),
            r.2 == self.content_view(),
    {
        (self.sig, self.pub_key, self.content)
    }

    /// Checks the signature against `serialized`, the serialized form of the
    /// content: the content and the key when the signature holds, `None`
    /// when it does not, and `Err(())` when the stored key is not an Ed25519
    /// public key.
    pub fn verify(self, serialized: &[u8]) -> (r: Result<Option<(T, Vec<u8>)>, ()>)
        ensures
            match ed25519_check(self.key_view(), serialized@, self.sig_view()) {
                None => r == Err::<Option<(T, Vec<u8>)>, ()>(()),
                Some(false) => r == Ok::<Option<(T, Vec<u8>)>, ()>(None),
                Some(true) => r matches Ok(Some((c, k))) && c == self.content_view() && k@ == self.key_view(),
            },
    {
        match ed25519_verify(self.pub_key.as_slice(), serialized, self.sig.as_slice()) {
            None => Err(()),
            Some(false) => Ok(None),
            Some(true) => Ok(Some((self.content, self.pub_key))),
        }
    }
}

/// Signs `value`, whose serialized form is `serialized`, with the key pair
/// encoded (as protobuf) in `key`; the key pair's encoding is kept as the
/// signing key. `None` when the key pair cannot sign.
pub fn sign<T>(value: T, serialized: &[u8], key: &Vec<u8>) -> (r: Option<Signed<T>>)
    ensures
        match keypair_signature(key@, serialized@) {
            None => r is None,
            Some(sig) => r matches Some(s) && s.sig_view() == sig && s.key_view() == key@ && s.content_view() == value,
        },
{
    match sign_with_keypair(key.as_slice(), serialized) {
        None => None,
        Some(sig) => Some(Signed { sig, pub_key: copy_bytes(key), content: value }),
    }
}

} // verus!
