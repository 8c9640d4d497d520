//! Length-prefixed framing of the messages exchanged between the chat daemon
//! and its user interface over the local socket: every frame is the payload's
//! length as an 8-byte big-endian unsigned integer, followed by the payload.
use vstd::prelude::*;

verus! {

/// `256` raised to the power `k`.
pub open spec fn pow256(k: nat) -> nat
    decreases k,
{
    if k == 0 {
        1
    } else {
        256 * pow256((k - 1) as nat)
    }
}

/// The `k` least significant base-256 digits of `n`, most significant first.
pub open spec fn be_encode(n: nat, k: nat) -> Seq<u8>
    decreases k,
{
    if k == 0 {
        seq![]
    } else {
        be_encode(n / 256, (k - 1) as nat).push((n % 256) as u8)
    }
}

/// The number whose big-endian base-256 digits are `s`.
pub open spec fn be_decode(s: Seq<u8>) -> nat
    decreases s.len(),
{
    if s.len() == 0 {
        0
    } else {
        be_decode(s.drop_last()) * 256 + s.last() as nat
    }
}

/// The 8-byte header that announces a payload of `len` bytes.
pub open spec fn frame_header_spec(len: u64) -> Seq<u8> {
    be_encode(len as nat, 8)
}

/// The frame that carries `payload`.
pub open spec fn frame_spec(payload: Seq<u8>) -> Seq<u8> {
    frame_header_spec(payload.len() as u64) + payload
}

/// What reading one frame from the front of `bytes` gives: the payload and the
/// number of bytes the frame took, or nothing when `bytes` does not yet hold a
/// whole frame.
pub open spec fn decode_frame_spec(bytes: Seq<u8>) -> Option<(Seq<u8>, nat)> {
    if bytes.len() < 8 {
        None
    } else {
        let len = be_decode(bytes.subrange(0, 8));
        if len > bytes.len() - 8 {
            None
        } else {
            Some((bytes.subrange(8, 8 + len as int), (8 + len) as nat))
        }
    }
}

pub proof fn lemma_pow256_positive(k: nat)
    ensures
        pow256(k) > 0,
    decreases k,
{
    if k > 0 {
        lemma_pow256_positive((k - 1) as nat);
    }
}

proof fn lemma_pow256_8()
    ensures
        pow256(8) == 0x1_0000_0000_0000_0000,
{
    reveal_with_fuel(pow256, 9);
}

pub proof fn lemma_be_encode_len(n: nat, k: nat)
    ensures
        be_encode(n, k).len() == k,
    decreases k,
{
    if k > 0 {
        lemma_be_encode_len(n / 256, (k - 1) as nat);
    }
}

/// Decoding the `k` big-endian digits of `n` gives `n` modulo `256^k`.
pub proof fn lemma_be_roundtrip(n: nat, k: nat)
    ensures
        be_decode(be_encode(n, k)) == n % pow256(k),
    decreases k,
{
    if k == 0 {
        assert(be_encode(n, k) =~= seq![]);
    } else {
        let km1 = (k - 1) as nat;
        lemma_be_roundtrip(n / 256, km1);
        lemma_pow256_positive(km1);
        let s = be_encode(n, k);
        assert(s.drop_last() =~= be_encode(n / 256, km1));
        assert(s.last() == (n % 256) as u8);
        vstd::arithmetic::div_mod::lemma_mod_breakdown(n as int, 256, pow256(km1) as int);
        assert(be_decode(s) == be_decode(s.drop_last()) * 256 + s.last() as nat);
        assert((n / 256) % pow256(km1) * 256 == 256 * ((n / 256) % pow256(km1))) by (nonlinear_arith);
    }
}

/// A value of at most 8 digits is below `256^8`.
pub proof fn lemma_be_decode_bound(s: Seq<u8>)
    ensures
        be_decode(s) < pow256(s.len()),
    decreases s.len(),
{
    if s.len() > 0 {
        let p = s.drop_last();
        lemma_be_decode_bound(p);
        assert(pow256(s.len()) == 256 * pow256(p.len()));
        let a = be_decode(p);
        let b = pow256(p.len());
        let c = s.last() as nat;
        assert(a * 256 + c < 256 * b) by (nonlinear_arith)
            requires
                a < b,
                c < 256,
        ;
    }
}

/// The header announces exactly the length it was made from.
pub proof fn lemma_header_roundtrip(len: u64)
    ensures
        frame_header_spec(len).len() == 8,
        be_decode(frame_header_spec(len)) == len,
{
    lemma_be_encode_len(len as nat, 8);
    lemma_be_roundtrip(len as nat, 8);
    lemma_pow256_8();
    vstd::arithmetic::div_mod::lemma_small_mod(len as nat, pow256(8));
}

/// Reading a frame back from a buffer that starts with it gives the payload
/// that was framed, whatever follows it in the buffer.
pub proof fn law_frame_roundtrip(payload: Seq<u8>, rest: Seq<u8>)
    requires
        payload.len() <= u64::MAX,
    ensures
        decode_frame_spec(frame_spec(payload) + rest) == Some((payload, (8 + payload.len()) as nat)),
{
    let len = payload.len() as u64;
    lemma_header_roundtrip(len);
    let bytes = frame_spec(payload) + rest;
    assert(bytes.subrange(0, 8) =~= frame_header_spec(len));
    assert(bytes.subrange(8, 8 + payload.len() as int) =~= payload);
}

/// The 8-byte big-endian header announcing a payload of `len` bytes.
pub fn frame_header(len: u64) -> (r: Vec<u8>)
    ensures
        r@ == frame_header_spec(len),
{
    let mut digits: Vec<u8> = Vec::new();
    let mut rem: u64 = len;
    let mut i: usize = 0;
    proof {
        assert(pow256(0) == 1);
        assert((len as nat) / 1 == len as nat);
    }
    // Digits are produced least significant first, then reversed.
    while i < 8
        invariant
            i <= 8,
            digits@.len() == i,
            rem as nat == (len as nat) / pow256(i as nat),
            forall|j: int|
                0 <= j < i ==> #[trigger] digits@[j] == (((len as nat) / pow256(j as nat)) % 256) as u8,
        decreases 8 - i,
    {
        proof {
            lemma_pow256_positive(i as nat);
            vstd::arithmetic::div_mod::lemma_div_denominator(len as int, pow256(i as nat) as int, 256);
            assert(pow256((i + 1) as nat) == pow256(i as nat) * 256) by {
                assert(pow256((i + 1) as nat) == 256 * pow256(i as nat));
            }
        }
        digits.push((rem % 256) as u8);
        rem = rem / 256;
        i = i + 1;
    }
    let mut r: Vec<u8> = Vec::new();
    let mut k: usize = 8;
    while k > 0
        invariant
            k <= 8,
            digits@.len() == 8,
            forall|j: int|
                0 <= j < 8 ==> #[trigger] digits@[j] == (((len as nat) / pow256(j as nat)) % 256) as u8,
            r@ == be_encode((len as nat) / pow256(k as nat), (8 - k) as nat),
        decreases k,
    {
        proof {
            lemma_pow256_positive((k - 1) as nat);
            vstd::arithmetic::div_mod::lemma_div_denominator(len as int, pow256((k - 1) as nat) as int, 256);
            assert(pow256(k as nat) == pow256((k - 1) as nat) * 256);
            let q = (len as nat) / pow256((k - 1) as nat);
            assert(be_encode(q, (8 - k + 1) as nat) == be_encode(q / 256, (8 - k) as nat).push((q % 256) as u8));
        }
        r.push(digits[k - 1]);
        k = k - 1;
    }
    proof {
        assert(pow256(0) == 1);
    }
    r
}

/// The frame carrying `payload`: its header, then the payload itself.
pub fn encode_frame(payload: &[u8]) -> (r: Vec<u8>)
    requires
        payload@.len() <= u64::MAX,
    ensures
        r@ == frame_spec(payload@),
{
    let mut r = frame_header(payload.len() as u64);
    let ghost header = r@;
    let mut i: usize = 0;
    while i < payload.len()
        invariant
            i <= payload@.len(),
            r@ == header + payload@.subrange(0, i as int),
        decreases payload@.len() - i,
    {
        r.push(payload[i]);
        i = i + 1;
        proof {
            assert(payload@.subrange(0, i as int) =~= payload@.subrange(0, i - 1).push(payload@[i - 1]));
        }
    }
    proof {
        assert(payload@.subrange(0, payload@.len() as int) =~= payload@);
    }
    r
}

/// The payload length that an 8-byte header announces.
pub fn decode_frame_len(header: &[u8]) -> (r: u64)
    requires
        header@.len() == 8,
    ensures
        r == be_decode(header@),
{
    let mut acc: u64 = 0;
    let mut i: usize = 0;
    while i < 8
        invariant
            i <= 8,
            header@.len() == 8,
            acc as nat == be_decode(header@.subrange(0, i as int)),
        decreases 8 - i,
    {
        let ghost prefix = header@.subrange(0, i as int);
        let ghost next = header@.subrange(0, i + 1);
        proof {
            assert(next.drop_last() =~= prefix);
            lemma_be_decode_bound(prefix);
            lemma_pow256_8();
            assert(pow256(8) == 256 * pow256(7));
            assert(pow256(7) == 0x100_0000_0000_0000) by {
                reveal_with_fuel(pow256, 8);
            }
            assert(pow256(i as nat) <= pow256(7)) by {
                lemma_pow256_monotone(i as nat, 7);
            }
        }
        acc = acc * 256 + header[i] as u64;
        i = i + 1;
    }
    proof {
        assert(header@.subrange(0, 8) =~= header@);
    }
    acc
}

proof fn lemma_pow256_monotone(a: nat, b: nat)
    requires
        a <= b,
    ensures
        pow256(a) <= pow256(b),
    decreases b,
{
    if a < b {
        lemma_pow256_monotone(a, (b - 1) as nat);
        lemma_pow256_positive((b - 1) as nat);
    }
}

/// Reads one frame from the front of `bytes`: the payload and the number of
/// bytes the frame took, or `None` when `bytes` does not hold a whole frame.
pub fn decode_frame(bytes: &[u8]) -> (r: Option<(Vec<u8>, usize)>)
    ensures
        match r {
            Some((payload, used)) => decode_frame_spec(bytes@) == Some((payload@, used as nat)),
            None => decode_frame_spec(bytes@) is None,
        },
{
    if bytes.len() < 8 {
        return None;
    }
    let mut header: Vec<u8> = Vec::new();
    let mut i: usize = 0;
    while i < 8
        invariant
            i <= 8,
            bytes@.len() >= 8,
            header@ == bytes@.subrange(0, i as int),
        decreases 8 - i,
    {
        header.push(bytes[i]);
        i = i + 1;
        proof {
            assert(bytes@.subrange(0, i as int) =~= bytes@.subrange(0, i - 1).push(bytes@[i - 1]));
        }
    }
    let len: u64 = decode_frame_len(header.as_slice());
    let available: u64 = (bytes.len() - 8) as u64;
    if len > available {
        return None;
    }
    let end: usize = 8 + len as usize;
    let mut payload: Vec<u8> = Vec::new();
    let mut j: usize = 8;
    while j < end
        invariant
            8 <= j <= end,
            end <= bytes@.len(),
            payload@ == bytes@.subrange(8, j as int),
        decreases end - j,
    {
        payload.push(bytes[j]);
        j = j + 1;
        proof {
            assert(bytes@.subrange(8, j as int) =~= bytes@.subrange(8, j - 1).push(bytes@[j - 1]));
        }
    }
    Some((payload, end))
}

/// Why no request could be read from the user interface.
#[derive(Debug, Clone, PartialEq, Eq)]
pub enum ReadEventError {
    /// The socket could not be read; the text describes the failure.
    ReadError(String),
    /// The frame's payload is not a request; the text describes why.
    PostCardSerializeError(String),
}

/// The text that describes a read failure.
pub open spec fn read_error_text(e: ReadEventError) -> Seq<char> {
    match e {
        ReadEventError::ReadError(s) => "Error reading event: "@ + s@,
        ReadEventError::PostCardSerializeError(s) => "Error while deserializing data: "@ + s@,
    }
}

impl ReadEventError {
    /// The read failure that an I/O error stands for, described by the
    /// error's own text.
    pub fn from_io_error(err: std::io::Error) -> (r: Self)
        ensures
            r matches ReadEventError::ReadError(s) && vstd::string::to_string_from_display_ensures::<std::io::Error>(&err, s),
    {
        ReadEventError::ReadError(err.to_string())
    }

    /// The text that describes the failure.
    pub fn message(&self) -> (r: String)
        ensures
            r@ == read_error_text(*self),
    {
        match self {
            ReadEventError::ReadError(s) => String::from_str("Error reading event: ").concat(s.as_str()),
            ReadEventError::PostCardSerializeError(s) => String::from_str("Error while deserializing data: ").concat(s.as_str()),
        }
    }
}

} // verus!
