//! Byte-level framing: little-endian integers, the handshake, and the
//! query and response frames.
use crate::errors::{Error, ErrorKind};
use vstd::prelude::*;

verus! {

/// The handshake's version magic number.
pub const VERSION_MAGIC: u32 = 0x5f75e83e;

/// The handshake's protocol magic number: payloads are JSON.
pub const PROTOCOL_MAGIC: u32 = 0x7e6970c7;

/// The largest payload that a query frame can carry.
pub const MAX_PAYLOAD: usize = 0x7fff_ffff;

/// `256` to the power `k`.
pub open spec fn byte_pow(k: nat) -> nat
    decreases k,
{
    if k == 0 {
        1
    } else {
        256 * byte_pow((k - 1) as nat)
    }
}

/// The `k` low bytes of `n`, least significant first.
pub open spec fn le(n: nat, k: nat) -> Seq<u8>
    decreases k,
{
    if k == 0 {
        Seq::empty()
    } else {
        seq![(n % 256) as u8] + le(n / 256, (k - 1) as nat)
    }
}

/// The number that bytes stand for, least significant first.
pub open spec fn le_value(b: Seq<u8>) -> nat
    decreases b.len(),
{
    if b.len() == 0 {
        0
    } else {
        b[0] as nat + 256 * le_value(b.drop_first())
    }
}

/// The handshake: version magic, a zero key length, protocol magic.
pub open spec fn handshake_bytes() -> Seq<u8> {
    le(VERSION_MAGIC as nat, 4) + le(0, 4) + le(PROTOCOL_MAGIC as nat, 4)
}

/// A query frame: token, payload length, payload.
pub open spec fn query_frame(token: nat, payload: Seq<u8>) -> Seq<u8> {
    le(token, 8) + le(payload.len(), 4) + payload
}

/// The token that a response header echoes.
pub open spec fn header_token(h: Seq<u8>) -> nat {
    le_value(h.subrange(0, 8))
}

/// The payload length that a response header announces.
pub open spec fn header_length(h: Seq<u8>) -> nat {
    le_value(h.subrange(8, 12))
}

/// `i` is the position of the first zero byte of `b`.
pub open spec fn null_at(b: Seq<u8>, i: int) -> bool {
    &&& 0 <= i < b.len()
    &&& b[i] == 0
    &&& forall|j: int| 0 <= j < i ==> b[j] != 0
}

/// The bytes before the first zero byte, where there is one.
pub open spec fn until_null(b: Seq<u8>) -> Option<Seq<u8>> {
    if exists|i: int| null_at(b, i) {
        Some(b.subrange(0, choose|i: int| null_at(b, i)))
    } else {
        None
    }
}

/// The reply of a server that accepts the handshake: `SUCCESS`.
pub open spec fn success_reply() -> Seq<u8> {
    seq![0x53u8, 0x55, 0x43, 0x43, 0x45, 0x53, 0x53]
}

proof fn lemma_le_step(n: nat, k: nat)
    requires
        k > 0,
    ensures
        le(n, k) == seq![(n % 256) as u8] + le(n / 256, (k - 1) as nat),
{
}

/// Appends the `k` low bytes of `n` to `out`, least significant first.
pub(crate) fn push_le(out: &mut Vec<u8>, n: u64, k: usize)
    ensures
        final(out)@ == old(out)@ + le(n as nat, k as nat),
{
    let mut x: u64 = n;
    let mut i: usize = 0;
    while i < k
        invariant
            i <= k,
            out@ + le(x as nat, (k - i) as nat) == old(out)@ + le(n as nat, k as nat),
        decreases k - i,
    {
        let ghost before = out@;
        let ghost rest = (k - i) as nat;
        proof {
            lemma_le_step(x as nat, rest);
        }
        out.push((x % 256) as u8);
        proof {
            assert(before + (seq![(x % 256) as u8] + le((x / 256) as nat, (rest - 1) as nat))
                =~= out@ + le((x / 256) as nat, (rest - 1) as nat));
        }
        x = x / 256;
        i = i + 1;
    }
    assert(le(x as nat, 0) =~= Seq::<u8>::empty());
    assert(out@ + Seq::<u8>::empty() =~= out@);
}

proof fn lemma_le_value_bound(b: Seq<u8>)
    ensures
        le_value(b) < byte_pow(b.len()),
    decreases b.len(),
{
    if b.len() > 0 {
        lemma_le_value_bound(b.drop_first());
        let v = le_value(b.drop_first());
        let p = byte_pow(b.drop_first().len());
        assert(b[0] as nat + 256 * v < 256 * p) by (nonlinear_arith)
            requires
                v < p,
                b[0] < 256,
        ;
    }
}

proof fn lemma_byte_pow_mono(a: nat, b: nat)
    requires
        a <= b,
    ensures
        byte_pow(a) <= byte_pow(b),
    decreases b,
{
    if a < b {
        lemma_byte_pow_mono(a, (b - 1) as nat);
    }
}

/// The number that `k` bytes of `b` from `start` stand for.
pub(crate) fn read_le(b: &[u8], start: usize, k: usize) -> (r: u64)
    requires
        start + k <= b@.len(),
        k <= 8,
    ensures
        r == le_value(b@.subrange(start as int, start + k)),
{
    let mut acc: u64 = 0;
    let mut i: usize = k;
    let len = b.len();
    proof {
        assert(b@.subrange(start + k, start + k) =~= Seq::<u8>::empty());
        reveal_with_fuel(byte_pow, 9);
        lemma_byte_pow_mono(k as nat, 8);
    }
    while i > 0
        invariant
            i <= k <= 8,
            start + k <= b@.len(),
            len == b@.len(),
            byte_pow(k as nat) <= 0x1_0000_0000_0000_0000,
            acc == le_value(b@.subrange(start + i, start + k)),
        decreases i,
    {
        let ghost tail = b@.subrange(start + i, start + k);
        let ghost next = b@.subrange(start + i - 1, start + k);
        proof {
            assert(next.drop_first() =~= tail);
            lemma_le_value_bound(next);
            lemma_byte_pow_mono(next.len(), k as nat);
        }
        acc = acc * 256 + b[start + (i - 1)] as u64;
        i = i - 1;
    }
    acc
}

/// Appends a query frame for `payload`, with `token`, to an empty buffer.
pub(crate) fn frame(token: u64, payload: &[u8]) -> (r: Vec<u8>)
    requires
        payload@.len() <= MAX_PAYLOAD,
    ensures
        r@ == query_frame(token as nat, payload@),
{
    let mut out: Vec<u8> = Vec::new();
    push_le(&mut out, token, 8);
    push_le(&mut out, payload.len() as u64, 4);
    let mut i: usize = 0;
    let ghost head = out@;
    while i < payload.len()
        invariant
            i <= payload@.len(),
            out@ == head + payload@.subrange(0, i as int),
        decreases payload@.len() - i,
    {
        out.push(payload[i]);
        proof {
            assert(payload@.subrange(0, i + 1) =~= payload@.subrange(0, i as int).push(payload@[i as int]));
        }
        i = i + 1;
    }
    assert(payload@.subrange(0, payload@.len() as int) =~= payload@);
    assert(Seq::<u8>::empty() + le(token as nat, 8) =~= le(token as nat, 8));
    out
}

/// The handshake that opens a connection.
pub(crate) fn handshake() -> (r: Vec<u8>)
    ensures
        r@ == handshake_bytes(),
{
    let mut out: Vec<u8> = Vec::new();
    push_le(&mut out, VERSION_MAGIC as u64, 4);
    push_le(&mut out, 0, 4);
    push_le(&mut out, PROTOCOL_MAGIC as u64, 4);
    assert(Seq::<u8>::empty() + le(VERSION_MAGIC as nat, 4) =~= le(VERSION_MAGIC as nat, 4));
    out
}

/// The bytes of `buf` before its first zero byte, where it holds one.
pub(crate) fn read_to_null(buf: &[u8]) -> (r: Option<Vec<u8>>)
    ensures
        match r {
            Some(v) => until_null(buf@) == Some(v@),
            None => until_null(buf@) is None,
        },
{
    let mut out: Vec<u8> = Vec::new();
    let mut i: usize = 0;
    while i < buf.len()
        invariant
            i <= buf@.len(),
            out@ == buf@.subrange(0, i as int),
            forall|j: int| 0 <= j < i ==> buf@[j] != 0,
        decreases buf@.len() - i,
    {
        if buf[i] == 0 {
            proof {
                assert(null_at(buf@, i as int));
                let c = choose|c: int| null_at(buf@, c);
                assert(c == i as int);
            }
            return Some(out);
        }
        out.push(buf[i]);
        proof {
            assert(buf@.subrange(0, i + 1) =~= buf@.subrange(0, i as int).push(buf@[i as int]));
        }
        i = i + 1;
    }
    None
}

/// Whether two byte sequences are equal.
pub(crate) fn bytes_equal(a: &[u8], b: &[u8]) -> (r: bool)
    ensures
        r == (a@ == b@),
{
    if a.len() != b.len() {
        return false;
    }
    let mut i: usize = 0;
    while i < a.len()
        invariant
            i <= a@.len(),
            a@.len() == b@.len(),
            forall|j: int| 0 <= j < i ==> a@[j] == b@[j],
        decreases a@.len() - i,
    {
        if a[i] != b[i] {
            return false;
        }
        i = i + 1;
    }
    assert(a@ =~= b@);
    true
}

/// The text of a server's reply, for error details.
/// Relies on `String::from_utf8_lossy`, which keeps valid UTF-8 as it is.
#[verifier::external_body]
pub(crate) fn reply_text(b: &[u8]) -> (r: String)
    ensures
        vstd::utf8::valid_utf8(b@) ==> r@ == vstd::utf8::decode_utf8(b@),
{
    String::from_utf8_lossy(b).into_owned()
}

/// The payload length that a response header announces: a protocol error
/// where the header is not twelve bytes or echoes another token.
pub fn read_response_header(header: &[u8], expected_token: u64) -> (r: Result<u32, Error>)
    ensures
        match r {
            Ok(n) => header@.len() == 12 && header_token(header@) == expected_token
                && header_length(header@) == n,
            Err(e) => e@.0 == ErrorKind::Protocol && (header@.len() != 12 || header_token(header@)
                != expected_token),
        },
{
    if header.len() != 12 {
        return Err(Error::ProtocolError("a response header is twelve bytes".to_owned()));
    }
    let token = read_le(header, 0, 8);
    if token != expected_token {
        return Err(Error::ProtocolError("the response answers another token".to_owned()));
    }
    let n = read_le(header, 8, 4);
    proof {
        lemma_le_value_bound(header@.subrange(8, 12));
        reveal_with_fuel(byte_pow, 5);
    }
    Ok(n as u32)
}

} // verus!
