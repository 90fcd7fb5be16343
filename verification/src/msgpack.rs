//! Encoding of host-bound records in the binary wire format the page-side
//! library unpacks: compact headers, big-endian lengths, the smallest
//! integer form, and binary payloads carried as arrays of integers.
//!
//! The `mp_*` spec functions state the byte layout exactly; the `push_*`
//! functions are proved to produce it.

use vstd::prelude::*;
use vstd::string::StringSliceAdditionalSpecFns;

verus! {

/// Two big-endian bytes of `n`.
pub open spec fn be16(n: int) -> Seq<u8> {
    seq![((n / 256) % 256) as u8, (n % 256) as u8]
}

/// Four big-endian bytes of `n`.
pub open spec fn be32(n: int) -> Seq<u8> {
    seq![
        ((n / 0x1000000) % 256) as u8,
        ((n / 0x10000) % 256) as u8,
        ((n / 256) % 256) as u8,
        (n % 256) as u8,
    ]
}

/// An unsigned integer in its smallest form: positive fixint, uint 8,
/// uint 16 or uint 32.
pub open spec fn mp_uint(n: int) -> Seq<u8> {
    if n < 128 {
        seq![n as u8]
    } else if n < 256 {
        seq![0xccu8, n as u8]
    } else if n < 65536 {
        seq![0xcdu8] + be16(n)
    } else {
        seq![0xceu8] + be32(n)
    }
}

/// A signed integer in its smallest form: the unsigned forms when
/// non-negative, else negative fixint, int 8, int 16 or int 32 in two's
/// complement.
pub open spec fn mp_sint(n: int) -> Seq<u8> {
    if n >= 0 {
        mp_uint(n)
    } else if n >= -32 {
        seq![(256 + n) as u8]
    } else if n >= -128 {
        seq![0xd0u8, (256 + n) as u8]
    } else if n >= -32768 {
        seq![0xd1u8] + be16(65536 + n)
    } else {
        seq![0xd2u8] + be32(0x100000000 + n)
    }
}

/// The header introducing a string of `n` bytes: fixstr, str 8, str 16 or
/// str 32.
pub open spec fn mp_str_header(n: int) -> Seq<u8> {
    if n < 32 {
        seq![(0xa0 + n) as u8]
    } else if n < 256 {
        seq![0xd9u8, n as u8]
    } else if n < 65536 {
        seq![0xdau8] + be16(n)
    } else {
        seq![0xdbu8] + be32(n)
    }
}

/// A string given by its encoded bytes.
pub open spec fn mp_str(b: Seq<u8>) -> Seq<u8> {
    mp_str_header(b.len() as int) + b
}

/// The header introducing an array of `n` elements.
pub open spec fn mp_array_header(n: int) -> Seq<u8> {
    if n < 16 {
        seq![(0x90 + n) as u8]
    } else if n < 65536 {
        seq![0xdcu8] + be16(n)
    } else {
        seq![0xddu8] + be32(n)
    }
}

/// The header introducing a map of `n` pairs (all records here are small,
/// so only the fixmap form occurs).
pub open spec fn mp_map_header(n: int) -> Seq<u8>
    recommends
        0 <= n < 16,
{
    seq![(0x80 + n) as u8]
}

/// Each byte of `b` as an unsigned integer, concatenated.
pub open spec fn mp_uint_seq(b: Seq<u8>) -> Seq<u8>
    decreases b.len(),
{
    if b.len() == 0 {
        Seq::empty()
    } else {
        mp_uint(b[0] as int) + mp_uint_seq(b.drop_first())
    }
}

/// A binary payload: an array of its bytes as integers (the shape the
/// generic serializer gives a byte vector).
pub open spec fn mp_byte_payload(b: Seq<u8>) -> Seq<u8> {
    mp_array_header(b.len() as int) + mp_uint_seq(b)
}

/// A single page-originated message wrapped as a one-element batch:
/// `[[channel, payload]]`.
pub open spec fn single_message_bytes(channel: Seq<u8>, content: Seq<u8>) -> Seq<u8> {
    mp_array_header(1) + mp_array_header(2) + mp_str(channel) + mp_byte_payload(content)
}

pub proof fn lemma_mp_uint_seq_snoc(b: Seq<u8>, x: u8)
    ensures
        mp_uint_seq(b.push(x)) =~= mp_uint_seq(b) + mp_uint(x as int),
    decreases b.len(),
{
    if b.len() == 0 {
        assert(b.push(x).drop_first() =~= Seq::<u8>::empty());
        assert(b.push(x)[0] == x);
        assert(mp_uint_seq(b.push(x)) =~= mp_uint(x as int) + mp_uint_seq(Seq::<u8>::empty()));
        assert(mp_uint_seq(b) =~= Seq::<u8>::empty());
    } else {
        assert(b.push(x).drop_first() =~= b.drop_first().push(x));
        assert(b.push(x)[0] == b[0]);
        lemma_mp_uint_seq_snoc(b.drop_first(), x);
        assert(mp_uint_seq(b.push(x)) =~= mp_uint(b[0] as int) + mp_uint_seq(
            b.drop_first().push(x),
        ));
        assert(mp_uint_seq(b.drop_first().push(x)) =~= mp_uint_seq(b.drop_first()) + mp_uint(
            x as int,
        ));
        assert(mp_uint_seq(b) =~= mp_uint(b[0] as int) + mp_uint_seq(b.drop_first()));
    }
}

pub fn push_uint(out: &mut Vec<u8>, v: u32)
    ensures
        final(out)@ =~= old(out)@ + mp_uint(v as int),
{
    if v < 128 {
        out.push(v as u8);
    } else if v < 256 {
        out.push(0xcc);
        out.push(v as u8);
    } else if v < 65536 {
        out.push(0xcd);
        out.push(((v / 256) % 256) as u8);
        out.push((v % 256) as u8);
    } else {
        out.push(0xce);
        out.push(((v / 0x1000000) % 256) as u8);
        out.push(((v / 0x10000) % 256) as u8);
        out.push(((v / 256) % 256) as u8);
        out.push((v % 256) as u8);
    }
}

pub fn push_sint(out: &mut Vec<u8>, v: i32)
    ensures
        final(out)@ =~= old(out)@ + mp_sint(v as int),
{
    if v >= 0 {
        push_uint(out, v as u32);
    } else if v >= -32 {
        out.push((256 + v as i64) as u8);
    } else if v >= -128 {
        out.push(0xd0);
        out.push((256 + v as i64) as u8);
    } else if v >= -32768 {
        let m: i64 = 65536 + v as i64;
        out.push(0xd1);
        out.push(((m / 256) % 256) as u8);
        out.push((m % 256) as u8);
    } else {
        let m: i64 = 0x100000000 + v as i64;
        out.push(0xd2);
        out.push(((m / 0x1000000) % 256) as u8);
        out.push(((m / 0x10000) % 256) as u8);
        out.push(((m / 256) % 256) as u8);
        out.push((m % 256) as u8);
    }
}

pub fn push_array_header(out: &mut Vec<u8>, n: usize)
    requires
        n < 0x100000000,
    ensures
        final(out)@ =~= old(out)@ + mp_array_header(n as int),
{
    if n < 16 {
        out.push((0x90 + n) as u8);
    } else if n < 65536 {
        out.push(0xdc);
        out.push(((n / 256) % 256) as u8);
        out.push((n % 256) as u8);
    } else {
        out.push(0xdd);
        out.push(((n / 0x1000000) % 256) as u8);
        out.push(((n / 0x10000) % 256) as u8);
        out.push(((n / 256) % 256) as u8);
        out.push((n % 256) as u8);
    }
}

pub fn push_map_header(out: &mut Vec<u8>, n: usize)
    requires
        n < 16,
    ensures
        final(out)@ =~= old(out)@ + mp_map_header(n as int),
{
    out.push((0x80 + n) as u8);
}

/// Appends a string: its length header, then its encoded bytes.
pub fn push_string(out: &mut Vec<u8>, s: &str)
    requires
        s.spec_bytes().len() < 0x100000000,
    ensures
        final(out)@ =~= old(out)@ + mp_str(s.spec_bytes()),
{
    let b = s.as_bytes();
    let n = b.len();
    if n < 32 {
        out.push((0xa0 + n) as u8);
    } else if n < 256 {
        out.push(0xd9);
        out.push(n as u8);
    } else if n < 65536 {
        out.push(0xda);
        out.push(((n / 256) % 256) as u8);
        out.push((n % 256) as u8);
    } else {
        out.push(0xdb);
        out.push(((n / 0x1000000) % 256) as u8);
        out.push(((n / 0x10000) % 256) as u8);
        out.push(((n / 256) % 256) as u8);
        out.push((n % 256) as u8);
    }
    out.extend_from_slice(b);
}

/// Appends a binary payload as an array of its bytes.
pub fn push_byte_payload(out: &mut Vec<u8>, b: &Vec<u8>)
    requires
        b@.len() < 0x100000000,
    ensures
        final(out)@ =~= old(out)@ + mp_byte_payload(b@),
{
    let ghost pre = out@;
    let n = b.len();
    push_array_header(out, n);
    let mut i: usize = 0;
    while i < n
        invariant
            n == b@.len(),
            i <= n,
            out@ =~= pre + mp_array_header(n as int) + mp_uint_seq(b@.subrange(0, i as int)),
        decreases n - i,
    {
        push_uint(out, b[i] as u32);
        proof {
            assert(b@.subrange(0, i + 1 as int) =~= b@.subrange(0, i as int).push(b@[i as int]));
            lemma_mp_uint_seq_snoc(b@.subrange(0, i as int), b@[i as int]);
        }
        i = i + 1;
    }
    proof {
        assert(b@.subrange(0, n as int) =~= b@);
    }
}

/// Encodes one page-originated message as a one-element batch, so single
/// posts and batches decode through one path downstream.
pub fn encode_single_message(channel: &str, content: &Vec<u8>) -> (r: Vec<u8>)
    requires
        channel.spec_bytes().len() < 0x100000000,
        content@.len() < 0x100000000,
    ensures
        r@ =~= single_message_bytes(channel.spec_bytes(), content@),
{
    let mut out: Vec<u8> = Vec::new();
    push_array_header(&mut out, 1);
    push_array_header(&mut out, 2);
    push_string(&mut out, channel);
    push_byte_payload(&mut out, content);
    out
}

} // verus!
