//! The SSH signature envelope: two length-prefixed fields, the algorithm name
//! and the raw signature.
//!
//! Nothing here looks inside the signature. Whether it is a valid signature is
//! the business of whoever made it and of whoever later verifies it.

use vstd::prelude::*;
use vstd::slice::{slice_subrange, slice_to_vec};
use vstd::string::StringSliceAdditionalSpecFns;
use vstd::utf8::{decode_utf8, encode_utf8, valid_utf8};

verus! {

/// The four bytes of `n` in network byte order.
pub open spec fn be32(n: nat) -> Seq<u8>
    recommends
        n <= u32::MAX,
{
    seq![
        (n / 0x100_0000) as u8,
        ((n / 0x1_0000) % 0x100) as u8,
        ((n / 0x100) % 0x100) as u8,
        (n % 0x100) as u8,
    ]
}

/// The number that the first four bytes of `b` stand for in network byte order.
pub open spec fn be32_value(b: Seq<u8>) -> nat
    recommends
        b.len() >= 4,
{
    (b[0] as nat) * 0x100_0000 + (b[1] as nat) * 0x1_0000 + (b[2] as nat) * 0x100 + (b[3] as nat)
}

/// A length-prefixed field: the length in four bytes, then the bytes.
pub open spec fn field(bytes: Seq<u8>) -> Seq<u8>
    recommends
        bytes.len() <= u32::MAX,
{
    be32(bytes.len()) + bytes
}

/// Splits the first length-prefixed field off `bytes`: the field's content and
/// what follows it. `None` where `bytes` is shorter than the field claims.
pub open spec fn take_field(bytes: Seq<u8>) -> Option<(Seq<u8>, Seq<u8>)> {
    if bytes.len() < 4 {
        None
    } else if bytes.len() - 4 < be32_value(bytes) {
        None
    } else {
        let end = (4 + be32_value(bytes)) as int;
        Some((bytes.subrange(4, end), bytes.subrange(end, bytes.len() as int)))
    }
}

/// The envelope of a signature made with the algorithm called `name`.
pub open spec fn spec_encode(name: Seq<char>, signature: Seq<u8>) -> Seq<u8>
    recommends
        encode_utf8(name).len() <= u32::MAX,
        signature.len() <= u32::MAX,
{
    field(encode_utf8(name)) + field(signature)
}

/// The algorithm name and the raw signature that an envelope holds. `None`
/// unless `bytes` is exactly two length-prefixed fields of which the first is
/// UTF-8.
pub open spec fn spec_decode(bytes: Seq<u8>) -> Option<(Seq<char>, Seq<u8>)> {
    match take_field(bytes) {
        None => None,
        Some((name, rest)) => match take_field(rest) {
            None => None,
            Some((signature, tail)) => if tail.len() == 0 && valid_utf8(name) {
                Some((decode_utf8(name), signature))
            } else {
                None
            },
        },
    }
}

/// Four bytes in network byte order read back as the number they were written
/// from.
pub proof fn lemma_be32_value(n: nat)
    requires
        n <= u32::MAX,
    ensures
        be32(n).len() == 4,
        be32_value(be32(n)) == n,
{
}

/// A field followed by anything splits into its content and what followed.
pub proof fn lemma_take_field(content: Seq<u8>, rest: Seq<u8>)
    requires
        content.len() <= u32::MAX,
    ensures
        take_field(field(content) + rest) == Some((content, rest)),
{
    let n: int = content.len() as int;
    let all = field(content) + rest;
    lemma_be32_value(n as nat);
    assert(all.len() == 4 + n + rest.len());
    assert(all[0] == be32(n as nat)[0]);
    assert(all[1] == be32(n as nat)[1]);
    assert(all[2] == be32(n as nat)[2]);
    assert(all[3] == be32(n as nat)[3]);
    assert(be32_value(all) == n);
    assert(all.subrange(4, 4 + n) =~= content);
    assert(all.subrange(4 + n, all.len() as int) =~= rest);
}

/// The length of an envelope: eight bytes of lengths, the name and the
/// signature.
pub proof fn lemma_encode_len(name: Seq<char>, signature: Seq<u8>)
    ensures
        spec_encode(name, signature).len() == 8 + encode_utf8(name).len() + signature.len(),
{
}

/// The round trip: decoding an envelope gives back the name and the signature
/// it was made from.
pub proof fn lemma_decode_encode(name: Seq<char>, signature: Seq<u8>)
    requires
        encode_utf8(name).len() <= u32::MAX,
        signature.len() <= u32::MAX,
    ensures
        spec_decode(spec_encode(name, signature)) == Some((name, signature)),
{
    let name_bytes = encode_utf8(name);
    lemma_take_field(name_bytes, field(signature));
    lemma_take_field(signature, Seq::<u8>::empty());
    assert(field(signature) + Seq::<u8>::empty() =~= field(signature));
    vstd::utf8::encode_utf8_valid_utf8(name);
    vstd::utf8::encode_utf8_decode_utf8(name);
}

/// Two envelopes are equal only if they hold the same name and signature.
pub proof fn lemma_encode_injective(n1: Seq<char>, s1: Seq<u8>, n2: Seq<char>, s2: Seq<u8>)
    requires
        encode_utf8(n1).len() <= u32::MAX,
        s1.len() <= u32::MAX,
        encode_utf8(n2).len() <= u32::MAX,
        s2.len() <= u32::MAX,
        spec_encode(n1, s1) == spec_encode(n2, s2),
    ensures
        n1 == n2,
        s1 == s2,
{
    lemma_decode_encode(n1, s1);
    lemma_decode_encode(n2, s2);
}

/// Appends `n` in network byte order.
pub fn push_be32(out: &mut Vec<u8>, n: u32)
    ensures
        final(out)@ == old(out)@ + be32(n as nat),
{
    out.push((n / 0x100_0000) as u8);
    out.push(((n / 0x1_0000) % 0x100) as u8);
    out.push(((n / 0x100) % 0x100) as u8);
    out.push((n % 0x100) as u8);
}

/// Appends `bytes` as a length-prefixed field.
pub fn push_field(out: &mut Vec<u8>, bytes: &[u8])
    requires
        bytes@.len() <= u32::MAX,
    ensures
        final(out)@ == old(out)@ + field(bytes@),
{
    push_be32(out, bytes.len() as u32);
    let ghost before = out@;
    let mut i: usize = 0;
    while i < bytes.len()
        invariant
            i <= bytes@.len(),
            out@ == before + bytes@.subrange(0, i as int),
        decreases bytes@.len() - i,
    {
        out.push(bytes[i]);
        i += 1;
    }
    assert(bytes@.subrange(0, i as int) =~= bytes@);
}

/// Encodes a raw signature, made with the algorithm called `algorithm_name`,
/// as an SSH signature envelope.
pub fn encode(algorithm_name: &str, raw_signature: &[u8]) -> (out: Vec<u8>)
    requires
        algorithm_name.spec_bytes().len() <= u32::MAX,
        raw_signature@.len() <= u32::MAX,
    ensures
        out@ == spec_encode(algorithm_name@, raw_signature@),
        out@.len() == 8 + algorithm_name.spec_bytes().len() + raw_signature@.len(),
        spec_decode(out@) == Some((algorithm_name@, raw_signature@)),
{
    let mut out: Vec<u8> = Vec::new();
    push_field(&mut out, algorithm_name.as_bytes());
    push_field(&mut out, raw_signature);
    proof {
        lemma_decode_encode(algorithm_name@, raw_signature@);
    }
    out
}

/// Reads the number that the first four bytes hold in network byte order.
pub fn read_be32(bytes: &[u8]) -> (n: u32)
    requires
        bytes@.len() >= 4,
    ensures
        n == be32_value(bytes@),
{
    let b0: u32 = bytes[0] as u32;
    let b1: u32 = bytes[1] as u32;
    let b2: u32 = bytes[2] as u32;
    let b3: u32 = bytes[3] as u32;
    b0 * 0x100_0000 + b1 * 0x1_0000 + b2 * 0x100 + b3
}

/// Splits the first length-prefixed field off `bytes`.
pub fn split_field(bytes: &[u8]) -> (r: Option<(&[u8], &[u8])>)
    ensures
        r is Some <==> take_field(bytes@) is Some,
        r matches Some((content, rest)) ==> take_field(bytes@) == Some((content@, rest@)),
{
    if bytes.len() < 4 {
        return None;
    }
    let n: u32 = read_be32(bytes);
    if bytes.len() - 4 < n as usize {
        return None;
    }
    let end: usize = 4 + n as usize;
    let content = slice_subrange(bytes, 4, end);
    let rest = slice_subrange(bytes, end, bytes.len());
    Some((content, rest))
}

/// `std::str::from_utf8`: the text that `bytes` are the UTF-8 encoding of.
/// Claimed of it: it succeeds exactly on well-formed UTF-8, and the text it
/// returns has those very bytes.
#[verifier::external_body]
fn utf8_text(bytes: &[u8]) -> (r: Option<&str>)
    ensures
        r is Some <==> valid_utf8(bytes@),
        r matches Some(text) ==> text.spec_bytes() == bytes@,
{
    std::str::from_utf8(bytes).ok()
}

/// Decodes an SSH signature envelope into the algorithm name and the raw
/// signature. `None` unless `bytes` is exactly two length-prefixed fields, the
/// first of them UTF-8.
pub fn decode(bytes: &[u8]) -> (r: Option<(String, Vec<u8>)>)
    ensures
        r is Some <==> spec_decode(bytes@) is Some,
        r matches Some((name, signature)) ==> spec_decode(bytes@) == Some((name@, signature@)),
{
    let (name_bytes, rest) = match split_field(bytes) {
        Some(parts) => parts,
        None => {
            return None;
        },
    };
    let (signature, tail) = match split_field(rest) {
        Some(parts) => parts,
        None => {
            return None;
        },
    };
    if tail.len() != 0 {
        return None;
    }
    match utf8_text(name_bytes) {
        None => None,
        Some(text) => {
            proof {
                vstd::utf8::encode_utf8_decode_utf8(text@);
            }
            Some((text.to_owned(), slice_to_vec(signature)))
        },
    }
}

} // verus!
