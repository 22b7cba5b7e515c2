//! Wire payload of a phase sample: postcard's encoding of a `u16`, which is an
//! unsigned LEB128 varint of one to three bytes.
use vstd::prelude::*;

verus! {

#[verifier::external_type_specification]
#[verifier::external_body]
pub struct ExPostcardError(postcard::Error);

/// Why a payload could not be decoded.
#[derive(Debug, Clone, Copy, PartialEq, Eq, Structural)]
pub enum DecodeError {
    /// The bytes do not start with a well-formed varint that fits in 16 bits.
    Malformed,
}

/// The varint bytes of `v`: seven bits per byte, least significant first,
/// with the high bit set on every byte but the last.
pub open spec fn varint_u16(v: u16) -> Seq<u8> {
    if v < 0x80 {
        seq![v as u8]
    } else if v < 0x4000 {
        seq![(v % 0x80 + 0x80) as u8, (v / 0x80) as u8]
    } else {
        seq![(v % 0x80 + 0x80) as u8, ((v / 0x80) % 0x80 + 0x80) as u8, (v / 0x4000) as u8]
    }
}

/// The value at the front of `b`, if `b` starts with a varint that fits in 16
/// bits; bytes after it are ignored.
pub open spec fn varint_prefix(b: Seq<u8>) -> Option<u16> {
    if b.len() >= 1 && b[0] < 0x80 {
        Some(b[0] as u16)
    } else if b.len() >= 2 && b[0] >= 0x80 && b[1] < 0x80 {
        Some((b[0] - 0x80 + b[1] * 0x80) as u16)
    } else if b.len() >= 3 && b[0] >= 0x80 && b[1] >= 0x80 && b[2] <= 3 {
        Some((b[0] - 0x80 + (b[1] - 0x80) * 0x80 + b[2] * 0x4000) as u16)
    } else {
        None
    }
}

/// Relies on postcard::to_allocvec: a `u16` is written as its varint, and
/// writing into a growable vector does not fail.
#[verifier::external_body]
fn postcard_to_vec(v: u16) -> (r: Result<Vec<u8>, postcard::Error>)
    ensures
        r is Ok,
        r->Ok_0@ == varint_u16(v),
{
    postcard::to_allocvec(&v)
}

/// Relies on postcard::from_bytes: a `u16` is read as a varint from the front
/// of the slice, rejecting a missing byte, a fourth byte or a third byte
/// above 3.
#[verifier::external_body]
fn postcard_from_slice(b: &[u8]) -> (r: Result<u16, postcard::Error>)
    ensures
        r is Ok <==> varint_prefix(b@) is Some,
        r is Ok ==> varint_prefix(b@) == Some(r->Ok_0),
{
    postcard::from_bytes::<u16>(b)
}

/// Encodes a phase sample into its wire payload.
pub fn encode(v: u16) -> (r: Vec<u8>)
    ensures
        r@ == varint_u16(v),
{
    match postcard_to_vec(v) {
        Ok(b) => b,
        Err(_) => Vec::new(),
    }
}

/// Decodes a phase sample from the front of a wire payload.
pub fn decode(b: &[u8]) -> (r: Result<u16, DecodeError>)
    ensures
        match varint_prefix(b@) {
            Some(v) => r == Ok::<u16, DecodeError>(v),
            None => r == Err::<u16, DecodeError>(DecodeError::Malformed),
        },
{
    match postcard_from_slice(b) {
        Ok(v) => Ok(v),
        Err(_) => Err(DecodeError::Malformed),
    }
}

/// Decoding the encoding of any value gives the value back, also when more
/// bytes follow it.
pub proof fn lemma_round_trip(v: u16, rest: Seq<u8>)
    ensures
        varint_prefix(varint_u16(v)) == Some(v),
        varint_prefix(varint_u16(v) + rest) == Some(v),
{
    let e = varint_u16(v) + rest;
    assert(e[0] == varint_u16(v)[0]);
    if v >= 0x80 {
        assert(e[1] == varint_u16(v)[1]);
    }
    if v >= 0x4000 {
        assert(e[2] == varint_u16(v)[2]);
    }
}

} // verus!
