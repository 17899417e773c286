//! The synchsafe integer codec and the UTF-8 conversions that the header
//! and frame decoders share.
//!
//! A synchsafe integer packs a 28-bit value into 4 bytes, 7 bits per byte,
//! most significant byte first, with the high bit of every byte clear.

use vstd::prelude::*;

use crate::error::{Error, FrameError};

verus! {

/// Largest value a synchsafe integer can carry: `2^28 - 1`.
pub const MAX_SYNCHSAFE: u32 = 0x0FFF_FFFF;

/// True when every byte of a synchsafe run has its high bit clear.
pub open spec fn synchsafe_ok(b: Seq<u8>) -> bool {
    forall|i: int| 0 <= i < b.len() ==> b[i] < 0x80
}

/// The 28-bit value carried by 4 synchsafe bytes: 7 data bits per byte,
/// index 0 most significant.
pub open spec fn synchsafe_combine(b: Seq<u8>) -> u32
    recommends
        b.len() == 4,
        synchsafe_ok(b),
{
    (((b[0] as u32) << 21) | ((b[1] as u32) << 14) | ((b[2] as u32) << 7) | (b[3] as u32)) as u32
}

/// The 4-byte synchsafe encoding of a 28-bit value, most significant byte
/// first.
pub open spec fn synchsafe_bytes(v: u32) -> Seq<u8>
    recommends
        v <= MAX_SYNCHSAFE,
{
    seq![
        (((v >> 21) & 0x7f) as u8),
        (((v >> 14) & 0x7f) as u8),
        (((v >> 7) & 0x7f) as u8),
        ((v & 0x7f) as u8),
    ]
}

/// Index of the first byte of a malformed synchsafe run whose high bit is
/// set; decoding fails at exactly this byte.
pub open spec fn first_high_index(b: Seq<u8>) -> int
    recommends
        b.len() == 4,
        !synchsafe_ok(b),
{
    if b[0] >= 0x80 {
        0
    } else if b[1] >= 0x80 {
        1
    } else if b[2] >= 0x80 {
        2
    } else {
        3
    }
}

/// Decode a 4-byte synchsafe integer. The bytes are scanned in order,
/// index 0 (most significant) first; the first byte with its high bit set
/// fails the decode immediately, and no later byte is inspected.
pub fn parse_id3_4x7_bit_be_uint(bytes: &[u8; 4]) -> (r: Result<u32, Error>)
    ensures
        r is Ok <==> synchsafe_ok(bytes@),
        synchsafe_ok(bytes@) ==> r == Ok::<u32, Error>(synchsafe_combine(bytes@)),
        r matches Ok(v) ==> v <= MAX_SYNCHSAFE,
        !synchsafe_ok(bytes@) ==> r == Err::<u32, Error>(
            Error::InvalidId3Size {
                idx: first_high_index(bytes@) as usize,
                value: bytes@[first_high_index(bytes@)],
            },
        ),
{
    let b0 = bytes[0];
    if b0 >= 0x80 {
        return Err(Error::InvalidId3Size { idx: 0, value: b0 });
    }
    let b1 = bytes[1];
    if b1 >= 0x80 {
        return Err(Error::InvalidId3Size { idx: 1, value: b1 });
    }
    let b2 = bytes[2];
    if b2 >= 0x80 {
        return Err(Error::InvalidId3Size { idx: 2, value: b2 });
    }
    let b3 = bytes[3];
    if b3 >= 0x80 {
        return Err(Error::InvalidId3Size { idx: 3, value: b3 });
    }
    let v: u32 = ((b0 as u32) << 21) | ((b1 as u32) << 14) | ((b2 as u32) << 7) | (b3 as u32);
    proof {
        lemma_synchsafe_combine_range(bytes@);
    }
    Ok(v)
}

/// Encode a 28-bit value as 4 synchsafe bytes, most significant first.
///
/// A value that does not fit in 28 bits has no synchsafe representation and
/// is rejected with `Error::SizeOutOfRange`; the encoder never truncates.
pub fn write_id3_4x7_bit_be_uint(value: u32) -> (r: Result<[u8; 4], Error>)
    ensures
        r is Ok <==> value <= MAX_SYNCHSAFE,
        value <= MAX_SYNCHSAFE ==> (r matches Ok(b) && b@ == synchsafe_bytes(value)
            && synchsafe_ok(b@) && synchsafe_combine(b@) == value),
        value > MAX_SYNCHSAFE ==> r == Err::<[u8; 4], Error>(Error::SizeOutOfRange { value }),
{
    if value > MAX_SYNCHSAFE {
        return Err(Error::SizeOutOfRange { value });
    }
    let b0: u8 = ((value >> 21) & 0x7f) as u8;
    let b1: u8 = ((value >> 14) & 0x7f) as u8;
    let b2: u8 = ((value >> 7) & 0x7f) as u8;
    let b3: u8 = (value & 0x7f) as u8;
    let out: [u8; 4] = [b0, b1, b2, b3];
    proof {
        assert(out@ =~= synchsafe_bytes(value));
        lemma_synchsafe_round_trip(value);
    }
    Ok(out)
}

/// Round-trip law of the synchsafe codec: every 28-bit value's encoding is
/// synchsafe (no byte has its high bit set) and decodes back to the value.
pub proof fn lemma_synchsafe_round_trip(v: u32)
    requires
        v <= MAX_SYNCHSAFE,
    ensures
        synchsafe_ok(synchsafe_bytes(v)),
        synchsafe_combine(synchsafe_bytes(v)) == v,
{
    assert(((v >> 21) & 0x7f) < 0x80) by (bit_vector);
    assert(((v >> 14) & 0x7f) < 0x80) by (bit_vector);
    assert(((v >> 7) & 0x7f) < 0x80) by (bit_vector);
    assert((v & 0x7f) < 0x80) by (bit_vector);
    assert(forall|i: int| 0 <= i < 4 ==> synchsafe_bytes(v)[i] < 0x80);
    assert(((((((v >> 21) & 0x7f) as u8) as u32) << 21) | (((((v >> 14) & 0x7f) as u8)
        as u32) << 14) | (((((v >> 7) & 0x7f) as u8) as u32) << 7) | (((v & 0x7f) as u8)
        as u32)) == v) by (bit_vector)
        requires
            v <= 0x0FFF_FFFFu32,
    ;
}

/// Turn raw identifier bytes into text.
///
/// Relies on `String::from_utf8`: it returns `Ok` exactly when the bytes
/// are valid UTF-8, and then the string's characters are their decoding.
#[verifier::external_body]
pub fn parse_utf8_string(bytes: Vec<u8>) -> (r: Result<String, FrameError>)
    ensures
        r is Ok <==> vstd::utf8::valid_utf8(bytes@),
        match r {
            Ok(s) => s@ == vstd::utf8::decode_utf8(bytes@),
            Err(e) => e == FrameError::BadIdentifier,
        },
{
    match String::from_utf8(bytes) {
        Ok(s) => Ok(s),
        Err(_) => Err(FrameError::BadIdentifier),
    }
}

/// The UTF-8 bytes of a string.
pub fn string_to_utf8_bytes(s: &String) -> (r: Vec<u8>)
    ensures
        r@ == vstd::utf8::encode_utf8(s@),
{
    vstd::slice::slice_to_vec(s.as_str().as_bytes())
}

/// Any well-formed 4-byte synchsafe run decodes to a 28-bit value.
pub proof fn lemma_synchsafe_combine_range(b: Seq<u8>)
    requires
        b.len() == 4,
        synchsafe_ok(b),
    ensures
        synchsafe_combine(b) <= MAX_SYNCHSAFE,
{
    let x0 = b[0];
    let x1 = b[1];
    let x2 = b[2];
    let x3 = b[3];
    assert((((x0 as u32) << 21) | ((x1 as u32) << 14) | ((x2 as u32) << 7) | (x3 as u32))
        <= 0x0FFF_FFFFu32) by (bit_vector)
        requires
            x0 < 0x80,
            x1 < 0x80,
            x2 < 0x80,
            x3 < 0x80,
    ;
}

} // verus!
