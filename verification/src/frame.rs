//! The 10-byte frame header: a 4-byte UTF-8 identifier, a synchsafe 28-bit
//! body size, and two bit-mapped flag bytes.

use vstd::prelude::*;

use crate::error::{Error, FrameError};
use crate::helper::{
    first_high_index, parse_id3_4x7_bit_be_uint, parse_utf8_string, string_to_utf8_bytes,
    synchsafe_bytes, synchsafe_combine, synchsafe_ok, write_id3_4x7_bit_be_uint,
    lemma_synchsafe_combine_range, MAX_SYNCHSAFE,
};

verus! {

/// The frame's status flags byte, bit-mapped from bit 7 down: unused,
/// tag alter preservation, file alter preservation, read only; bits 3-0
/// are reserved and carried through uninterpreted.
#[derive(Clone, Copy, Debug, PartialEq, Eq, Structural)]
pub struct FrameStatus {
    pub bytes: u8,
}

impl FrameStatus {
    /// The status byte exactly as it appears in the frame header.
    pub fn from_bytes(bytes: [u8; 1]) -> (r: FrameStatus)
        ensures
            r.bytes == bytes@[0],
    {
        FrameStatus { bytes: bytes[0] }
    }

    /// All flags clear.
    pub fn new() -> (r: FrameStatus)
        ensures
            r.bytes == 0,
    {
        FrameStatus { bytes: 0 }
    }

    /// The raw bit-packed representation.
    pub fn into_bytes(self) -> (r: [u8; 1])
        ensures
            r@[0] == self.bytes,
    {
        [self.bytes]
    }

    /// Bit 7, unused by the format.
    pub fn unused(&self) -> (r: bool)
        ensures
            r == (self.bytes & 0x80 != 0),
    {
        self.bytes & 0x80 != 0
    }

    /// Bit 6: discard the frame when the tag is altered.
    pub fn tag_alter_preservation(&self) -> (r: bool)
        ensures
            r == (self.bytes & 0x40 != 0),
    {
        self.bytes & 0x40 != 0
    }

    /// Bit 5: discard the frame when the file is altered.
    pub fn file_alter_preservation(&self) -> (r: bool)
        ensures
            r == (self.bytes & 0x20 != 0),
    {
        self.bytes & 0x20 != 0
    }

    /// Bit 4: the frame should not be changed.
    pub fn read_only(&self) -> (r: bool)
        ensures
            r == (self.bytes & 0x10 != 0),
    {
        self.bytes & 0x10 != 0
    }

    /// Bits 3-0, reserved.
    pub fn rest(&self) -> (r: u8)
        ensures
            r == self.bytes & 0x0f,
    {
        self.bytes & 0x0f
    }

    /// Bit 7 set to `v`.
    pub fn with_unused(self, v: bool) -> (r: FrameStatus)
        ensures
            r.bytes == if v { self.bytes | 0x80 } else { self.bytes & 0x7f },
    {
        FrameStatus { bytes: if v { self.bytes | 0x80 } else { self.bytes & 0x7f } }
    }

    /// Bit 6 set to `v`.
    pub fn with_tag_alter_preservation(self, v: bool) -> (r: FrameStatus)
        ensures
            r.bytes == if v { self.bytes | 0x40 } else { self.bytes & 0xbf },
    {
        FrameStatus { bytes: if v { self.bytes | 0x40 } else { self.bytes & 0xbf } }
    }

    /// Bit 5 set to `v`.
    pub fn with_file_alter_preservation(self, v: bool) -> (r: FrameStatus)
        ensures
            r.bytes == if v { self.bytes | 0x20 } else { self.bytes & 0xdf },
    {
        FrameStatus { bytes: if v { self.bytes | 0x20 } else { self.bytes & 0xdf } }
    }

    /// Bit 4 set to `v`.
    pub fn with_read_only(self, v: bool) -> (r: FrameStatus)
        ensures
            r.bytes == if v { self.bytes | 0x10 } else { self.bytes & 0xef },
    {
        FrameStatus { bytes: if v { self.bytes | 0x10 } else { self.bytes & 0xef } }
    }

    /// Bits 3-0 set to `v`.
    pub fn with_rest(self, v: u8) -> (r: FrameStatus)
        requires
            v < 0x10,
        ensures
            r.bytes == (self.bytes & 0xf0) | v,
    {
        FrameStatus { bytes: (self.bytes & 0xf0) | v }
    }
}

impl Default for FrameStatus {
    /// All flags clear.
    fn default() -> (r: FrameStatus)
        ensures
            r.bytes == 0,
    {
        FrameStatus { bytes: 0 }
    }
}

/// The frame's format flags byte: bit 7 is unused by the format and bits
/// 6-0 are reserved, all carried through uninterpreted.
#[derive(Clone, Copy, Debug, PartialEq, Eq, Structural)]
pub struct FrameFormat {
    pub bytes: u8,
}

impl FrameFormat {
    /// The format byte exactly as it appears in the frame header.
    pub fn from_bytes(bytes: [u8; 1]) -> (r: FrameFormat)
        ensures
            r.bytes == bytes@[0],
    {
        FrameFormat { bytes: bytes[0] }
    }

    /// All flags clear.
    pub fn new() -> (r: FrameFormat)
        ensures
            r.bytes == 0,
    {
        FrameFormat { bytes: 0 }
    }

    /// The raw bit-packed representation.
    pub fn into_bytes(self) -> (r: [u8; 1])
        ensures
            r@[0] == self.bytes,
    {
        [self.bytes]
    }

    /// Bit 7, unused by the format.
    pub fn unused(&self) -> (r: bool)
        ensures
            r == (self.bytes & 0x80 != 0),
    {
        self.bytes & 0x80 != 0
    }

    /// Bits 6-0, reserved.
    pub fn rest(&self) -> (r: u8)
        ensures
            r == self.bytes & 0x7f,
    {
        self.bytes & 0x7f
    }

    /// Bit 7 set to `v`.
    pub fn with_unused(self, v: bool) -> (r: FrameFormat)
        ensures
            r.bytes == if v { self.bytes | 0x80 } else { self.bytes & 0x7f },
    {
        FrameFormat { bytes: if v { self.bytes | 0x80 } else { self.bytes & 0x7f } }
    }

    /// Bits 6-0 set to `v`.
    pub fn with_rest(self, v: u8) -> (r: FrameFormat)
        requires
            v < 0x80,
        ensures
            r.bytes == (self.bytes & 0x80) | v,
    {
        FrameFormat { bytes: (self.bytes & 0x80) | v }
    }
}

impl Default for FrameFormat {
    /// All flags clear.
    fn default() -> (r: FrameFormat)
        ensures
            r.bytes == 0,
    {
        FrameFormat { bytes: 0 }
    }
}

/// One frame header, decoded.
#[derive(Debug)]
pub struct Frame {
    /// The frame's 4-byte identifier, as text; decoding accepts any
    /// identifier bytes that are valid UTF-8.
    pub identifier: String,
    /// The number of bytes in the frame body that follows the header,
    /// decoded from the synchsafe size field; always below `2^28`.
    pub size: u32,
    /// The bit-mapped status flags byte.
    pub status: FrameStatus,
    /// The bit-mapped format flags byte.
    pub format: FrameFormat,
}

/// True when 10 or more bytes carry a well-formed frame header: a UTF-8
/// identifier and a synchsafe size field.
pub open spec fn frame_decodes(b: Seq<u8>) -> bool {
    &&& b.len() >= 10
    &&& vstd::utf8::valid_utf8(b.subrange(0, 4))
    &&& synchsafe_ok(b.subrange(4, 8))
}

/// True when the frame's fields are exactly what decoding `b` yields:
/// the identifier is the decoded text of bytes 0-3, the size is the
/// synchsafe value of bytes 4-7, and the flag bytes are bytes 8 and 9.
pub open spec fn frame_matches(b: Seq<u8>, f: Frame) -> bool {
    &&& f.identifier@ == vstd::utf8::decode_utf8(b.subrange(0, 4))
    &&& f.size == synchsafe_combine(b.subrange(4, 8))
    &&& f.status.bytes == b[8]
    &&& f.format.bytes == b[9]
}

impl Frame {
    /// A frame that can be encoded: its identifier's UTF-8 form is exactly
    /// 4 bytes and its size fits in 28 bits.
    pub open spec fn wf(self) -> bool {
        &&& vstd::utf8::encode_utf8(self.identifier@).len() == 4
        &&& self.size <= MAX_SYNCHSAFE
    }

    /// Decode a frame header from the first 10 bytes of `bytes`.
    ///
    /// Checks run in order: length, identifier, size; the first violation
    /// decides the error. Decoding is all-or-nothing: no partial frame
    /// exists on failure.
    pub fn read(bytes: &[u8]) -> (r: Result<Frame, FrameError>)
        ensures
            r is Ok <==> frame_decodes(bytes@),
            frame_decodes(bytes@) ==> (r matches Ok(f) && frame_matches(bytes@, f)
                && f.wf()),
            bytes@.len() < 10 ==> r == Err::<Frame, FrameError>(FrameError::Truncated),
            bytes@.len() >= 10 && !vstd::utf8::valid_utf8(bytes@.subrange(0, 4)) ==> r
                == Err::<Frame, FrameError>(FrameError::BadIdentifier),
            bytes@.len() >= 10 && vstd::utf8::valid_utf8(bytes@.subrange(0, 4))
                && !synchsafe_ok(bytes@.subrange(4, 8)) ==> r == Err::<Frame, FrameError>(
                FrameError::BadSize(
                    Error::InvalidId3Size {
                        idx: first_high_index(bytes@.subrange(4, 8)) as usize,
                        value: bytes@.subrange(4, 8)[first_high_index(
                            bytes@.subrange(4, 8),
                        )],
                    },
                ),
            ),
    {
        if bytes.len() < 10 {
            return Err(FrameError::Truncated);
        }
        let mut id_bytes: Vec<u8> = Vec::new();
        id_bytes.push(bytes[0]);
        id_bytes.push(bytes[1]);
        id_bytes.push(bytes[2]);
        id_bytes.push(bytes[3]);
        proof {
            assert(id_bytes@ =~= bytes@.subrange(0, 4));
        }
        let ghost id_seq = id_bytes@;
        let identifier = match parse_utf8_string(id_bytes) {
            Ok(s) => s,
            Err(e) => {
                return Err(e);
            },
        };
        let size_bytes: [u8; 4] = [bytes[4], bytes[5], bytes[6], bytes[7]];
        proof {
            assert(size_bytes@ =~= bytes@.subrange(4, 8));
        }
        let size = match parse_id3_4x7_bit_be_uint(&size_bytes) {
            Ok(v) => v,
            Err(e) => {
                return Err(FrameError::BadSize(e));
            },
        };
        let status = FrameStatus { bytes: bytes[8] };
        let format = FrameFormat { bytes: bytes[9] };
        proof {
            vstd::utf8::decode_utf8_encode_utf8(id_seq);
            lemma_synchsafe_combine_range(size_bytes@);
        }
        Ok(Frame { identifier, size, status, format })
    }

    /// Encode the frame header as its 10 bytes: identifier, synchsafe
    /// size, status byte, format byte.
    ///
    /// An identifier whose UTF-8 form is not exactly 4 bytes is rejected
    /// with `BadIdentifier`; a size that does not fit in 28 bits is
    /// rejected with `BadSize`. On success the bytes decode back to this
    /// very frame: they satisfy `frame_decodes` and `frame_matches`.
    pub fn write(&self) -> (r: Result<Vec<u8>, FrameError>)
        ensures
            r is Ok <==> self.wf(),
            self.wf() ==> (r matches Ok(b) && b@.len() == 10
                && b@ == vstd::utf8::encode_utf8(self.identifier@)
                + synchsafe_bytes(self.size) + seq![self.status.bytes, self.format.bytes]
                && frame_decodes(b@) && frame_matches(b@, *self)),
            vstd::utf8::encode_utf8(self.identifier@).len() != 4 ==> r == Err::<
                Vec<u8>,
                FrameError,
            >(FrameError::BadIdentifier),
            vstd::utf8::encode_utf8(self.identifier@).len() == 4 && self.size
                > MAX_SYNCHSAFE ==> r == Err::<Vec<u8>, FrameError>(
                FrameError::BadSize(Error::SizeOutOfRange { value: self.size }),
            ),
    {
        let mut id_bytes = string_to_utf8_bytes(&self.identifier);
        if id_bytes.len() != 4 {
            return Err(FrameError::BadIdentifier);
        }
        let size_bytes = match write_id3_4x7_bit_be_uint(self.size) {
            Ok(b) => b,
            Err(e) => {
                return Err(FrameError::BadSize(e));
            },
        };
        let mut out: Vec<u8> = Vec::new();
        out.append(&mut id_bytes);
        out.push(size_bytes[0]);
        out.push(size_bytes[1]);
        out.push(size_bytes[2]);
        out.push(size_bytes[3]);
        out.push(self.status.bytes);
        out.push(self.format.bytes);
        proof {
            let id = vstd::utf8::encode_utf8(self.identifier@);
            assert(out@ =~= id + synchsafe_bytes(self.size) + seq![
                self.status.bytes,
                self.format.bytes,
            ]);
            assert(out@.subrange(0, 4) =~= id);
            assert(out@.subrange(4, 8) =~= synchsafe_bytes(self.size));
            vstd::utf8::encode_utf8_valid_utf8(self.identifier@);
            vstd::utf8::encode_utf8_decode_utf8(self.identifier@);
        }
        Ok(out)
    }
}

/// Round-trip law for frame headers: any two frames whose fields match the
/// same byte string agree on every field. Together with the contracts of
/// `Frame::write` (whose output matches the written frame) and
/// `Frame::read` (whose output matches the read bytes), reading back a
/// well-formed frame's encoding always restores the frame.
pub proof fn lemma_frame_round_trip(b: Seq<u8>, f: Frame, g: Frame)
    requires
        frame_matches(b, f),
        frame_matches(b, g),
    ensures
        f.identifier@ == g.identifier@,
        f.size == g.size,
        f.status == g.status,
        f.format == g.format,
{
}

impl PartialEq for Frame {
    /// Frames are equal when all four fields are: identifiers as text,
    /// sizes and flag bytes as values.
    fn eq(&self, other: &Frame) -> (r: bool) {
        self.identifier == other.identifier && self.size == other.size
            && self.status.bytes == other.status.bytes
            && self.format.bytes == other.format.bytes
    }
}

impl vstd::std_specs::cmp::PartialEqSpecImpl for Frame {
    open spec fn obeys_eq_spec() -> bool {
        true
    }

    open spec fn eq_spec(&self, other: &Frame) -> bool {
        &&& self.identifier@ == other.identifier@
        &&& self.size == other.size
        &&& self.status == other.status
        &&& self.format == other.format
    }
}

impl Default for Frame {
    /// The empty frame: no identifier text, size zero, all flags clear.
    fn default() -> (r: Frame)
        ensures
            r.identifier@ == Seq::<char>::empty(),
            r.size == 0,
            r.status.bytes == 0,
            r.format.bytes == 0,
    {
        Frame {
            identifier: String::new(),
            size: 0,
            status: FrameStatus { bytes: 0 },
            format: FrameFormat { bytes: 0 },
        }
    }
}

} // verus!
