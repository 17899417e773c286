//! The 10-byte tag header: ASCII magic `"ID3"`, version, revision, a
//! bit-mapped flags byte, and a synchsafe 28-bit tag size.

use vstd::prelude::*;

use crate::error::{Error, HeaderError, VersionField};
use crate::helper::{
    first_high_index, parse_id3_4x7_bit_be_uint, synchsafe_combine, synchsafe_ok,
    lemma_synchsafe_combine_range, MAX_SYNCHSAFE,
};

verus! {

/// The tag header's flags byte, bit-mapped from bit 7 down:
/// unsynchronization, extended header, experimental indicator, footer
/// present; bits 3-0 are reserved and carried through uninterpreted.
#[derive(Clone, Copy, Debug, PartialEq, Eq, Structural)]
pub struct HeaderFlags {
    pub bytes: u8,
}

impl HeaderFlags {
    /// The flags byte exactly as it appears in the header.
    pub fn from_bytes(bytes: [u8; 1]) -> (r: HeaderFlags)
        ensures
            r.bytes == bytes@[0],
    {
        HeaderFlags { bytes: bytes[0] }
    }

    /// All flags clear.
    pub fn new() -> (r: HeaderFlags)
        ensures
            r.bytes == 0,
    {
        HeaderFlags { bytes: 0 }
    }

    /// The raw bit-packed representation.
    pub fn into_bytes(self) -> (r: [u8; 1])
        ensures
            r@[0] == self.bytes,
    {
        [self.bytes]
    }

    /// Bit 7: whether unsynchronization is applied to the tag.
    pub fn is_unsynchronized(&self) -> (r: bool)
        ensures
            r == (self.bytes & 0x80 != 0),
    {
        self.bytes & 0x80 != 0
    }

    /// Bit 6: whether an extended header follows the tag header.
    pub fn extended_header(&self) -> (r: bool)
        ensures
            r == (self.bytes & 0x40 != 0),
    {
        self.bytes & 0x40 != 0
    }

    /// Bit 5: whether the tag is in an experimental stage.
    pub fn experimental_indicator(&self) -> (r: bool)
        ensures
            r == (self.bytes & 0x20 != 0),
    {
        self.bytes & 0x20 != 0
    }

    /// Bit 4: whether a footer follows the frames.
    pub fn footer_present(&self) -> (r: bool)
        ensures
            r == (self.bytes & 0x10 != 0),
    {
        self.bytes & 0x10 != 0
    }

    /// Bits 3-0, reserved.
    pub fn rest(&self) -> (r: u8)
        ensures
            r == self.bytes & 0x0f,
    {
        self.bytes & 0x0f
    }
}

/// True when the first three bytes are the ASCII magic `"ID3"`
/// (`0x49 0x44 0x33`).
pub open spec fn magic_ok(b: Seq<u8>) -> bool
    recommends
        b.len() >= 3,
{
    b[0] == 0x49u8 && b[1] == 0x44u8 && b[2] == 0x33u8
}

/// True when 10 or more bytes carry a well-formed tag header: the magic,
/// no reserved version or revision byte, and a synchsafe size field.
pub open spec fn header_decodes(b: Seq<u8>) -> bool {
    &&& b.len() >= 10
    &&& magic_ok(b)
    &&& b[3] != 0xffu8
    &&& b[4] != 0xffu8
    &&& synchsafe_ok(b.subrange(6, 10))
}

/// The 10-byte tag header, decoded.
#[derive(Clone, Copy, Debug, PartialEq, Eq, Structural)]
pub struct Header {
    /// Major version; never `0xff`.
    pub version: u8,
    /// Revision number; never `0xff`. Revisions are backwards compatible
    /// while major versions are not.
    pub revision: u8,
    /// The bit-mapped flags byte.
    pub flags: HeaderFlags,
    /// Total tag size excluding this 10-byte header, decoded from the
    /// synchsafe size field; always below `2^28`.
    pub size: u32,
}

/// The extended header; its contents are no concern of the fixed-size
/// header codec.
pub struct ExtendedHeader {}

impl Header {
    /// A decoded header never holds a reserved version byte or an
    /// oversized tag size.
    pub open spec fn wf(self) -> bool {
        &&& self.version != 0xff
        &&& self.revision != 0xff
        &&& self.size <= MAX_SYNCHSAFE
    }

    pub fn new(version: u8, revision: u8, flags: HeaderFlags, size: u32) -> (r: Header)
        requires
            version != 0xff,
            revision != 0xff,
            size <= MAX_SYNCHSAFE,
        ensures
            r == (Header { version, revision, flags, size }),
            r.wf(),
    {
        Header { version, revision, flags, size }
    }

    /// Decode the 10-byte tag header from the start of `bytes`.
    ///
    /// Checks run in order: length, magic, version, revision, size; the
    /// first violation decides the error, and nothing after it is read.
    /// Decoding is all-or-nothing: no partial header exists on failure.
    pub fn read(bytes: &[u8]) -> (r: Result<Header, HeaderError>)
        ensures
            r is Ok <==> header_decodes(bytes@),
            header_decodes(bytes@) ==> (r matches Ok(h) && h.version == bytes@[3]
                && h.revision == bytes@[4] && h.flags.bytes == bytes@[5]
                && h.size == synchsafe_combine(bytes@.subrange(6, 10)) && h.wf()),
            bytes@.len() < 10 ==> r == Err::<Header, HeaderError>(HeaderError::Truncated),
            bytes@.len() >= 10 && !magic_ok(bytes@) ==> r == Err::<Header, HeaderError>(
                HeaderError::BadMagic,
            ),
            bytes@.len() >= 10 && magic_ok(bytes@) && bytes@[3] == 0xffu8 ==> r == Err::<
                Header,
                HeaderError,
            >(
                HeaderError::ReservedVersionByte {
                    field: VersionField::Version,
                    value: 0xffu8,
                },
            ),
            bytes@.len() >= 10 && magic_ok(bytes@) && bytes@[3] != 0xffu8 && bytes@[4]
                == 0xffu8 ==> r == Err::<Header, HeaderError>(
                HeaderError::ReservedVersionByte {
                    field: VersionField::Revision,
                    value: 0xffu8,
                },
            ),
            bytes@.len() >= 10 && magic_ok(bytes@) && bytes@[3] != 0xffu8 && bytes@[4]
                != 0xffu8 && !synchsafe_ok(bytes@.subrange(6, 10)) ==> r == Err::<
                Header,
                HeaderError,
            >(
                HeaderError::BadSize(
                    Error::InvalidId3Size {
                        idx: first_high_index(bytes@.subrange(6, 10)) as usize,
                        value: bytes@.subrange(6, 10)[first_high_index(
                            bytes@.subrange(6, 10),
                        )],
                    },
                ),
            ),
    {
        if bytes.len() < 10 {
            return Err(HeaderError::Truncated);
        }
        // The ASCII magic "ID3".
        if bytes[0] != 0x49 || bytes[1] != 0x44 || bytes[2] != 0x33 {
            return Err(HeaderError::BadMagic);
        }
        let version = bytes[3];
        if version == 0xff {
            return Err(
                HeaderError::ReservedVersionByte { field: VersionField::Version, value: 0xff },
            );
        }
        let revision = bytes[4];
        if revision == 0xff {
            return Err(
                HeaderError::ReservedVersionByte { field: VersionField::Revision, value: 0xff },
            );
        }
        let flags = HeaderFlags { bytes: bytes[5] };
        let size_bytes: [u8; 4] = [bytes[6], bytes[7], bytes[8], bytes[9]];
        proof {
            assert(size_bytes@ =~= bytes@.subrange(6, 10));
        }
        match parse_id3_4x7_bit_be_uint(&size_bytes) {
            Ok(size) => {
                proof {
                    lemma_synchsafe_combine_range(size_bytes@);
                }
                Ok(Header { version, revision, flags, size })
            },
            Err(e) => Err(HeaderError::BadSize(e)),
        }
    }
}

} // verus!
