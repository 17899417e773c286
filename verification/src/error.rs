//! The error taxonomy: every way a header or frame header can be malformed
//! is a variant of one of these enums, and every decode function returns a
//! typed error instead of panicking.

use vstd::prelude::*;

verus! {

/// Failure of the synchsafe integer codec.
#[derive(Clone, Copy, Debug, PartialEq, Eq, Structural)]
pub enum Error {
    /// The size byte at `idx` (0 = most significant) has its high bit set;
    /// `value` is that byte. The format forbids the high bit so that the
    /// MPEG frame-sync pattern cannot occur inside a size field.
    InvalidId3Size { idx: usize, value: u8 },
    /// A value handed to the encoder does not fit in 28 bits and therefore
    /// has no synchsafe representation.
    SizeOutOfRange { value: u32 },
}

/// Which byte of the tag header held the reserved value `0xff`.
#[derive(Clone, Copy, Debug, PartialEq, Eq, Structural)]
pub enum VersionField {
    Version,
    Revision,
}

/// Failure while decoding the 10-byte tag header.
#[derive(Clone, Copy, Debug, PartialEq, Eq, Structural)]
pub enum HeaderError {
    /// Fewer than 10 bytes of input.
    Truncated,
    /// The input does not begin with the ASCII magic `"ID3"`.
    BadMagic,
    /// The version or revision byte holds the reserved value `0xff`.
    ReservedVersionByte { field: VersionField, value: u8 },
    /// The size field is not synchsafe; the inner error carries the codec's
    /// byte index (0 = most significant size byte) and the offending byte.
    BadSize(Error),
}

/// Failure while decoding or encoding a frame header.
#[derive(Clone, Copy, Debug, PartialEq, Eq, Structural)]
pub enum FrameError {
    /// Fewer than 10 bytes of input.
    Truncated,
    /// On decode: the identifier bytes are not valid UTF-8.
    /// On encode: the identifier does not encode to exactly 4 bytes.
    BadIdentifier,
    /// The size field is not synchsafe (decode), or the size does not fit
    /// in 28 bits (encode).
    BadSize(Error),
}

} // verus!
