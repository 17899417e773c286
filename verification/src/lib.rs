//! Decoders and encoders for the fixed-size header structures of an ID3v2
//! tag: the 28-bit synchsafe integer codec, the 10-byte tag header, and the
//! 10-byte frame header.
//!
//! ID3v2 stores sizes as 4-byte big-endian integers in which only the low 7
//! bits of each byte carry data; the high bit of every byte must be zero, so
//! that the MPEG frame-sync pattern can never appear inside a size field.
//! Decoding rejects any byte with the high bit set, reporting the offending
//! byte, and encoding always round-trips through this 28-bit layout.

pub mod error;
pub mod frame;
pub mod header;
pub mod helper;
