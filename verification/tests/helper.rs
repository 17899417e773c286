use id3_headers::error::{Error, FrameError};
use id3_headers::helper::{
    parse_id3_4x7_bit_be_uint, parse_utf8_string, string_to_utf8_bytes, write_id3_4x7_bit_be_uint,
};

#[test]
fn test_write_id3_4x7_bit_be_uint() {
    let x: u32 = 0b1010_10101010_10101010;
    let bytes = write_id3_4x7_bit_be_uint(x).unwrap();
    assert_eq!(bytes, [0x00, 0x2a, 0x55, 0x2a]);
}

#[test]
fn test_sync_safe_int_symmetric() {
    let x: u32 = 0b1010_10101010_10101010;
    let bytes = write_id3_4x7_bit_be_uint(x).unwrap();
    let decoded = parse_id3_4x7_bit_be_uint(&bytes);
    assert_eq!(decoded, Ok(x));
}

#[test]
fn round_trip_boundary_values() {
    for x in [0u32, 1, 127, 128, 255, 0x0123_4567, 0x0FFF_FFFE, 0x0FFF_FFFF] {
        let bytes = write_id3_4x7_bit_be_uint(x).unwrap();
        for b in bytes {
            assert!(b < 0x80);
        }
        assert_eq!(parse_id3_4x7_bit_be_uint(&bytes), Ok(x));
    }
}

#[test]
fn parse_exact_values() {
    assert_eq!(parse_id3_4x7_bit_be_uint(&[0, 0, 1, 0]), Ok(128));
    assert_eq!(parse_id3_4x7_bit_be_uint(&[0, 0, 1, 0x7f]), Ok(255));
    assert_eq!(parse_id3_4x7_bit_be_uint(&[0, 0, 2, 1]), Ok(257));
    assert_eq!(parse_id3_4x7_bit_be_uint(&[0x7f; 4]), Ok(0x0FFF_FFFF));
    assert_eq!(parse_id3_4x7_bit_be_uint(&[0; 4]), Ok(0));
}

#[test]
fn parse_rejects_high_bit_at_each_index() {
    assert_eq!(
        parse_id3_4x7_bit_be_uint(&[0x80, 0, 0, 0]),
        Err(Error::InvalidId3Size { idx: 0, value: 0x80 })
    );
    assert_eq!(
        parse_id3_4x7_bit_be_uint(&[0, 0xff, 0, 0]),
        Err(Error::InvalidId3Size { idx: 1, value: 0xff })
    );
    assert_eq!(
        parse_id3_4x7_bit_be_uint(&[0, 0, 0x81, 0]),
        Err(Error::InvalidId3Size { idx: 2, value: 0x81 })
    );
    assert_eq!(
        parse_id3_4x7_bit_be_uint(&[0, 0, 0, 0xff]),
        Err(Error::InvalidId3Size { idx: 3, value: 0xff })
    );
}

#[test]
fn parse_reports_first_bad_byte() {
    assert_eq!(
        parse_id3_4x7_bit_be_uint(&[0x90, 0xff, 0xff, 0xff]),
        Err(Error::InvalidId3Size { idx: 0, value: 0x90 })
    );
    assert_eq!(
        parse_id3_4x7_bit_be_uint(&[0x01, 0x82, 0xff, 0x03]),
        Err(Error::InvalidId3Size { idx: 1, value: 0x82 })
    );
}

#[test]
fn write_rejects_values_over_28_bits() {
    assert_eq!(
        write_id3_4x7_bit_be_uint(0x1000_0000),
        Err(Error::SizeOutOfRange { value: 0x1000_0000 })
    );
    assert_eq!(
        write_id3_4x7_bit_be_uint(u32::MAX),
        Err(Error::SizeOutOfRange { value: u32::MAX })
    );
}

#[test]
fn utf8_conversions_round_trip() {
    assert_eq!(parse_utf8_string(b"TIT2".to_vec()), Ok("TIT2".to_string()));
    assert_eq!(string_to_utf8_bytes(&"TIT2".to_string()), b"TIT2".to_vec());
    // A two-byte character exercises real UTF-8 coding, not a byte copy.
    assert_eq!(string_to_utf8_bytes(&"\u{e9}".to_string()), vec![0xc3, 0xa9]);
    assert_eq!(parse_utf8_string(vec![0xc3, 0xa9]), Ok("\u{e9}".to_string()));
}

#[test]
fn utf8_parse_rejects_invalid_bytes() {
    assert_eq!(
        parse_utf8_string(vec![0xff, 0xfe, 0x00, 0x00]),
        Err(FrameError::BadIdentifier)
    );
    assert_eq!(parse_utf8_string(vec![0xc3]), Err(FrameError::BadIdentifier));
}
