use id3_headers::error::{Error, FrameError};
use id3_headers::frame::{Frame, FrameFormat, FrameStatus};

#[test]
fn test_write_frame() {
    let frame = Frame {
        identifier: "TIT2".to_string(),
        size: 0,
        status: FrameStatus::new()
            .with_unused(false)
            .with_tag_alter_preservation(true)
            .with_file_alter_preservation(true)
            .with_read_only(false)
            .with_rest(0b0000),
        format: FrameFormat::new().with_unused(false).with_rest(0b0000000),
    };
    let encoded = frame.write().unwrap();
    let expected: Vec<u8> = b"TIT2"
        .to_vec()
        .iter()
        .map(ToOwned::to_owned)
        .chain(vec![0u8, 0, 0, 0])
        .chain(vec![0b0110_0000u8])
        .chain(vec![0b0000_0000u8])
        .collect();
    assert_eq!(encoded, expected);
}

#[test]
fn test_read_tag() {
    let frame = Frame::read(b"TIT2\0\0\0\x06\0\0").unwrap();
    assert_eq!(
        frame,
        Frame {
            identifier: "TIT2".to_string(),
            size: 0x06,
            ..Default::default()
        }
    );
}

#[test]
fn test_read_tag_2() {
    let frame = Frame::read(b"TIT2\0\0\x01\x7f\0\0").unwrap();
    assert_eq!(
        frame,
        Frame {
            identifier: "TIT2".to_string(),
            size: 0xff,
            ..Default::default()
        }
    );
}

#[test]
fn frame_round_trips_through_its_bytes() {
    let frame = Frame {
        identifier: "TALB".to_string(),
        size: 300,
        status: FrameStatus::from_bytes([0x60]),
        format: FrameFormat::from_bytes([0x01]),
    };
    let encoded = frame.write().unwrap();
    assert_eq!(encoded.len(), 10);
    let decoded = Frame::read(&encoded).unwrap();
    assert_eq!(decoded, frame);
}

#[test]
fn multibyte_identifier_round_trips() {
    // Two two-byte characters make a 4-byte identifier.
    let frame = Frame {
        identifier: "\u{e9}\u{e8}".to_string(),
        size: 7,
        ..Default::default()
    };
    let encoded = frame.write().unwrap();
    let decoded = Frame::read(&encoded).unwrap();
    assert_eq!(decoded, frame);
    assert_eq!(decoded.identifier, "\u{e9}\u{e8}");
}

#[test]
fn write_rejects_wrong_identifier_length() {
    let short = Frame {
        identifier: "TIT".to_string(),
        ..Default::default()
    };
    assert_eq!(short.write(), Err(FrameError::BadIdentifier));
    let long = Frame {
        identifier: "TITLE".to_string(),
        ..Default::default()
    };
    assert_eq!(long.write(), Err(FrameError::BadIdentifier));
    // Two bytes of text, though a single character.
    let wide = Frame {
        identifier: "\u{e9}".to_string(),
        ..Default::default()
    };
    assert_eq!(wide.write(), Err(FrameError::BadIdentifier));
}

#[test]
fn write_rejects_oversized_frame_body() {
    let frame = Frame {
        identifier: "TIT2".to_string(),
        size: 0x1000_0000,
        ..Default::default()
    };
    assert_eq!(
        frame.write(),
        Err(FrameError::BadSize(Error::SizeOutOfRange {
            value: 0x1000_0000,
        }))
    );
}

#[test]
fn read_rejects_invalid_identifier_bytes() {
    assert_eq!(
        Frame::read(b"\xffIT2\0\0\0\x06\0\0"),
        Err(FrameError::BadIdentifier)
    );
}

#[test]
fn read_rejects_bad_size_byte() {
    assert_eq!(
        Frame::read(b"TIT2\0\0\0\xff\0\0"),
        Err(FrameError::BadSize(Error::InvalidId3Size {
            idx: 3,
            value: 0xff,
        }))
    );
}

#[test]
fn read_short_input_is_truncated() {
    assert_eq!(Frame::read(b"TIT2\0\0"), Err(FrameError::Truncated));
    assert_eq!(Frame::read(b""), Err(FrameError::Truncated));
}

#[test]
fn status_accessors_follow_the_bits() {
    let status = FrameStatus::from_bytes([0b0110_0000]);
    assert!(!status.unused());
    assert!(status.tag_alter_preservation());
    assert!(status.file_alter_preservation());
    assert!(!status.read_only());
    assert_eq!(status.rest(), 0);
    assert_eq!(status.into_bytes(), [0b0110_0000]);

    let format = FrameFormat::from_bytes([0b1000_0011]);
    assert!(format.unused());
    assert_eq!(format.rest(), 0b0000_011);
    assert_eq!(format.into_bytes(), [0b1000_0011]);
}

#[test]
fn default_frame_is_empty() {
    let frame = Frame::default();
    assert_eq!(frame.identifier, "");
    assert_eq!(frame.size, 0);
    assert_eq!(frame.status.bytes, 0);
    assert_eq!(frame.format.bytes, 0);
    assert_eq!(FrameStatus::default(), FrameStatus::new());
    assert_eq!(FrameFormat::default(), FrameFormat::new());
}

#[test]
fn frame_flags_pass_through_unchanged() {
    // Reserved bits are carried, not interpreted: every flag byte value
    // survives a round trip.
    let frame = Frame {
        identifier: "APIC".to_string(),
        size: 1,
        status: FrameStatus::from_bytes([0xAB]),
        format: FrameFormat::from_bytes([0xCD]),
    };
    let encoded = frame.write().unwrap();
    assert_eq!(encoded[8], 0xAB);
    assert_eq!(encoded[9], 0xCD);
    let decoded = Frame::read(&encoded).unwrap();
    assert_eq!(decoded.status.bytes, 0xAB);
    assert_eq!(decoded.format.bytes, 0xCD);
}
