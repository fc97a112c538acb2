use image_camera::encoder::EncodeError;
use image_camera::grammar::{
    encode_buffers_object, encode_format_object, encode_object, BufferParams, FormatParams,
    Property, TypedValue,
};
use image_camera::parse::parse_format_object;

fn push_word(out: &mut Vec<u8>, v: u32) {
    out.extend_from_slice(&[
        (v % 256) as u8,
        ((v / 256) % 256) as u8,
        ((v / 65536) % 256) as u8,
        ((v / 16777216) % 256) as u8,
    ]);
}

fn words(ws: &[u32]) -> Vec<u8> {
    let mut out: Vec<u8> = Vec::new();
    for &w in ws {
        push_word(&mut out, w);
    }
    out
}

#[test]
fn format_object_bytes_are_exact() {
    let p = FormatParams::bgra_video(640, 480, 30);
    let bytes = encode_format_object(p).unwrap();
    let expected = words(&[
        128, 262147, 3, // size, object type, object id
        1, 0, 3, 4, 2, 0, // media type: video
        2, 0, 3, 4, 1, 0, // media subtype: raw
        131073, 0, 3, 4, 12, 0, // pixel format: BGRA
        131075, 0, 10, 8, 640, 480, // frame rectangle
        131076, 0, 11, 8, 30, 1, // frame rate
    ]);
    assert_eq!(bytes, expected);
}

#[test]
fn format_round_trip_recovers_tuple() {
    let p = FormatParams::bgra_video(1920, 1080, 60);
    let bytes = encode_format_object(p).unwrap();
    assert_eq!(parse_format_object(&bytes), Some(p));
}

#[test]
fn parse_rejects_corrupted_object() {
    let p = FormatParams::bgra_video(640, 480, 30);
    let mut bytes = encode_format_object(p).unwrap();
    bytes[4] ^= 1; // object type word
    assert_eq!(parse_format_object(&bytes), None);
    let short = vec![0u8; 16];
    assert_eq!(parse_format_object(&short), None);
}

#[test]
fn growth_produces_identical_encoding() {
    // five properties need 132 bytes: a one-byte initial buffer must grow
    let props = vec![
        Property { key: 1, flags: 0, value: TypedValue::Identifier(2) },
        Property { key: 2, flags: 0, value: TypedValue::Identifier(1) },
        Property { key: 131073, flags: 0, value: TypedValue::Identifier(12) },
        Property { key: 131075, flags: 0, value: TypedValue::Rectangle(640, 480) },
        Property { key: 131076, flags: 0, value: TypedValue::Fraction(30, 1) },
    ];
    let grown = encode_object(262147, 3, &props, 1).unwrap();
    let presized = encode_object(262147, 3, &props, 4096).unwrap();
    assert_eq!(grown, presized);
    assert_eq!(grown, encode_format_object(FormatParams::bgra_video(640, 480, 30)).unwrap());
}

#[test]
fn frame_capacity_for_bgra_640x480_at_30fps() {
    let b = BufferParams::for_frame(640, 480, 30).unwrap();
    assert_eq!(b.size, 1_228_800);
    assert_eq!(b.buffers, 1);
    assert_eq!(b.align, 0);
}

#[test]
fn buffers_object_encodes_block_size_exactly() {
    let b = BufferParams::for_frame(640, 480, 30).unwrap();
    let bytes = encode_buffers_object(b).unwrap();
    let expected = words(&[
        128, 262147, 7, // size, object type, object id
        1, 0, 3, 4, 1, 0, // buffer count
        2, 0, 3, 4, 1_228_800, 0, // block count
        3, 0, 3, 4, 1_228_800, 0, // block size
        4, 0, 3, 4, 30, 0, // stride
        5, 0, 3, 4, 0, 0, // alignment
    ]);
    assert_eq!(bytes, expected);
    // the block-size property's payload word sits at byte offset 76
    assert_eq!(
        &bytes[76..80],
        &[
            (1_228_800u32 % 256) as u8,
            ((1_228_800u32 / 256) % 256) as u8,
            ((1_228_800u32 / 65536) % 256) as u8,
            ((1_228_800u32 / 16777216) % 256) as u8
        ]
    );
}

#[test]
fn oversized_frame_is_an_invalid_value() {
    assert_eq!(
        BufferParams::for_frame(u32::MAX, 2, 30).unwrap_err(),
        EncodeError::InvalidValue
    );
    assert_eq!(
        BufferParams::for_frame(65536, 65536, 30).unwrap_err(),
        EncodeError::InvalidValue
    );
    // pixel count fits a 32-bit word, the byte count does not
    assert_eq!(
        BufferParams::for_frame(32768, 65536, 30).unwrap_err(),
        EncodeError::InvalidValue
    );
}
