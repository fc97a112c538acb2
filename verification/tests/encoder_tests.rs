use image_camera::encoder::{Builder, EncodeError, FrameHandle};

fn le(v: u32) -> [u8; 4] {
    [
        (v % 256) as u8,
        ((v / 256) % 256) as u8,
        ((v / 65536) % 256) as u8,
        ((v / 16777216) % 256) as u8,
    ]
}

fn push_word(out: &mut Vec<u8>, v: u32) {
    out.extend_from_slice(&le(v));
}

#[test]
fn empty_object_encodes_header_only() {
    let mut b = Builder::new(64);
    let h = b.push_object(262147, 3).unwrap();
    b.pop(h).unwrap();
    let bytes = b.finish().unwrap();
    let mut expected: Vec<u8> = Vec::new();
    push_word(&mut expected, 8);
    push_word(&mut expected, 262147);
    push_word(&mut expected, 3);
    assert_eq!(bytes, expected);
}

#[test]
fn close_of_outer_frame_is_rejected() {
    let mut b = Builder::new(64);
    let outer = b.push_object(262147, 3).unwrap();
    let inner = b.push_object(262147, 7).unwrap();
    assert_eq!(b.pop(outer), Err(EncodeError::FrameMismatch));
    assert_eq!(b.pop(inner), Ok(()));
    assert_eq!(b.pop(outer), Ok(()));
    assert!(b.finish().is_ok());
}

#[test]
fn close_of_fabricated_frame_is_rejected() {
    let mut b = Builder::new(64);
    let _h = b.push_object(262147, 3).unwrap();
    let bogus = FrameHandle { depth: 0, start: 4 };
    assert_eq!(b.pop(bogus), Err(EncodeError::FrameMismatch));
}

#[test]
fn finish_with_open_frame_is_rejected() {
    let mut b = Builder::new(64);
    let _h = b.push_object(262147, 3).unwrap();
    assert_eq!(b.finish().unwrap_err(), EncodeError::FrameMismatch);
}

#[test]
fn nested_objects_backpatch_both_sizes() {
    let mut b = Builder::new(8);
    let outer = b.push_object(100, 1).unwrap();
    let inner = b.push_object(200, 2).unwrap();
    b.add_prop(7, 0).unwrap();
    b.add_id(42).unwrap();
    b.pop(inner).unwrap();
    b.pop(outer).unwrap();
    let bytes = b.finish().unwrap();
    let mut expected: Vec<u8> = Vec::new();
    push_word(&mut expected, 44); // outer size: inner object (36) plus own type and id
    push_word(&mut expected, 100);
    push_word(&mut expected, 1);
    push_word(&mut expected, 32); // inner size: one property (24) plus type and id
    push_word(&mut expected, 200);
    push_word(&mut expected, 2);
    push_word(&mut expected, 7); // property key
    push_word(&mut expected, 0); // property flags
    push_word(&mut expected, 3); // identifier tag
    push_word(&mut expected, 4); // payload length
    push_word(&mut expected, 42); // the code
    push_word(&mut expected, 0); // padding
    assert_eq!(bytes, expected);
}

#[test]
fn value_writers_emit_tagged_values() {
    let mut b = Builder::new(0);
    b.add_rectangle(640, 480).unwrap();
    b.add_fraction(30, 1).unwrap();
    let bytes = b.finish().unwrap();
    let mut expected: Vec<u8> = Vec::new();
    push_word(&mut expected, 10);
    push_word(&mut expected, 8);
    push_word(&mut expected, 640);
    push_word(&mut expected, 480);
    push_word(&mut expected, 11);
    push_word(&mut expected, 8);
    push_word(&mut expected, 30);
    push_word(&mut expected, 1);
    assert_eq!(bytes, expected);
}

#[test]
fn refused_growth_is_sticky_overflow() {
    let mut b = Builder::with_limit(0, 10);
    assert_eq!(b.push_object(262147, 3).unwrap_err(), EncodeError::Overflow);
    assert_eq!(b.add_prop(1, 0), Err(EncodeError::Overflow));
    assert_eq!(b.add_id(2), Err(EncodeError::Overflow));
    assert_eq!(b.finish().unwrap_err(), EncodeError::Overflow);
}

#[test]
fn growth_within_limit_is_transparent() {
    // a two-byte initial buffer must grow several times for 44 bytes of output
    let mut small = Builder::new(2);
    let h = small.push_object(262147, 3).unwrap();
    small.add_prop(1, 0).unwrap();
    small.add_id(2).unwrap();
    small.add_prop(2, 0).unwrap();
    small.add_id(1).unwrap();
    small.pop(h).unwrap();
    let grown = small.finish().unwrap();

    let mut big = Builder::new(4096);
    let h = big.push_object(262147, 3).unwrap();
    big.add_prop(1, 0).unwrap();
    big.add_id(2).unwrap();
    big.add_prop(2, 0).unwrap();
    big.add_id(1).unwrap();
    big.pop(h).unwrap();
    let presized = big.finish().unwrap();

    assert_eq!(grown, presized);
}
