//! Primitives of the session manager's binary object format: 32-bit words in
//! little-endian byte order, the published type and parameter codes, and the
//! byte layout of each typed value.
//!
//! An object on the wire is `[size][type][id][properties...]`, where `size`
//! counts every byte after the size field itself.  Each property is
//! `[key][flags][value]`, and each value begins with `[tag][len]` followed by
//! its payload, padded so that every value occupies a multiple of eight bytes.
//! All fields are 32-bit words.

use vstd::prelude::*;

verus! {

/// Object type code of a format-description object.
pub const OBJECT_TYPE_FORMAT: u32 = 262147;

/// Object type code of a buffer-requirements object (the session manager files
/// it under the same object type as the format description).
pub const OBJECT_TYPE_PARAM_BUFFERS: u32 = 262147;

/// Parameter id of a format-enumeration query, and the object id a format
/// object answers it with.
pub const PARAM_ENUM_FORMAT: u32 = 3;

/// Alternate parameter id under which the session manager delivers a
/// format-enumeration query to an attached stream.
pub const PARAM_ENUM_FORMAT_ALT: u32 = 15;

/// Parameter id announcing the consumer's format selection.
pub const PARAM_FORMAT: u32 = 4;

/// Parameter id of a buffer-requirements query, and the object id a
/// buffer-requirements object answers it with.
pub const PARAM_BUFFERS: u32 = 7;

/// Value tag of an identifier (a 32-bit enumeration code).
pub const TAG_IDENTIFIER: u32 = 3;

/// Value tag of a rectangle (width and height).
pub const TAG_RECTANGLE: u32 = 10;

/// Value tag of a fraction (numerator and denominator).
pub const TAG_FRACTION: u32 = 11;

/// Media type code: video.
pub const MEDIA_TYPE_VIDEO: u32 = 2;

/// Media subtype code: raw (uncompressed) frames.
pub const MEDIA_SUBTYPE_RAW: u32 = 1;

/// Pixel format code: packed 8-bit BGRA.
pub const PIXEL_FORMAT_BGRA: u32 = 12;

/// Property key of the media-type identifier in a format object.
pub const KEY_MEDIA_TYPE: u32 = 1;

/// Property key of the media-subtype identifier in a format object.
pub const KEY_MEDIA_SUBTYPE: u32 = 2;

/// Property key of the pixel-format identifier in a format object.
pub const KEY_VIDEO_FORMAT: u32 = 131073;

/// Property key of the frame rectangle in a format object.
pub const KEY_VIDEO_SIZE: u32 = 131075;

/// Property key of the frame-rate fraction in a format object.
pub const KEY_VIDEO_FRAMERATE: u32 = 131076;

/// Property key of the buffer count in a buffer-requirements object.
pub const KEY_BUFFER_COUNT: u32 = 1;

/// Property key of the block count in a buffer-requirements object.
pub const KEY_BLOCK_COUNT: u32 = 2;

/// Property key of the block size in a buffer-requirements object.
pub const KEY_BLOCK_SIZE: u32 = 3;

/// Property key of the stride in a buffer-requirements object.
pub const KEY_STRIDE: u32 = 4;

/// Property key of the alignment in a buffer-requirements object.
pub const KEY_ALIGN: u32 = 5;

/// The four bytes of `v`, least significant first.
pub open spec fn le_bytes(v: u32) -> Seq<u8> {
    seq![
        (v % 256) as u8,
        ((v / 256) % 256) as u8,
        ((v / 65536) % 256) as u8,
        ((v / 16777216) % 256) as u8,
    ]
}

/// The 32-bit word stored at offset `i` of `s`, least significant byte first.
pub open spec fn word_at(s: Seq<u8>, i: int) -> int {
    s[i] + 256 * s[i + 1] + 65536 * s[i + 2] + 16777216 * s[i + 3]
}

/// Reading back the four bytes of a word recovers the word.
pub proof fn lemma_le_bytes_word(v: u32)
    ensures
        le_bytes(v).len() == 4,
        word_at(le_bytes(v), 0) == v,
{
    let s = le_bytes(v);
    assert(s[0] == (v % 256) as u8);
    assert(s[1] == ((v / 256) % 256) as u8);
    assert(s[2] == ((v / 65536) % 256) as u8);
    assert(s[3] == ((v / 16777216) % 256) as u8);
    assert(v % 256 + 256 * ((v / 256) % 256) + 65536 * ((v / 65536) % 256) + 16777216 * ((v
        / 16777216) % 256) == v) by (bit_vector);
}

/// A word read inside the left part of a concatenation comes from that part.
pub proof fn lemma_word_at_left(a: Seq<u8>, b: Seq<u8>, i: int)
    requires
        0 <= i,
        i + 4 <= a.len(),
    ensures
        word_at(a + b, i) == word_at(a, i),
{
    assert((a + b)[i] == a[i]);
    assert((a + b)[i + 1] == a[i + 1]);
    assert((a + b)[i + 2] == a[i + 2]);
    assert((a + b)[i + 3] == a[i + 3]);
}

/// A word read past the left part of a concatenation comes from the right part.
pub proof fn lemma_word_at_right(a: Seq<u8>, b: Seq<u8>, i: int)
    requires
        0 <= i,
        i + 4 <= b.len(),
    ensures
        word_at(a + b, a.len() + i) == word_at(b, i),
{
    assert((a + b)[a.len() + i] == b[i]);
    assert((a + b)[a.len() + i + 1] == b[i + 1]);
    assert((a + b)[a.len() + i + 2] == b[i + 2]);
    assert((a + b)[a.len() + i + 3] == b[i + 3]);
}

/// A word assembled from bytes lies below two to the thirty-second.
pub proof fn lemma_word_at_range(s: Seq<u8>, i: int)
    requires
        0 <= i,
        i + 4 <= s.len(),
    ensures
        0 <= word_at(s, i) < 4294967296,
{
    assert(s[i] < 256);
    assert(s[i + 1] < 256);
    assert(s[i + 2] < 256);
    assert(s[i + 3] < 256);
}

/// Read the word at byte offset `i`, least significant byte first.
pub fn read_word(bytes: &Vec<u8>, i: usize) -> (w: u32)
    requires
        i + 4 <= bytes@.len(),
    ensures
        w == word_at(bytes@, i as int),
{
    proof {
        lemma_word_at_range(bytes@, i as int);
    }
    // the vector's length, as a usize, bounds the offsets read below
    let _len: usize = bytes.len();
    let b0 = bytes[i] as u32;
    let b1 = bytes[i + 1] as u32;
    let b2 = bytes[i + 2] as u32;
    let b3 = bytes[i + 3] as u32;
    b0 + 256 * b1 + 65536 * b2 + 16777216 * b3
}

} // verus!
