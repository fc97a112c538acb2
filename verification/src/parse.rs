//! A decoder for format-description objects, the counterpart of
//! `grammar::encode_format_object`.  It reads the thirteen fixed header,
//! key and tag words of such an object and recovers the negotiated tuple;
//! anything that does not match is refused.  Parsing an encoded object
//! recovers exactly the inputs it was encoded from.

use vstd::prelude::*;
use crate::grammar::FormatParams;
use crate::grammar::Property;
use crate::grammar::TypedValue;
use crate::grammar::format_props;
use crate::grammar::prop_bytes;
use crate::grammar::props_bytes;
use crate::grammar::spec_format_object;
use crate::grammar::lemma_prop_bytes_len;
use crate::grammar::lemma_props_bytes_len;
use crate::wire::le_bytes;
use crate::wire::word_at;
use crate::wire::read_word;
use crate::wire::lemma_le_bytes_word;
use crate::wire::lemma_word_at_left;
use crate::wire::lemma_word_at_right;
use crate::wire::KEY_MEDIA_SUBTYPE;
use crate::wire::KEY_MEDIA_TYPE;
use crate::wire::KEY_VIDEO_FORMAT;
use crate::wire::KEY_VIDEO_FRAMERATE;
use crate::wire::KEY_VIDEO_SIZE;
use crate::wire::OBJECT_TYPE_FORMAT;
use crate::wire::PARAM_ENUM_FORMAT;
use crate::wire::TAG_FRACTION;
use crate::wire::TAG_IDENTIFIER;
use crate::wire::TAG_RECTANGLE;

verus! {

/// What a well-formed format object parses to: the object is 132 bytes, its
/// size field covers the 128 bytes after itself, its type, id, property keys
/// and value tags are the published ones, and the negotiated tuple sits in
/// the five property payloads.
pub open spec fn spec_parse_format(s: Seq<u8>) -> Option<FormatParams> {
    if s.len() == 132 && word_at(s, 0) == 128 && word_at(s, 4) == OBJECT_TYPE_FORMAT && word_at(
        s,
        8,
    ) == PARAM_ENUM_FORMAT && word_at(s, 12) == KEY_MEDIA_TYPE && word_at(s, 20) == TAG_IDENTIFIER
        && word_at(s, 36) == KEY_MEDIA_SUBTYPE && word_at(s, 44) == TAG_IDENTIFIER && word_at(s, 60)
        == KEY_VIDEO_FORMAT && word_at(s, 68) == TAG_IDENTIFIER && word_at(s, 84) == KEY_VIDEO_SIZE
        && word_at(s, 92) == TAG_RECTANGLE && word_at(s, 108) == KEY_VIDEO_FRAMERATE && word_at(
        s,
        116,
    ) == TAG_FRACTION {
        Some(
            FormatParams {
                media_type: word_at(s, 28) as u32,
                media_subtype: word_at(s, 52) as u32,
                pixel_format: word_at(s, 76) as u32,
                width: word_at(s, 100) as u32,
                height: word_at(s, 104) as u32,
                rate_num: word_at(s, 124) as u32,
                rate_denom: word_at(s, 128) as u32,
            },
        )
    } else {
        None
    }
}

/// The words inside one encoded property: its key, its flags, and — per value
/// kind — its tag and payload words.
proof fn lemma_prop_words(p: Property)
    ensures
        prop_bytes(p).len() == 24,
        word_at(prop_bytes(p), 0) == p.key,
        word_at(prop_bytes(p), 4) == p.flags,
        p.value matches TypedValue::Identifier(x) ==> word_at(prop_bytes(p), 8) == TAG_IDENTIFIER
            && word_at(prop_bytes(p), 16) == x,
        p.value matches TypedValue::Rectangle(w, h) ==> word_at(prop_bytes(p), 8) == TAG_RECTANGLE
            && word_at(prop_bytes(p), 16) == w && word_at(prop_bytes(p), 20) == h,
        p.value matches TypedValue::Fraction(n, d) ==> word_at(prop_bytes(p), 8) == TAG_FRACTION
            && word_at(prop_bytes(p), 16) == n && word_at(prop_bytes(p), 20) == d,
{
    lemma_prop_bytes_len(p);
    let (tag, x, y): (u32, u32, u32) = match p.value {
        TypedValue::Identifier(v) => (TAG_IDENTIFIER, v, 0u32),
        TypedValue::Rectangle(w, h) => (TAG_RECTANGLE, w, h),
        TypedValue::Fraction(n, d) => (TAG_FRACTION, n, d),
    };
    let len: u32 = match p.value {
        TypedValue::Identifier(_) => 4u32,
        _ => 8u32,
    };
    let vb = le_bytes(tag) + le_bytes(len) + le_bytes(x) + le_bytes(y);
    assert(prop_bytes(p) =~= le_bytes(p.key) + le_bytes(p.flags) + vb);
    let kf = le_bytes(p.key) + le_bytes(p.flags);
    lemma_le_bytes_word(p.key);
    lemma_le_bytes_word(p.flags);
    lemma_le_bytes_word(tag);
    lemma_le_bytes_word(len);
    lemma_le_bytes_word(x);
    lemma_le_bytes_word(y);
    // key at 0, flags at 4
    lemma_word_at_left(kf, vb, 0);
    lemma_word_at_left(le_bytes(p.key), le_bytes(p.flags), 0);
    lemma_word_at_left(kf, vb, 4);
    lemma_word_at_right(le_bytes(p.key), le_bytes(p.flags), 0);
    // the value's words, at 8 within the property
    lemma_word_at_right(kf, vb, 0);
    lemma_word_at_right(kf, vb, 8);
    lemma_word_at_right(kf, vb, 12);
    let tl = le_bytes(tag) + le_bytes(len);
    assert(vb == ((tl + le_bytes(x)) + le_bytes(y)));
    lemma_word_at_left(tl + le_bytes(x), le_bytes(y), 0);
    lemma_word_at_left(tl, le_bytes(x), 0);
    lemma_word_at_left(le_bytes(tag), le_bytes(len), 0);
    lemma_word_at_left(tl + le_bytes(x), le_bytes(y), 8);
    lemma_word_at_right(tl, le_bytes(x), 0);
    lemma_word_at_right(tl + le_bytes(x), le_bytes(y), 0);
}

/// A word read inside the j-th property of a five-property list is the word
/// at the same offset of that property's own bytes.
proof fn lemma_props5_at(ps: Seq<Property>, k: int)
    requires
        ps.len() == 5,
        0 <= k,
        k + 4 <= 24,
    ensures
        word_at(props_bytes(ps), k) == word_at(prop_bytes(ps[0]), k),
        word_at(props_bytes(ps), 24 + k) == word_at(prop_bytes(ps[1]), k),
        word_at(props_bytes(ps), 48 + k) == word_at(prop_bytes(ps[2]), k),
        word_at(props_bytes(ps), 72 + k) == word_at(prop_bytes(ps[3]), k),
        word_at(props_bytes(ps), 96 + k) == word_at(prop_bytes(ps[4]), k),
{
    let s4 = ps.drop_last();
    let s3 = s4.drop_last();
    let s2 = s3.drop_last();
    let s1 = s2.drop_last();
    lemma_props_bytes_len(s4);
    lemma_props_bytes_len(s3);
    lemma_props_bytes_len(s2);
    lemma_props_bytes_len(s1);
    lemma_prop_bytes_len(ps[0]);
    lemma_prop_bytes_len(ps[1]);
    lemma_prop_bytes_len(ps[2]);
    lemma_prop_bytes_len(ps[3]);
    lemma_prop_bytes_len(ps[4]);
    assert(props_bytes(ps) == props_bytes(s4) + prop_bytes(ps[4]));
    assert(props_bytes(s4) == props_bytes(s3) + prop_bytes(ps[3]));
    assert(props_bytes(s3) == props_bytes(s2) + prop_bytes(ps[2]));
    assert(props_bytes(s2) == props_bytes(s1) + prop_bytes(ps[1]));
    assert(props_bytes(s1) == props_bytes(s1.drop_last()) + prop_bytes(ps[0]));
    assert(props_bytes(s1.drop_last()) =~= Seq::<u8>::empty());
    assert(props_bytes(s1) =~= prop_bytes(ps[0]));
    // property 4, at 96
    lemma_word_at_right(props_bytes(s4), prop_bytes(ps[4]), k);
    // property 3, at 72
    lemma_word_at_left(props_bytes(s4), prop_bytes(ps[4]), 72 + k);
    lemma_word_at_right(props_bytes(s3), prop_bytes(ps[3]), k);
    // property 2, at 48
    lemma_word_at_left(props_bytes(s4), prop_bytes(ps[4]), 48 + k);
    lemma_word_at_left(props_bytes(s3), prop_bytes(ps[3]), 48 + k);
    lemma_word_at_right(props_bytes(s2), prop_bytes(ps[2]), k);
    // property 1, at 24
    lemma_word_at_left(props_bytes(s4), prop_bytes(ps[4]), 24 + k);
    lemma_word_at_left(props_bytes(s3), prop_bytes(ps[3]), 24 + k);
    lemma_word_at_left(props_bytes(s2), prop_bytes(ps[2]), 24 + k);
    lemma_word_at_right(props_bytes(s1), prop_bytes(ps[1]), k);
    // property 0, at 0
    lemma_word_at_left(props_bytes(s4), prop_bytes(ps[4]), k);
    lemma_word_at_left(props_bytes(s3), prop_bytes(ps[3]), k);
    lemma_word_at_left(props_bytes(s2), prop_bytes(ps[2]), k);
    lemma_word_at_left(props_bytes(s1), prop_bytes(ps[1]), k);
}

/// Every word of an encoded format object, by offset.
proof fn lemma_format_object_words(p: FormatParams)
    ensures
        spec_format_object(p).len() == 132,
        word_at(spec_format_object(p), 0) == 128,
        word_at(spec_format_object(p), 4) == OBJECT_TYPE_FORMAT,
        word_at(spec_format_object(p), 8) == PARAM_ENUM_FORMAT,
        word_at(spec_format_object(p), 12) == KEY_MEDIA_TYPE,
        word_at(spec_format_object(p), 20) == TAG_IDENTIFIER,
        word_at(spec_format_object(p), 28) == p.media_type,
        word_at(spec_format_object(p), 36) == KEY_MEDIA_SUBTYPE,
        word_at(spec_format_object(p), 44) == TAG_IDENTIFIER,
        word_at(spec_format_object(p), 52) == p.media_subtype,
        word_at(spec_format_object(p), 60) == KEY_VIDEO_FORMAT,
        word_at(spec_format_object(p), 68) == TAG_IDENTIFIER,
        word_at(spec_format_object(p), 76) == p.pixel_format,
        word_at(spec_format_object(p), 84) == KEY_VIDEO_SIZE,
        word_at(spec_format_object(p), 92) == TAG_RECTANGLE,
        word_at(spec_format_object(p), 100) == p.width,
        word_at(spec_format_object(p), 104) == p.height,
        word_at(spec_format_object(p), 108) == KEY_VIDEO_FRAMERATE,
        word_at(spec_format_object(p), 116) == TAG_FRACTION,
        word_at(spec_format_object(p), 124) == p.rate_num,
        word_at(spec_format_object(p), 128) == p.rate_denom,
{
    let ps = format_props(p);
    let body = props_bytes(ps);
    lemma_props_bytes_len(ps);
    let size: u32 = 128;
    let s = spec_format_object(p);
    let header = le_bytes(size) + le_bytes(OBJECT_TYPE_FORMAT) + le_bytes(PARAM_ENUM_FORMAT);
    assert(s == header + body);
    lemma_le_bytes_word(size);
    lemma_le_bytes_word(OBJECT_TYPE_FORMAT);
    lemma_le_bytes_word(PARAM_ENUM_FORMAT);
    let st = le_bytes(size) + le_bytes(OBJECT_TYPE_FORMAT);
    lemma_word_at_left(header, body, 0);
    lemma_word_at_left(st, le_bytes(PARAM_ENUM_FORMAT), 0);
    lemma_word_at_left(le_bytes(size), le_bytes(OBJECT_TYPE_FORMAT), 0);
    lemma_word_at_left(header, body, 4);
    lemma_word_at_left(st, le_bytes(PARAM_ENUM_FORMAT), 4);
    lemma_word_at_right(le_bytes(size), le_bytes(OBJECT_TYPE_FORMAT), 0);
    lemma_word_at_left(header, body, 8);
    lemma_word_at_right(st, le_bytes(PARAM_ENUM_FORMAT), 0);
    // the five properties sit after the twelve header bytes
    assert forall|k: int| 0 <= k && k + 4 <= 24 implies word_at(s, 12 + k) == word_at(
        prop_bytes(ps[0]),
        k,
    ) && word_at(s, 36 + k) == word_at(prop_bytes(ps[1]), k) && word_at(s, 60 + k) == word_at(
        prop_bytes(ps[2]),
        k,
    ) && word_at(s, 84 + k) == word_at(prop_bytes(ps[3]), k) && word_at(s, 108 + k) == word_at(
        prop_bytes(ps[4]),
        k,
    ) by {
        lemma_props5_at(ps, k);
        lemma_word_at_right(header, body, k);
        lemma_word_at_right(header, body, 24 + k);
        lemma_word_at_right(header, body, 48 + k);
        lemma_word_at_right(header, body, 72 + k);
        lemma_word_at_right(header, body, 96 + k);
    }
    lemma_prop_words(ps[0]);
    lemma_prop_words(ps[1]);
    lemma_prop_words(ps[2]);
    lemma_prop_words(ps[3]);
    lemma_prop_words(ps[4]);
}

/// Round trip: parsing an encoded format object recovers exactly the tuple it
/// was encoded from.
pub proof fn lemma_format_round_trip(p: FormatParams)
    ensures
        spec_parse_format(spec_format_object(p)) == Some(p),
{
    lemma_format_object_words(p);
}

/// Parse a format-description object, recovering the negotiated tuple, or
/// refuse bytes that are not a well-formed format object.
pub fn parse_format_object(bytes: &Vec<u8>) -> (r: Option<FormatParams>)
    ensures
        r == spec_parse_format(bytes@),
{
    if bytes.len() != 132 {
        return None;
    }
    if read_word(bytes, 0) != 128 {
        return None;
    }
    if read_word(bytes, 4) != OBJECT_TYPE_FORMAT {
        return None;
    }
    if read_word(bytes, 8) != PARAM_ENUM_FORMAT {
        return None;
    }
    if read_word(bytes, 12) != KEY_MEDIA_TYPE || read_word(bytes, 20) != TAG_IDENTIFIER {
        return None;
    }
    if read_word(bytes, 36) != KEY_MEDIA_SUBTYPE || read_word(bytes, 44) != TAG_IDENTIFIER {
        return None;
    }
    if read_word(bytes, 60) != KEY_VIDEO_FORMAT || read_word(bytes, 68) != TAG_IDENTIFIER {
        return None;
    }
    if read_word(bytes, 84) != KEY_VIDEO_SIZE || read_word(bytes, 92) != TAG_RECTANGLE {
        return None;
    }
    if read_word(bytes, 108) != KEY_VIDEO_FRAMERATE || read_word(bytes, 116) != TAG_FRACTION {
        return None;
    }
    Some(
        FormatParams {
            media_type: read_word(bytes, 28),
            media_subtype: read_word(bytes, 52),
            pixel_format: read_word(bytes, 76),
            width: read_word(bytes, 100),
            height: read_word(bytes, 104),
            rate_num: read_word(bytes, 124),
            rate_denom: read_word(bytes, 128),
        },
    )
}

} // verus!
