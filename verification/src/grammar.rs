//! The object grammar: an ordered key-to-typed-value property list, a single
//! generic loop that drives the encoder over such a list, and the two concrete
//! producers the camera needs — the format-description object and the
//! buffer-requirements object.  Both are functions of plain negotiated
//! numbers, and both refuse to emit a partial object: the first encoder
//! failure aborts the whole build.

use vstd::prelude::*;
use crate::encoder::Builder;
use crate::encoder::EncodeError;
use crate::encoder::FrameHandle;
use crate::encoder::id_value_bytes;
use crate::encoder::rectangle_value_bytes;
use crate::encoder::fraction_value_bytes;
use crate::encoder::size_patched;
use crate::wire::le_bytes;
use crate::wire::KEY_ALIGN;
use crate::wire::KEY_BLOCK_COUNT;
use crate::wire::KEY_BLOCK_SIZE;
use crate::wire::KEY_BUFFER_COUNT;
use crate::wire::KEY_MEDIA_SUBTYPE;
use crate::wire::KEY_MEDIA_TYPE;
use crate::wire::KEY_STRIDE;
use crate::wire::KEY_VIDEO_FORMAT;
use crate::wire::KEY_VIDEO_FRAMERATE;
use crate::wire::KEY_VIDEO_SIZE;
use crate::wire::MEDIA_SUBTYPE_RAW;
use crate::wire::MEDIA_TYPE_VIDEO;
use crate::wire::OBJECT_TYPE_FORMAT;
use crate::wire::OBJECT_TYPE_PARAM_BUFFERS;
use crate::wire::PARAM_BUFFERS;
use crate::wire::PARAM_ENUM_FORMAT;
use crate::wire::PIXEL_FORMAT_BGRA;

verus! {

/// A typed value of the wire format.  Nested objects are expressed through
/// the encoder's own `push_object` and `pop`, not through a table entry.
#[derive(Clone, Copy, Debug, PartialEq, Eq, Structural)]
pub enum TypedValue {
    /// A 32-bit enumeration code.
    Identifier(u32),
    /// A width and a height.
    Rectangle(u32, u32),
    /// A numerator and a denominator.
    Fraction(u32, u32),
}

/// One ordered entry of an object: a key, its flags, and a typed value.
#[derive(Clone, Copy, Debug, PartialEq, Eq, Structural)]
pub struct Property {
    /// Producer/consumer-agreed integer identifier of the property.
    pub key: u32,
    /// Property flags; the camera always writes zero.
    pub flags: u32,
    /// The property's value.
    pub value: TypedValue,
}

/// The bytes of one typed value.  Every value of the three scalar kinds
/// occupies sixteen bytes: tag, payload length, and eight payload bytes
/// (an identifier is padded with four zero bytes).
pub open spec fn value_bytes(v: TypedValue) -> Seq<u8> {
    match v {
        TypedValue::Identifier(code) => id_value_bytes(code),
        TypedValue::Rectangle(w, h) => rectangle_value_bytes(w, h),
        TypedValue::Fraction(n, d) => fraction_value_bytes(n, d),
    }
}

/// The bytes of one property: key, flags, value — twenty-four bytes.
pub open spec fn prop_bytes(p: Property) -> Seq<u8> {
    le_bytes(p.key) + le_bytes(p.flags) + value_bytes(p.value)
}

/// The bytes of a property list, in authored order.
pub open spec fn props_bytes(ps: Seq<Property>) -> Seq<u8>
    decreases ps.len(),
{
    if ps.len() == 0 {
        Seq::<u8>::empty()
    } else {
        props_bytes(ps.drop_last()) + prop_bytes(ps.last())
    }
}

/// A whole object: its size (every byte after the size field), its type, its
/// id, and its properties.
pub open spec fn object_bytes(object_type: u32, object_id: u32, ps: Seq<Property>) -> Seq<u8> {
    le_bytes((8 + props_bytes(ps).len()) as u32) + le_bytes(object_type) + le_bytes(object_id)
        + props_bytes(ps)
}

/// Each property encodes to twenty-four bytes.
pub proof fn lemma_prop_bytes_len(p: Property)
    ensures
        prop_bytes(p).len() == 24,
{
}

/// A property list encodes to twenty-four bytes per property.
pub proof fn lemma_props_bytes_len(ps: Seq<Property>)
    ensures
        props_bytes(ps).len() == 24 * ps.len(),
    decreases ps.len(),
{
    if ps.len() > 0 {
        lemma_props_bytes_len(ps.drop_last());
        lemma_prop_bytes_len(ps.last());
    }
}

/// Appending a property appends its bytes.
pub proof fn lemma_props_bytes_push(ps: Seq<Property>, p: Property)
    ensures
        props_bytes(ps.push(p)) == props_bytes(ps) + prop_bytes(p),
{
    assert(ps.push(p).drop_last() =~= ps);
    assert(ps.push(p).last() == p);
}

/// The most properties a single object can carry before its size field
/// outgrows a 32-bit word.
pub const MAX_OBJECT_PROPS: usize = 178956970;

/// Append one typed value to the builder.
pub fn write_value(b: &mut Builder, v: TypedValue) -> (r: Result<(), EncodeError>)
    requires
        old(b).wf(),
    ensures
        final(b).wf(),
        final(b).open_frames() == old(b).open_frames(),
        final(b).growth_limit() == old(b).growth_limit(),
        r.is_ok() <==> old(b).can_append(16),
        r.is_ok() ==> !final(b).has_failed() && final(b).out() == old(b).out() + value_bytes(v),
        r.is_err() ==> final(b).out() == old(b).out() && final(b).has_failed() && r == Err::<
            (),
            EncodeError,
        >(EncodeError::Overflow),
{
    match v {
        TypedValue::Identifier(code) => b.add_id(code),
        TypedValue::Rectangle(w, h) => b.add_rectangle(w, h),
        TypedValue::Fraction(n, d) => b.add_fraction(n, d),
    }
}

/// Encode one object from its property table.  The result is a function of
/// the table alone: whatever `initial_capacity` the buffer starts with, growth
/// keeps the bytes identical.  The build is refused — and nothing partial is
/// returned — exactly when the object would outgrow a 32-bit size field.
pub fn encode_object(
    object_type: u32,
    object_id: u32,
    props: &Vec<Property>,
    initial_capacity: usize,
) -> (r: Result<Vec<u8>, EncodeError>)
    ensures
        r.is_ok() <==> 12 + 24 * props@.len() <= u32::MAX,
        r matches Ok(v) ==> v@ == object_bytes(object_type, object_id, props@),
        r.is_err() ==> r == Err::<Vec<u8>, EncodeError>(EncodeError::Overflow),
{
    if props.len() > MAX_OBJECT_PROPS {
        return Err(EncodeError::Overflow);
    }
    let mut b = Builder::new(initial_capacity);
    let handle: FrameHandle = match b.push_object(object_type, object_id) {
        Ok(h) => h,
        Err(e) => {
            return Err(e);
        },
    };
    let count: usize = props.len();
    let mut i: usize = 0;
    while i < count
        invariant
            count == props@.len(),
            count <= MAX_OBJECT_PROPS,
            i <= count,
            b.wf(),
            !b.has_failed(),
            b.growth_limit() == u32::MAX,
            handle.depth == 0,
            handle.start == 0,
            b.open_frames() == Seq::<usize>::empty().push(0usize),
            b.out() == le_bytes(0) + le_bytes(object_type) + le_bytes(object_id) + props_bytes(
                props@.subrange(0, i as int),
            ),
        decreases count - i,
    {
        proof {
            lemma_props_bytes_len(props@.subrange(0, i as int));
        }
        let p = props[i];
        match b.add_prop(p.key, p.flags) {
            Ok(()) => (),
            Err(_) => {
                proof {
                    assert(false);
                }
            },
        }
        match write_value(&mut b, p.value) {
            Ok(()) => (),
            Err(_) => {
                proof {
                    assert(false);
                }
            },
        }
        proof {
            lemma_props_bytes_push(props@.subrange(0, i as int), p);
            assert(props@.subrange(0, i as int).push(p) =~= props@.subrange(0, i + 1 as int));
        }
        i = i + 1;
    }
    proof {
        assert(props@.subrange(0, count as int) =~= props@);
        lemma_props_bytes_len(props@);
    }
    match b.pop(handle) {
        Ok(()) => (),
        Err(_) => {
            proof {
                assert(false);
            }
        },
    }
    proof {
        let whole = le_bytes(0) + le_bytes(object_type) + le_bytes(object_id) + props_bytes(props@);
        assert(b.out() == size_patched(whole, 0));
        assert(size_patched(whole, 0) =~= object_bytes(object_type, object_id, props@));
    }
    match b.finish() {
        Ok(v) => Ok(v),
        Err(_) => {
            proof {
                assert(false);
            }
            Err(EncodeError::Overflow)
        },
    }
}

/// The fixed inputs of a format-description object: what is streamed and in
/// which geometry and cadence.
#[derive(Clone, Copy, Debug, PartialEq, Eq, Structural)]
pub struct FormatParams {
    /// Media type code.
    pub media_type: u32,
    /// Media subtype code.
    pub media_subtype: u32,
    /// Pixel format code.
    pub pixel_format: u32,
    /// Frame width in pixels.
    pub width: u32,
    /// Frame height in pixels.
    pub height: u32,
    /// Frame rate numerator.
    pub rate_num: u32,
    /// Frame rate denominator.
    pub rate_denom: u32,
}

impl FormatParams {
    /// The camera's one advertised mode: packed BGRA video frames of the
    /// given geometry at the given whole-frames-per-second rate.
    pub fn bgra_video(width: u32, height: u32, fps: u32) -> (p: FormatParams)
        ensures
            p == (FormatParams {
                media_type: MEDIA_TYPE_VIDEO,
                media_subtype: MEDIA_SUBTYPE_RAW,
                pixel_format: PIXEL_FORMAT_BGRA,
                width,
                height,
                rate_num: fps,
                rate_denom: 1u32,
            }),
    {
        FormatParams {
            media_type: MEDIA_TYPE_VIDEO,
            media_subtype: MEDIA_SUBTYPE_RAW,
            pixel_format: PIXEL_FORMAT_BGRA,
            width,
            height,
            rate_num: fps,
            rate_denom: 1,
        }
    }
}

/// The fixed property order of a format object: media type, media subtype,
/// pixel format, frame rectangle, frame-rate fraction.
pub open spec fn format_props(p: FormatParams) -> Seq<Property> {
    seq![
        Property { key: KEY_MEDIA_TYPE, flags: 0, value: TypedValue::Identifier(p.media_type) },
        Property {
            key: KEY_MEDIA_SUBTYPE,
            flags: 0,
            value: TypedValue::Identifier(p.media_subtype),
        },
        Property { key: KEY_VIDEO_FORMAT, flags: 0, value: TypedValue::Identifier(p.pixel_format) },
        Property { key: KEY_VIDEO_SIZE, flags: 0, value: TypedValue::Rectangle(p.width, p.height) },
        Property {
            key: KEY_VIDEO_FRAMERATE,
            flags: 0,
            value: TypedValue::Fraction(p.rate_num, p.rate_denom),
        },
    ]
}

/// The complete wire encoding of a format-description object.
pub open spec fn spec_format_object(p: FormatParams) -> Seq<u8> {
    object_bytes(OBJECT_TYPE_FORMAT, PARAM_ENUM_FORMAT, format_props(p))
}

/// Build the property table of a format object.
pub fn format_property_table(p: FormatParams) -> (v: Vec<Property>)
    ensures
        v@ == format_props(p),
{
    let mut v: Vec<Property> = Vec::new();
    v.push(Property { key: KEY_MEDIA_TYPE, flags: 0, value: TypedValue::Identifier(p.media_type) });
    v.push(
        Property {
            key: KEY_MEDIA_SUBTYPE,
            flags: 0,
            value: TypedValue::Identifier(p.media_subtype),
        },
    );
    v.push(
        Property { key: KEY_VIDEO_FORMAT, flags: 0, value: TypedValue::Identifier(p.pixel_format) },
    );
    v.push(
        Property { key: KEY_VIDEO_SIZE, flags: 0, value: TypedValue::Rectangle(p.width, p.height) },
    );
    v.push(
        Property {
            key: KEY_VIDEO_FRAMERATE,
            flags: 0,
            value: TypedValue::Fraction(p.rate_num, p.rate_denom),
        },
    );
    proof {
        assert(v@ =~= format_props(p));
    }
    v
}

/// Encode the format-description object for `p`.  A five-property object
/// always fits, so the build always succeeds, whole.
pub fn encode_format_object(p: FormatParams) -> (r: Result<Vec<u8>, EncodeError>)
    ensures
        r.is_ok(),
        r matches Ok(v) ==> v@ == spec_format_object(p),
{
    let props = format_property_table(p);
    encode_object(OBJECT_TYPE_FORMAT, PARAM_ENUM_FORMAT, &props, 512)
}

/// The fixed inputs of a buffer-requirements object.
#[derive(Clone, Copy, Debug, PartialEq, Eq, Structural)]
pub struct BufferParams {
    /// How many buffers the camera asks for.
    pub buffers: u32,
    /// Block count field of the request.
    pub blocks: u32,
    /// Bytes per block: the frame's byte size.
    pub size: u32,
    /// Stride field of the request.
    pub stride: u32,
    /// Required alignment; zero for none.
    pub align: u32,
}

/// The byte size of one packed BGRA frame: four bytes per pixel.
pub open spec fn frame_bytes(width: u32, height: u32) -> int {
    width * height * 4
}

impl BufferParams {
    /// The capacity negotiated for one packed BGRA frame of the given
    /// geometry: a single buffer whose block size is the frame's byte size.
    /// A geometry whose frame outgrows a 32-bit byte count does not fit the
    /// size field's width and is refused.
    pub fn for_frame(width: u32, height: u32, fps: u32) -> (r: Result<BufferParams, EncodeError>)
        ensures
            r.is_ok() <==> frame_bytes(width, height) <= u32::MAX,
            r matches Ok(b) ==> b == (BufferParams {
                buffers: 1u32,
                blocks: (frame_bytes(width, height) as u32),
                size: (frame_bytes(width, height) as u32),
                stride: fps,
                align: 0u32,
            }),
            r.is_err() ==> r == Err::<BufferParams, EncodeError>(EncodeError::InvalidValue),
    {
        let pixels: Option<u32> = width.checked_mul(height);
        match pixels {
            None => {
                proof {
                    assert(width * height > u32::MAX ==> width * height * 4 > u32::MAX) by (
                    nonlinear_arith);
                }
                Err(EncodeError::InvalidValue)
            },
            Some(px) => {
                match px.checked_mul(4) {
                    None => Err(EncodeError::InvalidValue),
                    Some(bytes) => Ok(
                        BufferParams {
                            buffers: 1,
                            blocks: bytes,
                            size: bytes,
                            stride: fps,
                            align: 0,
                        },
                    ),
                }
            },
        }
    }
}

/// The fixed property order of a buffer-requirements object: buffer count,
/// block count, block size, stride, alignment.
pub open spec fn buffer_props(b: BufferParams) -> Seq<Property> {
    seq![
        Property { key: KEY_BUFFER_COUNT, flags: 0, value: TypedValue::Identifier(b.buffers) },
        Property { key: KEY_BLOCK_COUNT, flags: 0, value: TypedValue::Identifier(b.blocks) },
        Property { key: KEY_BLOCK_SIZE, flags: 0, value: TypedValue::Identifier(b.size) },
        Property { key: KEY_STRIDE, flags: 0, value: TypedValue::Identifier(b.stride) },
        Property { key: KEY_ALIGN, flags: 0, value: TypedValue::Identifier(b.align) },
    ]
}

/// The complete wire encoding of a buffer-requirements object.
pub open spec fn spec_buffers_object(b: BufferParams) -> Seq<u8> {
    object_bytes(OBJECT_TYPE_PARAM_BUFFERS, PARAM_BUFFERS, buffer_props(b))
}

/// Encode the buffer-requirements object for `b`.  A five-property object
/// always fits, so the build always succeeds, whole.
pub fn encode_buffers_object(b: BufferParams) -> (r: Result<Vec<u8>, EncodeError>)
    ensures
        r.is_ok(),
        r matches Ok(v) ==> v@ == spec_buffers_object(b),
{
    let mut props: Vec<Property> = Vec::new();
    props.push(
        Property { key: KEY_BUFFER_COUNT, flags: 0, value: TypedValue::Identifier(b.buffers) },
    );
    props.push(
        Property { key: KEY_BLOCK_COUNT, flags: 0, value: TypedValue::Identifier(b.blocks) },
    );
    props.push(Property { key: KEY_BLOCK_SIZE, flags: 0, value: TypedValue::Identifier(b.size) });
    props.push(Property { key: KEY_STRIDE, flags: 0, value: TypedValue::Identifier(b.stride) });
    props.push(Property { key: KEY_ALIGN, flags: 0, value: TypedValue::Identifier(b.align) });
    proof {
        assert(props@ =~= buffer_props(b));
    }
    encode_object(OBJECT_TYPE_PARAM_BUFFERS, PARAM_BUFFERS, &props, 512)
}

/// Growth correctness: the encoding of an object is a function of its
/// property table alone.  `encode_object` promises the same
/// `object_bytes(object_type, object_id, props)` for every initial capacity,
/// so two builds of one table — one that grew its buffer, one whose buffer
/// was pre-sized — return byte-identical messages.
pub proof fn lemma_growth_independent(
    object_type: u32,
    object_id: u32,
    props: Seq<Property>,
    grown: Seq<u8>,
    presized: Seq<u8>,
)
    requires
        grown == object_bytes(object_type, object_id, props),
        presized == object_bytes(object_type, object_id, props),
    ensures
        grown == presized,
{
}

} // verus!
