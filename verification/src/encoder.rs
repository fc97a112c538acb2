//! The growable object encoder: a cursor-based writer over an owned byte
//! buffer that understands the tagged wire format of `wire` and keeps a stack
//! of frame markers for nested object scopes.
//!
//! When a write would run past the buffer, the builder grows the buffer to the
//! needed size, zero-filling the new bytes; the write then resumes against the
//! fresh storage.  Growth is bounded by a limit (the wire format addresses the
//! buffer with 32-bit words, so no message may outgrow a 32-bit size).  A
//! failed growth is sticky: every later operation, `finish` included, reports
//! `EncodeError::Overflow`, so a message build either completes whole or is
//! dropped whole.

use vstd::prelude::*;
use vstd::pervasive::VecAdditionalExecFns;
use crate::wire::le_bytes;
use crate::wire::TAG_IDENTIFIER;
use crate::wire::TAG_RECTANGLE;
use crate::wire::TAG_FRACTION;

verus! {

/// Why an encoding step was refused.
#[derive(Clone, Copy, Debug, PartialEq, Eq, Structural)]
pub enum EncodeError {
    /// Growing the buffer failed; the message under construction is lost.
    Overflow,
    /// A value does not fit the fixed width its tag prescribes.
    InvalidValue,
    /// A frame was closed out of order, or `finish` found a frame still open.
    FrameMismatch,
}

/// A marker for one open object scope: where the scope began and how deep the
/// frame stack was when it was pushed.
#[derive(Clone, Copy, Debug, PartialEq, Eq, Structural)]
pub struct FrameHandle {
    /// Position of the frame on the stack of open frames.
    pub depth: usize,
    /// Byte offset of the object's size field.
    pub start: usize,
}

/// The bytes of an identifier value: tag, payload length, the code, and four
/// bytes of padding to the eight-byte unit.
pub open spec fn id_value_bytes(v: u32) -> Seq<u8> {
    le_bytes(TAG_IDENTIFIER) + le_bytes(4) + le_bytes(v) + le_bytes(0)
}

/// The bytes of a rectangle value: tag, payload length, width, height.
pub open spec fn rectangle_value_bytes(width: u32, height: u32) -> Seq<u8> {
    le_bytes(TAG_RECTANGLE) + le_bytes(8) + le_bytes(width) + le_bytes(height)
}

/// The bytes of a fraction value: tag, payload length, numerator, denominator.
pub open spec fn fraction_value_bytes(num: u32, denom: u32) -> Seq<u8> {
    le_bytes(TAG_FRACTION) + le_bytes(8) + le_bytes(num) + le_bytes(denom)
}

/// `s` with the four bytes at `start` replaced by the byte count of everything
/// after them, which closes the object that begins at `start`.
pub open spec fn size_patched(s: Seq<u8>, start: int) -> Seq<u8> {
    s.subrange(0, start) + le_bytes((s.len() - start - 4) as u32) + s.subrange(
        start + 4,
        s.len() as int,
    )
}

/// The object encoder.  `new` binds it to a fresh zero-filled buffer; the
/// `add_*` methods append tagged values, `add_prop` a property header,
/// `push_object` and `pop` bracket a nested object scope, and `finish` hands
/// the completed message over.
pub struct Builder {
    /// Backing storage; its length is the current capacity.
    buf: Vec<u8>,
    /// Next byte to write; everything before it is the message so far.
    cursor: usize,
    /// Size-field offsets of the open object scopes, innermost last.
    frames: Vec<usize>,
    /// Set once a growth request was refused; never cleared.
    failed: bool,
    /// Largest capacity a growth request may reach.
    limit: usize,
}

impl Builder {
    /// The message written so far.
    pub closed spec fn out(self) -> Seq<u8> {
        self.buf@.subrange(0, self.cursor as int)
    }

    /// Size-field offsets of the open object scopes, innermost last.
    pub closed spec fn open_frames(self) -> Seq<usize> {
        self.frames@
    }

    /// Whether a growth request was refused at some earlier step.
    pub closed spec fn has_failed(self) -> bool {
        self.failed
    }

    /// Largest capacity a growth request may reach.
    pub closed spec fn growth_limit(self) -> int {
        self.limit as int
    }

    /// The builder's internal bookkeeping is sound: the cursor addresses the
    /// current backing storage, capacity respects the growth limit, and every
    /// open frame's header lies inside the message written so far.
    pub closed spec fn wf(self) -> bool {
        &&& self.cursor <= self.buf@.len()
        &&& self.buf@.len() <= self.limit
        &&& self.limit <= u32::MAX
        &&& forall|i: int|
            0 <= i < self.frames@.len() ==> #[trigger] self.frames@[i] + 12 <= self.cursor
    }

    /// `n` more bytes may be appended: no earlier step failed, and the message
    /// stays within the growth limit.
    pub open spec fn can_append(self, n: int) -> bool {
        &&& !self.has_failed()
        &&& self.out().len() + n <= self.growth_limit()
    }

    /// A builder over a fresh zero-filled buffer of `initial_capacity` bytes,
    /// free to grow to the largest 32-bit addressable size.
    pub fn new(initial_capacity: usize) -> (b: Builder)
        ensures
            b.wf(),
            b.out() == Seq::<u8>::empty(),
            b.open_frames().len() == 0,
            !b.has_failed(),
            b.growth_limit() == u32::MAX,
    {
        Builder::with_limit(initial_capacity, u32::MAX as usize)
    }

    /// A builder whose growth requests are refused beyond `limit` bytes of
    /// capacity.  The limit is itself capped at the largest 32-bit addressable
    /// size, which no wire object may exceed.
    pub fn with_limit(initial_capacity: usize, limit: usize) -> (b: Builder)
        ensures
            b.wf(),
            b.out() == Seq::<u8>::empty(),
            b.open_frames().len() == 0,
            !b.has_failed(),
            b.growth_limit() == if limit <= u32::MAX {
                limit as int
            } else {
                u32::MAX as int
            },
    {
        let max: usize = u32::MAX as usize;
        let lim: usize = if limit <= max {
            limit
        } else {
            max
        };
        let cap: usize = if initial_capacity <= lim {
            initial_capacity
        } else {
            lim
        };
        let mut buf: Vec<u8> = Vec::new();
        while buf.len() < cap
            invariant
                buf@.len() <= cap,
            decreases cap - buf@.len(),
        {
            buf.push(0);
        }
        let b = Builder { buf, cursor: 0, frames: Vec::new(), failed: false, limit: lim };
        proof {
            assert(b.out() =~= Seq::<u8>::empty());
        }
        b
    }

    /// Make room for `n` more bytes at the cursor, growing the zero-filled
    /// buffer if the capacity falls short.  A refused growth is recorded and
    /// reported as `Overflow`; the message written so far is untouched either
    /// way.
    fn reserve(&mut self, n: usize) -> (r: Result<(), EncodeError>)
        requires
            old(self).wf(),
        ensures
            final(self).wf(),
            final(self).out() == old(self).out(),
            final(self).open_frames() == old(self).open_frames(),
            final(self).growth_limit() == old(self).growth_limit(),
            r.is_ok() <==> old(self).can_append(n as int),
            r.is_ok() ==> {
                &&& !final(self).has_failed()
                &&& final(self).cursor == old(self).cursor
                &&& final(self).cursor + n <= final(self).buf@.len()
            },
            r.is_err() ==> final(self).has_failed() && r == Err::<(), EncodeError>(
                EncodeError::Overflow,
            ),
    {
        if self.failed || n > self.limit - self.cursor {
            self.failed = true;
            return Err(EncodeError::Overflow);
        }
        let needed: usize = self.cursor + n;
        while self.buf.len() < needed
            invariant
                old(self).wf(),
                needed <= self.limit,
                self.cursor == old(self).cursor,
                self.frames == old(self).frames,
                self.failed == old(self).failed,
                self.limit == old(self).limit,
                self.cursor <= self.buf@.len() <= self.limit,
                self.buf@.subrange(0, self.cursor as int) == old(self).buf@.subrange(
                    0,
                    old(self).cursor as int,
                ),
            decreases needed - self.buf@.len(),
        {
            let ghost prev = self.buf@;
            self.buf.push(0);
            proof {
                assert(self.buf@.subrange(0, self.cursor as int) =~= prev.subrange(
                    0,
                    self.cursor as int,
                ));
            }
        }
        Ok(())
    }

    /// Write the four bytes of `v` at the cursor; room must already be there.
    fn raw_u32(&mut self, v: u32)
        requires
            old(self).wf(),
            old(self).cursor + 4 <= old(self).buf@.len(),
        ensures
            final(self).wf(),
            final(self).cursor == old(self).cursor + 4,
            final(self).buf@.len() == old(self).buf@.len(),
            final(self).open_frames() == old(self).open_frames(),
            final(self).has_failed() == old(self).has_failed(),
            final(self).growth_limit() == old(self).growth_limit(),
            final(self).out() == old(self).out() + le_bytes(v),
    {
        let b0: u8 = (v % 256) as u8;
        let b1: u8 = ((v / 256) % 256) as u8;
        let b2: u8 = ((v / 65536) % 256) as u8;
        let b3: u8 = ((v / 16777216) % 256) as u8;
        self.buf.set(self.cursor, b0);
        self.buf.set(self.cursor + 1, b1);
        self.buf.set(self.cursor + 2, b2);
        self.buf.set(self.cursor + 3, b3);
        self.cursor = self.cursor + 4;
        proof {
            assert(self.out() =~= old(self).out() + le_bytes(v));
        }
    }

    /// Append a property header: the key and its flags.
    pub fn add_prop(&mut self, key: u32, flags: u32) -> (r: Result<(), EncodeError>)
        requires
            old(self).wf(),
        ensures
            final(self).wf(),
            final(self).open_frames() == old(self).open_frames(),
            final(self).growth_limit() == old(self).growth_limit(),
            r.is_ok() <==> old(self).can_append(8),
            r.is_ok() ==> !final(self).has_failed() && final(self).out() == old(self).out()
                + le_bytes(key) + le_bytes(flags),
            r.is_err() ==> final(self).out() == old(self).out() && final(self).has_failed() && r
                == Err::<(), EncodeError>(EncodeError::Overflow),
    {
        match self.reserve(8) {
            Err(e) => Err(e),
            Ok(()) => {
                self.raw_u32(key);
                self.raw_u32(flags);
                Ok(())
            },
        }
    }

    /// Append an identifier value.
    pub fn add_id(&mut self, v: u32) -> (r: Result<(), EncodeError>)
        requires
            old(self).wf(),
        ensures
            final(self).wf(),
            final(self).open_frames() == old(self).open_frames(),
            final(self).growth_limit() == old(self).growth_limit(),
            r.is_ok() <==> old(self).can_append(16),
            r.is_ok() ==> !final(self).has_failed() && final(self).out() == old(self).out()
                + id_value_bytes(v),
            r.is_err() ==> final(self).out() == old(self).out() && final(self).has_failed() && r
                == Err::<(), EncodeError>(EncodeError::Overflow),
    {
        match self.reserve(16) {
            Err(e) => Err(e),
            Ok(()) => {
                self.raw_u32(TAG_IDENTIFIER);
                self.raw_u32(4);
                self.raw_u32(v);
                self.raw_u32(0);
                Ok(())
            },
        }
    }

    /// Append a rectangle value.
    pub fn add_rectangle(&mut self, width: u32, height: u32) -> (r: Result<(), EncodeError>)
        requires
            old(self).wf(),
        ensures
            final(self).wf(),
            final(self).open_frames() == old(self).open_frames(),
            final(self).growth_limit() == old(self).growth_limit(),
            r.is_ok() <==> old(self).can_append(16),
            r.is_ok() ==> !final(self).has_failed() && final(self).out() == old(self).out()
                + rectangle_value_bytes(width, height),
            r.is_err() ==> final(self).out() == old(self).out() && final(self).has_failed() && r
                == Err::<(), EncodeError>(EncodeError::Overflow),
    {
        match self.reserve(16) {
            Err(e) => Err(e),
            Ok(()) => {
                self.raw_u32(TAG_RECTANGLE);
                self.raw_u32(8);
                self.raw_u32(width);
                self.raw_u32(height);
                Ok(())
            },
        }
    }

    /// Append a fraction value.
    pub fn add_fraction(&mut self, num: u32, denom: u32) -> (r: Result<(), EncodeError>)
        requires
            old(self).wf(),
        ensures
            final(self).wf(),
            final(self).open_frames() == old(self).open_frames(),
            final(self).growth_limit() == old(self).growth_limit(),
            r.is_ok() <==> old(self).can_append(16),
            r.is_ok() ==> !final(self).has_failed() && final(self).out() == old(self).out()
                + fraction_value_bytes(num, denom),
            r.is_err() ==> final(self).out() == old(self).out() && final(self).has_failed() && r
                == Err::<(), EncodeError>(EncodeError::Overflow),
    {
        match self.reserve(16) {
            Err(e) => Err(e),
            Ok(()) => {
                self.raw_u32(TAG_FRACTION);
                self.raw_u32(8);
                self.raw_u32(num);
                self.raw_u32(denom);
                Ok(())
            },
        }
    }

    /// Open a nested object scope: write a placeholder size, the object type
    /// and the object id, and push a frame marking the scope.
    pub fn push_object(&mut self, object_type: u32, object_id: u32) -> (r: Result<
        FrameHandle,
        EncodeError,
    >)
        requires
            old(self).wf(),
        ensures
            final(self).wf(),
            final(self).growth_limit() == old(self).growth_limit(),
            r.is_ok() <==> old(self).can_append(12),
            r matches Ok(h) ==> {
                &&& !final(self).has_failed()
                &&& h.start == old(self).out().len()
                &&& h.depth == old(self).open_frames().len()
                &&& final(self).out() == old(self).out() + le_bytes(0) + le_bytes(object_type)
                    + le_bytes(object_id)
                &&& final(self).open_frames() == old(self).open_frames().push(h.start)
            },
            r.is_err() ==> final(self).out() == old(self).out() && final(self).open_frames() == old(
                self,
            ).open_frames() && final(self).has_failed() && r == Err::<FrameHandle, EncodeError>(
                EncodeError::Overflow,
            ),
    {
        match self.reserve(12) {
            Err(e) => Err(e),
            Ok(()) => {
                let start: usize = self.cursor;
                let depth: usize = self.frames.len();
                self.raw_u32(0);
                self.raw_u32(object_type);
                self.raw_u32(object_id);
                self.frames.push(start);
                Ok(FrameHandle { depth, start })
            },
        }
    }

    /// Write the four bytes of `v` over the message at offset `at`.
    fn patch_u32(&mut self, at: usize, v: u32)
        requires
            old(self).wf(),
            at + 4 <= old(self).cursor,
        ensures
            final(self).wf(),
            final(self).cursor == old(self).cursor,
            final(self).buf@.len() == old(self).buf@.len(),
            final(self).open_frames() == old(self).open_frames(),
            final(self).has_failed() == old(self).has_failed(),
            final(self).growth_limit() == old(self).growth_limit(),
            final(self).out() == old(self).out().subrange(0, at as int) + le_bytes(v) + old(
                self,
            ).out().subrange(at + 4, old(self).out().len() as int),
    {
        let b0: u8 = (v % 256) as u8;
        let b1: u8 = ((v / 256) % 256) as u8;
        let b2: u8 = ((v / 65536) % 256) as u8;
        let b3: u8 = ((v / 16777216) % 256) as u8;
        self.buf.set(at, b0);
        self.buf.set(at + 1, b1);
        self.buf.set(at + 2, b2);
        self.buf.set(at + 3, b3);
        proof {
            assert(self.out() =~= old(self).out().subrange(0, at as int) + le_bytes(v) + old(
                self,
            ).out().subrange(at + 4, old(self).out().len() as int));
        }
    }

    /// Close the innermost object scope: pop its frame and patch the object's
    /// size field with the byte count of everything written after it.  A
    /// handle that does not name the innermost open frame is refused.
    pub fn pop(&mut self, frame: FrameHandle) -> (r: Result<(), EncodeError>)
        requires
            old(self).wf(),
        ensures
            final(self).wf(),
            final(self).growth_limit() == old(self).growth_limit(),
            r.is_ok() <==> {
                &&& !old(self).has_failed()
                &&& old(self).open_frames().len() == frame.depth + 1
                &&& old(self).open_frames()[frame.depth as int] == frame.start
            },
            r.is_ok() ==> {
                &&& !final(self).has_failed()
                &&& final(self).open_frames() == old(self).open_frames().drop_last()
                &&& final(self).out() == size_patched(old(self).out(), frame.start as int)
            },
            r.is_err() ==> {
                &&& final(self).out() == old(self).out()
                &&& final(self).open_frames() == old(self).open_frames()
                &&& final(self).has_failed() == old(self).has_failed()
                &&& (old(self).has_failed() ==> r == Err::<(), EncodeError>(EncodeError::Overflow))
                &&& (!old(self).has_failed() ==> r == Err::<(), EncodeError>(
                    EncodeError::FrameMismatch,
                ))
            },
    {
        if self.failed {
            return Err(EncodeError::Overflow);
        }
        let depth_count: usize = self.frames.len();
        if depth_count == 0 || frame.depth != depth_count - 1 {
            return Err(EncodeError::FrameMismatch);
        }
        let top: usize = self.frames[depth_count - 1];
        if top != frame.start {
            return Err(EncodeError::FrameMismatch);
        }
        let size: usize = self.cursor - frame.start - 4;
        self.patch_u32(frame.start, size as u32);
        self.frames.pop();
        Ok(())
    }

    /// Hand the completed message over.  A builder that saw a failed growth
    /// reports `Overflow`; one with an object scope still open reports
    /// `FrameMismatch`.
    pub fn finish(self) -> (r: Result<Vec<u8>, EncodeError>)
        requires
            self.wf(),
        ensures
            r.is_ok() <==> !self.has_failed() && self.open_frames().len() == 0,
            r matches Ok(v) ==> v@ == self.out(),
            self.has_failed() ==> r == Err::<Vec<u8>, EncodeError>(EncodeError::Overflow),
            !self.has_failed() && self.open_frames().len() > 0 ==> r == Err::<Vec<u8>, EncodeError>(
                EncodeError::FrameMismatch,
            ),
    {
        if self.failed {
            return Err(EncodeError::Overflow);
        }
        if self.frames.len() > 0 {
            return Err(EncodeError::FrameMismatch);
        }
        let cursor = self.cursor;
        let mut buf = self.buf;
        buf.truncate(cursor);
        Ok(buf)
    }
}

} // verus!
