//! The parameter-negotiation state machine.  The session manager drives
//! negotiation by delivering capability queries and notifications in an order
//! this producer does not control; every (state, event) pair therefore has a
//! defined outcome.  A query the machine has already answered is answered
//! again, identically; an event the transition table has no entry for is
//! noted as unexpected and ignored; an unrecognized parameter id is ignored
//! silently.  No event ever faults the machine.

use vstd::prelude::*;
use crate::encoder::EncodeError;
use crate::grammar::BufferParams;
use crate::grammar::FormatParams;
use crate::grammar::encode_buffers_object;
use crate::grammar::encode_format_object;
use crate::grammar::spec_buffers_object;
use crate::grammar::spec_format_object;
use crate::wire::PARAM_BUFFERS;
use crate::wire::PARAM_ENUM_FORMAT;
use crate::wire::PARAM_ENUM_FORMAT_ALT;
use crate::wire::PARAM_FORMAT;

verus! {

/// Where negotiation stands.
#[derive(Clone, Copy, Debug, PartialEq, Eq, Structural)]
pub enum NegotiationState {
    /// Nothing negotiated yet.
    Idle,
    /// The format object was encoded and sent.
    FormatAdvertised,
    /// The consumer selected the format.
    FormatNegotiated,
    /// The buffer-requirements object was encoded and sent.
    BuffersNegotiated,
    /// Frames are being delivered.
    Streaming,
}

/// What a delivered parameter id means to the machine.
#[derive(Clone, Copy, Debug, PartialEq, Eq, Structural)]
pub enum ParamKind {
    /// A format-enumeration query.
    EnumFormat,
    /// The consumer's format selection.
    Format,
    /// A buffer-requirements query.
    Buffers,
    /// An id the machine does not know.
    Unknown,
}

/// An event the session manager delivers.
#[derive(Clone, Copy, Debug, PartialEq, Eq, Structural)]
pub enum Event {
    /// A parameter-change callback carrying a parameter id.
    ParamChanged(u32),
    /// A buffer was attached to the stream.
    BufferAdded,
    /// A buffer was detached from the stream.
    BufferRemoved,
    /// A capture tick: the stream asks for a frame.
    ProcessTick,
}

/// What the machine asks its caller to do in response to an event.
#[derive(Clone, Copy, Debug, PartialEq, Eq, Structural)]
pub enum Action {
    /// Nothing to send.
    Ignore,
    /// Encode and send the format-description object.
    SendFormat,
    /// Acknowledge the selection; no payload.
    Acknowledge,
    /// Encode and send the buffer-requirements object.
    SendBuffers,
    /// Copy a frame into the region of the current tick.
    DeliverFrame,
}

/// Why an event was ignored, where it was.
#[derive(Clone, Copy, Debug, PartialEq, Eq, Structural)]
pub enum NegotiationError {
    /// The transition table has no entry for the event in the current state.
    UnexpectedState,
}

/// The outcome of one event: the state afterwards, what to do, and whether
/// the event was out of place.
#[derive(Clone, Copy, Debug, PartialEq, Eq, Structural)]
pub struct Outcome {
    /// The state after the event.
    pub next: NegotiationState,
    /// What the caller should do.
    pub action: Action,
    /// Set when the table had no entry and the event was ignored.
    pub error: Option<NegotiationError>,
}

/// Which kind of query or notification a parameter id names.  The session
/// manager delivers format-enumeration queries under either of two ids.
pub open spec fn spec_classify_param(id: u32) -> ParamKind {
    if id == PARAM_ENUM_FORMAT || id == PARAM_ENUM_FORMAT_ALT {
        ParamKind::EnumFormat
    } else if id == PARAM_FORMAT {
        ParamKind::Format
    } else if id == PARAM_BUFFERS {
        ParamKind::Buffers
    } else {
        ParamKind::Unknown
    }
}

/// Sort a delivered parameter id into what it means to the machine.
pub fn classify_param(id: u32) -> (k: ParamKind)
    ensures
        k == spec_classify_param(id),
{
    if id == PARAM_ENUM_FORMAT || id == PARAM_ENUM_FORMAT_ALT {
        ParamKind::EnumFormat
    } else if id == PARAM_FORMAT {
        ParamKind::Format
    } else if id == PARAM_BUFFERS {
        ParamKind::Buffers
    } else {
        ParamKind::Unknown
    }
}

/// The transition table, total over every (state, event) pair:
///
/// * a format-enumeration query, in any state, is answered with the format
///   object and moves to `FormatAdvertised` — asked twice, answered twice;
/// * a format selection in `FormatAdvertised` is acknowledged and moves to
///   `FormatNegotiated`;
/// * a buffer-requirements query in `FormatNegotiated` is answered with the
///   buffers object and moves to `BuffersNegotiated`;
/// * buffer attach/detach notifications in `BuffersNegotiated` update the
///   bookkeeping only;
/// * the first capture tick in `BuffersNegotiated` starts `Streaming`, and
///   every tick while `Streaming` delivers a frame;
/// * an unrecognized parameter id, in any state, changes nothing;
/// * any other pair has no table entry: it is noted `UnexpectedState` and
///   ignored, never faulted.
pub open spec fn spec_transition(s: NegotiationState, e: Event) -> Outcome {
    match e {
        Event::ParamChanged(id) => match spec_classify_param(id) {
            ParamKind::EnumFormat => Outcome {
                next: NegotiationState::FormatAdvertised,
                action: Action::SendFormat,
                error: None,
            },
            ParamKind::Format => {
                if s == NegotiationState::FormatAdvertised {
                    Outcome {
                        next: NegotiationState::FormatNegotiated,
                        action: Action::Acknowledge,
                        error: None,
                    }
                } else {
                    Outcome { next: s, action: Action::Ignore, error: Some(NegotiationError::UnexpectedState) }
                }
            },
            ParamKind::Buffers => {
                if s == NegotiationState::FormatNegotiated {
                    Outcome {
                        next: NegotiationState::BuffersNegotiated,
                        action: Action::SendBuffers,
                        error: None,
                    }
                } else {
                    Outcome { next: s, action: Action::Ignore, error: Some(NegotiationError::UnexpectedState) }
                }
            },
            ParamKind::Unknown => Outcome { next: s, action: Action::Ignore, error: None },
        },
        Event::BufferAdded => {
            if s == NegotiationState::BuffersNegotiated {
                Outcome { next: s, action: Action::Ignore, error: None }
            } else {
                Outcome { next: s, action: Action::Ignore, error: Some(NegotiationError::UnexpectedState) }
            }
        },
        Event::BufferRemoved => {
            if s == NegotiationState::BuffersNegotiated {
                Outcome { next: s, action: Action::Ignore, error: None }
            } else {
                Outcome { next: s, action: Action::Ignore, error: Some(NegotiationError::UnexpectedState) }
            }
        },
        Event::ProcessTick => {
            if s == NegotiationState::BuffersNegotiated || s == NegotiationState::Streaming {
                Outcome { next: NegotiationState::Streaming, action: Action::DeliverFrame, error: None }
            } else {
                Outcome { next: s, action: Action::Ignore, error: Some(NegotiationError::UnexpectedState) }
            }
        },
    }
}

/// Apply the transition table to one event.
pub fn transition(s: NegotiationState, e: Event) -> (o: Outcome)
    ensures
        o == spec_transition(s, e),
{
    match e {
        Event::ParamChanged(id) => match classify_param(id) {
            ParamKind::EnumFormat => Outcome {
                next: NegotiationState::FormatAdvertised,
                action: Action::SendFormat,
                error: None,
            },
            ParamKind::Format => {
                if s == NegotiationState::FormatAdvertised {
                    Outcome {
                        next: NegotiationState::FormatNegotiated,
                        action: Action::Acknowledge,
                        error: None,
                    }
                } else {
                    Outcome {
                        next: s,
                        action: Action::Ignore,
                        error: Some(NegotiationError::UnexpectedState),
                    }
                }
            },
            ParamKind::Buffers => {
                if s == NegotiationState::FormatNegotiated {
                    Outcome {
                        next: NegotiationState::BuffersNegotiated,
                        action: Action::SendBuffers,
                        error: None,
                    }
                } else {
                    Outcome {
                        next: s,
                        action: Action::Ignore,
                        error: Some(NegotiationError::UnexpectedState),
                    }
                }
            },
            ParamKind::Unknown => Outcome { next: s, action: Action::Ignore, error: None },
        },
        Event::BufferAdded => {
            if s == NegotiationState::BuffersNegotiated {
                Outcome { next: s, action: Action::Ignore, error: None }
            } else {
                Outcome {
                    next: s,
                    action: Action::Ignore,
                    error: Some(NegotiationError::UnexpectedState),
                }
            }
        },
        Event::BufferRemoved => {
            if s == NegotiationState::BuffersNegotiated {
                Outcome { next: s, action: Action::Ignore, error: None }
            } else {
                Outcome {
                    next: s,
                    action: Action::Ignore,
                    error: Some(NegotiationError::UnexpectedState),
                }
            }
        },
        Event::ProcessTick => {
            if s == NegotiationState::BuffersNegotiated || s == NegotiationState::Streaming {
                Outcome {
                    next: NegotiationState::Streaming,
                    action: Action::DeliverFrame,
                    error: None,
                }
            } else {
                Outcome {
                    next: s,
                    action: Action::Ignore,
                    error: Some(NegotiationError::UnexpectedState),
                }
            }
        },
    }
}

/// How the attached-buffer count changes on one event: it follows the
/// attach/detach notifications that the table accepts, saturating at the
/// type's bounds, and nothing else moves it.
pub open spec fn spec_buffer_count(count: u32, s: NegotiationState, e: Event) -> u32 {
    if s == NegotiationState::BuffersNegotiated && e == Event::BufferAdded {
        if count < u32::MAX {
            (count + 1) as u32
        } else {
            count
        }
    } else if s == NegotiationState::BuffersNegotiated && e == Event::BufferRemoved {
        if count > 0 {
            (count - 1) as u32
        } else {
            count
        }
    } else {
        count
    }
}

/// The negotiation state machine: the current state, the bookkeeping of
/// attached buffers, and the fixed inputs its two response objects are
/// encoded from.
pub struct NegotiationMachine {
    /// Where negotiation stands.
    pub state: NegotiationState,
    /// How many buffers the session manager has attached.
    pub buffer_count: u32,
    /// Inputs of the format object this machine advertises.
    pub format: FormatParams,
    /// Inputs of the buffer-requirements object this machine requests.
    pub buffers: BufferParams,
}

impl NegotiationMachine {
    /// A machine at stream setup: idle, no buffers attached.
    pub fn new(format: FormatParams, buffers: BufferParams) -> (m: NegotiationMachine)
        ensures
            m.state == NegotiationState::Idle,
            m.buffer_count == 0,
            m.format == format,
            m.buffers == buffers,
    {
        NegotiationMachine { state: NegotiationState::Idle, buffer_count: 0, format, buffers }
    }

    /// Handle one event to completion: step the state by the transition
    /// table, keep the buffer bookkeeping, and return the outcome.  The
    /// response inputs never change, so a repeated query is answered with
    /// the same bytes.
    pub fn on_event(&mut self, e: Event) -> (o: Outcome)
        ensures
            o == spec_transition(old(self).state, e),
            final(self).state == o.next,
            final(self).buffer_count == spec_buffer_count(old(self).buffer_count, old(self).state, e),
            final(self).format == old(self).format,
            final(self).buffers == old(self).buffers,
    {
        let o = transition(self.state, e);
        if self.state == NegotiationState::BuffersNegotiated && e == Event::BufferAdded {
            if self.buffer_count < u32::MAX {
                self.buffer_count = self.buffer_count + 1;
            }
        } else if self.state == NegotiationState::BuffersNegotiated && e == Event::BufferRemoved {
            if self.buffer_count > 0 {
                self.buffer_count = self.buffer_count - 1;
            }
        }
        self.state = o.next;
        o
    }

    /// Encode the message an action asks for: the format object for
    /// `SendFormat`, the buffers object for `SendBuffers`, nothing for the
    /// rest.  Both objects always encode whole, so no response is ever
    /// partial.
    pub fn respond(&self, action: Action) -> (r: Result<Option<Vec<u8>>, EncodeError>)
        ensures
            r.is_ok(),
            action == Action::SendFormat ==> (r matches Ok(Some(v)) && v@ == spec_format_object(
                self.format,
            )),
            action == Action::SendBuffers ==> (r matches Ok(Some(v)) && v@ == spec_buffers_object(
                self.buffers,
            )),
            action == Action::Ignore || action == Action::Acknowledge || action
                == Action::DeliverFrame ==> r == Ok::<Option<Vec<u8>>, EncodeError>(None),
    {
        match action {
            Action::SendFormat => match encode_format_object(self.format) {
                Ok(v) => Ok(Some(v)),
                Err(e) => Err(e),
            },
            Action::SendBuffers => match encode_buffers_object(self.buffers) {
                Ok(v) => Ok(Some(v)),
                Err(e) => Err(e),
            },
            _ => Ok(None),
        }
    }
}

/// Idempotent negotiation: a format-enumeration query in `FormatAdvertised`
/// leaves the machine in `FormatAdvertised` asking to send the format object,
/// and a second such query yields the very same outcome — so the two
/// encodings it asks for, both pinned to `spec_format_object` of the
/// machine's unchanged inputs, are identical.
pub proof fn lemma_enum_format_idempotent(id: u32)
    requires
        spec_classify_param(id) == ParamKind::EnumFormat,
    ensures
        ({
            let first = spec_transition(NegotiationState::FormatAdvertised, Event::ParamChanged(id));
            let second = spec_transition(first.next, Event::ParamChanged(id));
            &&& first.next == NegotiationState::FormatAdvertised
            &&& first.action == Action::SendFormat
            &&& first.error is None
            &&& second == first
        }),
{
}

/// An unrecognized parameter id, in any state, leaves the state unchanged,
/// emits nothing, and is no error: the table's catch-all row.
pub proof fn lemma_unknown_param_ignored(s: NegotiationState, id: u32)
    requires
        spec_classify_param(id) == ParamKind::Unknown,
    ensures
        spec_transition(s, Event::ParamChanged(id)) == (Outcome {
            next: s,
            action: Action::Ignore,
            error: None,
        }),
{
}

} // verus!
