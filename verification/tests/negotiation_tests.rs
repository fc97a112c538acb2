use image_camera::grammar::{BufferParams, FormatParams};
use image_camera::negotiation::{
    transition, Action, Event, NegotiationError, NegotiationMachine, NegotiationState, Outcome,
};

const ALL_STATES: [NegotiationState; 5] = [
    NegotiationState::Idle,
    NegotiationState::FormatAdvertised,
    NegotiationState::FormatNegotiated,
    NegotiationState::BuffersNegotiated,
    NegotiationState::Streaming,
];

fn machine() -> NegotiationMachine {
    let format = FormatParams::bgra_video(640, 480, 30);
    let buffers = BufferParams::for_frame(640, 480, 30).unwrap();
    NegotiationMachine::new(format, buffers)
}

#[test]
fn enum_format_query_is_answered_in_any_state() {
    for id in [3u32, 15u32] {
        for s in ALL_STATES {
            let o = transition(s, Event::ParamChanged(id));
            assert_eq!(
                o,
                Outcome {
                    next: NegotiationState::FormatAdvertised,
                    action: Action::SendFormat,
                    error: None,
                }
            );
        }
    }
}

#[test]
fn format_selection_is_accepted_only_after_advertising() {
    for s in ALL_STATES {
        let o = transition(s, Event::ParamChanged(4));
        if s == NegotiationState::FormatAdvertised {
            assert_eq!(
                o,
                Outcome {
                    next: NegotiationState::FormatNegotiated,
                    action: Action::Acknowledge,
                    error: None,
                }
            );
        } else {
            assert_eq!(
                o,
                Outcome {
                    next: s,
                    action: Action::Ignore,
                    error: Some(NegotiationError::UnexpectedState),
                }
            );
        }
    }
}

#[test]
fn buffers_query_is_answered_only_after_format_negotiated() {
    for s in ALL_STATES {
        let o = transition(s, Event::ParamChanged(7));
        if s == NegotiationState::FormatNegotiated {
            assert_eq!(
                o,
                Outcome {
                    next: NegotiationState::BuffersNegotiated,
                    action: Action::SendBuffers,
                    error: None,
                }
            );
        } else {
            assert_eq!(
                o,
                Outcome {
                    next: s,
                    action: Action::Ignore,
                    error: Some(NegotiationError::UnexpectedState),
                }
            );
        }
    }
}

#[test]
fn buffer_notifications_only_update_bookkeeping() {
    for s in ALL_STATES {
        for e in [Event::BufferAdded, Event::BufferRemoved] {
            let o = transition(s, e);
            assert_eq!(o.next, s);
            assert_eq!(o.action, Action::Ignore);
            if s == NegotiationState::BuffersNegotiated {
                assert_eq!(o.error, None);
            } else {
                assert_eq!(o.error, Some(NegotiationError::UnexpectedState));
            }
        }
    }
}

#[test]
fn first_tick_starts_streaming_and_later_ticks_deliver() {
    for s in ALL_STATES {
        let o = transition(s, Event::ProcessTick);
        if s == NegotiationState::BuffersNegotiated || s == NegotiationState::Streaming {
            assert_eq!(
                o,
                Outcome {
                    next: NegotiationState::Streaming,
                    action: Action::DeliverFrame,
                    error: None,
                }
            );
        } else {
            assert_eq!(
                o,
                Outcome {
                    next: s,
                    action: Action::Ignore,
                    error: Some(NegotiationError::UnexpectedState),
                }
            );
        }
    }
}

#[test]
fn unrecognized_param_is_ignored_everywhere() {
    for s in ALL_STATES {
        for id in [0u32, 1, 2, 5, 6, 8, 14, 16, 9999] {
            let o = transition(s, Event::ParamChanged(id));
            assert_eq!(o, Outcome { next: s, action: Action::Ignore, error: None });
        }
    }
}

#[test]
fn repeated_enum_format_query_yields_identical_encodings() {
    let mut m = machine();
    let o1 = m.on_event(Event::ParamChanged(15));
    assert_eq!(m.state, NegotiationState::FormatAdvertised);
    let first = m.respond(o1.action).unwrap().unwrap();
    let o2 = m.on_event(Event::ParamChanged(15));
    assert_eq!(m.state, NegotiationState::FormatAdvertised);
    let second = m.respond(o2.action).unwrap().unwrap();
    assert_eq!(first, second);
}

#[test]
fn full_negotiation_walkthrough() {
    let mut m = machine();
    assert_eq!(m.state, NegotiationState::Idle);

    let o = m.on_event(Event::ParamChanged(15));
    assert_eq!(o.action, Action::SendFormat);
    assert!(m.respond(o.action).unwrap().is_some());
    assert_eq!(m.state, NegotiationState::FormatAdvertised);

    let o = m.on_event(Event::ParamChanged(4));
    assert_eq!(o.action, Action::Acknowledge);
    assert_eq!(m.respond(o.action).unwrap(), None);
    assert_eq!(m.state, NegotiationState::FormatNegotiated);

    let o = m.on_event(Event::ParamChanged(7));
    assert_eq!(o.action, Action::SendBuffers);
    assert!(m.respond(o.action).unwrap().is_some());
    assert_eq!(m.state, NegotiationState::BuffersNegotiated);

    m.on_event(Event::BufferAdded);
    assert_eq!(m.buffer_count, 1);
    m.on_event(Event::BufferAdded);
    assert_eq!(m.buffer_count, 2);
    m.on_event(Event::BufferRemoved);
    assert_eq!(m.buffer_count, 1);
    assert_eq!(m.state, NegotiationState::BuffersNegotiated);

    let o = m.on_event(Event::ProcessTick);
    assert_eq!(o.action, Action::DeliverFrame);
    assert_eq!(m.state, NegotiationState::Streaming);

    let o = m.on_event(Event::ProcessTick);
    assert_eq!(o.action, Action::DeliverFrame);
    assert_eq!(m.state, NegotiationState::Streaming);
}

#[test]
fn buffer_count_does_not_underflow() {
    let mut m = machine();
    m.on_event(Event::ParamChanged(15));
    m.on_event(Event::ParamChanged(4));
    m.on_event(Event::ParamChanged(7));
    assert_eq!(m.state, NegotiationState::BuffersNegotiated);
    m.on_event(Event::BufferRemoved);
    assert_eq!(m.buffer_count, 0);
}
