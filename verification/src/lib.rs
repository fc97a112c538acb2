//! A virtual-camera core: a growable binary object encoder for the session
//! manager's tagged wire format, the declarative grammar that builds the
//! format-description and buffer-requirements objects, the parameter
//! negotiation state machine, and the frame delivery sink.
//!
//! Everything here is plain data logic: bytes in, bytes out.  The process
//! around it (image loading, the session-manager connection, the event loop)
//! lives outside this crate and hands values across as integers and byte
//! vectors.

pub mod wire;
pub mod encoder;
pub mod grammar;
pub mod parse;
pub mod negotiation;
pub mod sink;
