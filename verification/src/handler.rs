//! The per-connection capability set a handler must satisfy.
//!
//! A handler is the object a factory manufactures for one connection; the
//! runtime dispatches protocol events into it for the connection's lifetime.
//! Every callback is independently overridable and defaults to a no-op that
//! reports success, so implementers handle only the events they care about.
//! The factory itself never calls these methods: it only produces handlers
//! and later relinquishes ownership of them.

use vstd::prelude::*;

verus! {

/// A complete protocol message delivered to a handler.
#[derive(Clone, PartialEq, Eq, Debug)]
pub enum Message {
    /// A textual message.
    Text(String),
    /// A binary message.
    Binary(Vec<u8>),
}

/// A single protocol frame. Wire-level parsing, masking and fragmentation
/// happen outside this crate; here a frame is just its payload.
#[derive(Clone, PartialEq, Eq, Debug)]
pub struct Frame {
    pub payload: Vec<u8>,
}

/// The failure kinds a handler callback may report. Failures are surfaced to
/// the runtime, which decides what to do with the connection; the factory
/// never sees them.
#[derive(Clone, Copy, PartialEq, Eq, Structural, Debug)]
pub enum ErrorKind {
    /// An input/output failure.
    Io,
    /// A violation of the protocol.
    Protocol,
    /// A capacity was exceeded.
    Capacity,
    /// An implementation-defined failure.
    Custom,
}

/// The capability set of a per-connection handler.
///
/// Both callbacks default to no-ops that report success: `on_message`
/// consumes the message, and `on_frame` passes the frame through unchanged.
/// The default bodies are verified to do exactly that and to leave the
/// handler's state untouched; overriding implementations are free to behave
/// differently.
pub trait Handler: Sized {
    /// Called when a complete message arrives on the connection.
    fn on_message(&mut self, msg: Message) -> (r: Result<(), ErrorKind>)
        default_ensures
            r == Ok::<(), ErrorKind>(()),
            *final(self) == *old(self),
    {
        let _ = msg;
        Ok(())
    }

    /// Called when a single frame arrives on the connection. The frame may
    /// be consumed (`Ok(None)`), passed through, or returned transformed;
    /// the default passes the received frame through unchanged.
    fn on_frame(&mut self, frame: Frame) -> (r: Result<Option<Frame>, ErrorKind>)
        default_ensures
            r == Ok::<Option<Frame>, ErrorKind>(Some(frame)),
            *final(self) == *old(self),
    {
        Ok(Some(frame))
    }
}

} // verus!
