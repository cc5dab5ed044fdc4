//! The shareable handle to one connection's outbound command path.
//!
//! A factory never builds a `Sender`; the runtime does, from the connection's
//! token and a reference to its outbound command channel, and passes it into
//! the factory's construction entry points. The handle carries no protocol
//! state: it is purely an addressing capability, so it is modelled here by
//! the two plain values that identify the connection and its command path.

use vstd::prelude::*;

verus! {

/// An opaque identifier correlating a `Sender` to its connection.
#[derive(Clone, Copy, PartialEq, Eq, Structural, Debug)]
pub struct Token(pub usize);

/// An identifier for a connection's outbound command channel: the command
/// path itself lives in the runtime, outside this crate.
#[derive(Clone, Copy, PartialEq, Eq, Structural, Debug)]
pub struct Channel(pub usize);

/// A shareable handle for enqueuing outbound commands on one connection.
///
/// May be cloned and held longer than the handler of the same connection;
/// equality is by the addressed connection (token and channel).
#[derive(Clone, Copy, PartialEq, Eq, Structural, Debug)]
pub struct Sender {
    pub token: Token,
    pub channel: Channel,
}

impl Sender {
    /// Builds the handle for the connection identified by `token`, addressing
    /// the outbound command channel `channel`.
    pub fn new(token: Token, channel: Channel) -> (s: Sender)
        ensures
            s.token == token,
            s.channel == channel,
    {
        Sender { token, channel }
    }
}

} // verus!
