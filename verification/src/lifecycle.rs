//! The factory-side view of one connection's progress, and the wiring that
//! drives a [`Factory`] through it.
//!
//! Per connection the view moves through exactly three states, in order and
//! without skipping: unconstructed, then active (once one construction entry
//! point has produced the handler), then relinquished (once that handler has
//! been handed back). The contracts here force that discipline on any
//! runtime built over them: [`Connection::activate`] demands an
//! unconstructed record, so construction fires exactly once before any use
//! of the handler, and [`Connection::close`] demands an active record and
//! empties it, so teardown happens exactly once and hands back the very
//! handler that construction stored. The relinquished state is terminal: no
//! operation accepts a relinquished record.

use vstd::prelude::*;
use crate::factory::Factory;
use crate::sender::Sender;

verus! {

/// Which construction entry point the runtime calls for a new connection.
/// Not a stored field of anything: purely a dispatch distinction.
#[derive(Clone, Copy, PartialEq, Eq, Structural, Debug)]
pub enum Role {
    /// The connection was dialed: construction goes through
    /// `client_connected`.
    Client,
    /// The connection was accepted: construction goes through
    /// `server_connected`.
    Server,
    /// No role is distinguished: construction goes through
    /// `connection_made`.
    Unspecified,
}

/// One connection's progress as observed from the factory's side.
#[derive(Clone, Copy, PartialEq, Eq, Structural, Debug)]
pub enum ConnectionState {
    /// No construction entry point has fired yet.
    Unconstructed,
    /// Construction has produced the handler; the connection is live.
    Active,
    /// The handler has been handed back; terminal.
    Relinquished,
}

/// The record a runtime keeps alongside one connection: its state, and —
/// exactly while the connection is active — the handler that construction
/// produced for it.
pub struct Connection<H> {
    state: ConnectionState,
    handler: Option<H>,
}

impl<H> Connection<H> {
    /// A handler is stored exactly while the connection is active.
    #[verifier::type_invariant]
    spec fn wf(self) -> bool {
        self.handler is Some <==> self.state is Active
    }

    /// The connection's current state.
    pub closed spec fn lifecycle(self) -> ConnectionState {
        self.state
    }

    /// The handler stored for the connection, if it is active.
    pub closed spec fn stored(self) -> Option<H> {
        self.handler
    }

    /// A record for a connection whose construction has not happened yet.
    pub fn new() -> (c: Self)
        ensures
            c.lifecycle() is Unconstructed,
            c.stored() is None,
    {
        Connection { state: ConnectionState::Unconstructed, handler: None }
    }

    /// The connection's current state, for runtime dispatch.
    pub fn state(&self) -> (s: ConnectionState)
        ensures
            s == self.lifecycle(),
    {
        self.state
    }

    /// Records that construction produced `h`: the one transition from
    /// unconstructed to active. Demanding an unconstructed record is what
    /// makes construction at-most-once per connection.
    pub fn activate(&mut self, h: H)
        requires
            old(self).lifecycle() is Unconstructed,
        ensures
            final(self).lifecycle() is Active,
            final(self).stored() == Some(h),
    {
        let mut next = Connection { state: ConnectionState::Active, handler: Some(h) };
        core::mem::swap(self, &mut next);
    }

    /// The one transition from active to relinquished: empties the record
    /// and hands back the exact handler instance that `activate` stored —
    /// not a copy, not a newly constructed stand-in.
    pub fn close(&mut self) -> (h: H)
        requires
            old(self).lifecycle() is Active,
        ensures
            final(self).lifecycle() is Relinquished,
            final(self).stored() is None,
            old(self).stored() == Some(h),
    {
        proof {
            use_type_invariant(&*self);
        }
        let mut next = Connection { state: ConnectionState::Relinquished, handler: None };
        core::mem::swap(self, &mut next);
        next.handler.unwrap()
    }

    /// Borrows the stored handler so the runtime can dispatch capability
    /// calls into it: available exactly while the connection is active, and
    /// whatever those calls do to the handler is what the record then
    /// holds.
    pub fn handler_mut(&mut self) -> (h: &mut H)
        requires
            old(self).lifecycle() is Active,
        ensures
            old(self).stored() == Some(*h),
            final(self).lifecycle() is Active,
            final(self).stored() == Some(*final(h)),
    {
        proof {
            use_type_invariant(&*self);
        }
        some_mut(&mut self.handler)
    }

    /// True exactly while the connection is active, which is when — and
    /// only when — the runtime may dispatch capability calls into the
    /// connection's handler.
    pub fn is_active(&self) -> (b: bool)
        ensures
            b == (self.lifecycle() is Active),
    {
        matches!(self.state, ConnectionState::Active)
    }
}

/// Borrows the value under `Some`, relating the borrow's final value to
/// the option's: the shape a caller needs when the option is a field it
/// may only touch through a call.
fn some_mut<T>(opt: &mut Option<T>) -> (r: &mut T)
    requires
        *old(opt) is Some,
    ensures
        *old(opt) == Some(*r),
        *final(opt) == Some(*final(r)),
    no_unwind
{
    match opt {
        Some(t) => t,
        None => vstd::pervasive::unreached(),
    }
}

/// The factory-side view of the owning runtime's lifetime: whether graceful
/// shutdown has begun. Driving `on_shutdown` through [`Shutdown::begin`]
/// makes the notification at-most-once per factory lifetime a verified
/// obligation rather than a convention.
pub struct Shutdown {
    fired: bool,
}

impl Shutdown {
    /// Whether shutdown has already been signalled.
    pub closed spec fn fired(self) -> bool {
        self.fired
    }

    /// A runtime lifetime on which shutdown has not been signalled.
    pub fn new() -> (s: Self)
        ensures
            !s.fired(),
    {
        Shutdown { fired: false }
    }

    /// Signals graceful shutdown to the factory, exactly once: a second
    /// call is ruled out by the precondition, and the factory's own
    /// shutdown contract is met. Active handlers are not touched — the
    /// factory is not handed any, and the notification only signals
    /// intent, not completion.
    pub fn begin<Fct: Factory>(&mut self, factory: &mut Fct)
        requires
            !old(self).fired(),
        ensures
            final(self).fired(),
            Fct::shutdown_post(*old(factory), *final(factory)),
    {
        self.fired = true;
        factory.on_shutdown();
    }
}

/// The construction step of one connection: dispatches to the factory entry
/// point the role selects — exactly one of `connection_made`,
/// `client_connected` and `server_connected` fires — and stores the handler
/// it produced, before any capability call can reach that handler. Whichever
/// entry point fired, the stored handler and the factory's new state satisfy
/// the factory's one construction contract.
pub fn establish<Fct: Factory>(
    factory: &mut Fct,
    conn: &mut Connection<Fct::Handler>,
    ws: Sender,
    role: Role,
)
    requires
        old(conn).lifecycle() is Unconstructed,
    ensures
        final(conn).lifecycle() is Active,
        (final(conn).stored() matches Some(h)
            && Fct::made_post(*old(factory), *final(factory), ws, h)),
{
    let h = match role {
        Role::Client => factory.client_connected(ws),
        Role::Server => factory.server_connected(ws),
        Role::Unspecified => factory.connection_made(ws),
    };
    conn.activate(h);
}

/// The teardown step of one connection, run after the runtime has fully
/// detached it: takes the stored handler out of the record and hands that
/// exact instance — ownership moves, nothing is copied — to the factory's
/// `connection_lost`, exactly once.
pub fn retire<Fct: Factory>(factory: &mut Fct, conn: &mut Connection<Fct::Handler>)
    requires
        old(conn).lifecycle() is Active,
    ensures
        final(conn).lifecycle() is Relinquished,
        (old(conn).stored() matches Some(h)
            && Fct::lost_post(*old(factory), *final(factory), h)),
{
    let h = conn.close();
    factory.connection_lost(h);
}

} // verus!
