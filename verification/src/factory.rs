//! The connection-factory contract.
//!
//! A factory is a long-lived, single-owner object that manufactures one
//! fresh [`Handler`] per transport connection and is handed that handler
//! back when the connection ends. Construction is infallible by contract:
//! there is no error channel, so an implementation that cannot build a
//! useful handler must return one whose own callbacks report failure.
//!
//! Each implementation chooses a single specification, [`Factory::made_post`],
//! that every construction entry point meets. The role-specific entry points
//! `client_connected` and `server_connected` promise exactly the same
//! `made_post` as `connection_made`, and their default bodies are verified
//! to delegate to `connection_made` unchanged — so a factory that overrides
//! neither behaves identically whichever entry point the runtime calls.
//! The two notification hooks carry contracts of the same shape,
//! [`Factory::shutdown_post`] and [`Factory::lost_post`], so that whoever
//! drives the factory can promise its implementor was actually told.

use vstd::prelude::*;
use crate::handler::Handler;
use crate::sender::Sender;

verus! {

/// A trait for creating new per-connection handlers.
pub trait Factory: Sized {
    /// The handler type this factory manufactures.
    type Handler: Handler;

    /// The contract every construction entry point of this factory meets:
    /// it relates the factory before (`pre`) and after (`post`) the call,
    /// the sender handed in, and the handler produced. An implementation
    /// states its contract once, here, and proves `connection_made` against
    /// it; the default role-specific entry points then meet it by
    /// delegation. Left unoverridden it promises nothing, matching a
    /// factory whose construction behaviour is entirely its own affair.
    open spec fn made_post(pre: Self, post: Self, ws: Sender, h: Self::Handler) -> bool {
        true
    }

    /// The contract the shutdown notice meets: it relates the factory
    /// before and after `on_shutdown`. Left unoverridden it promises
    /// nothing; an implementation whose notice has no effect states
    /// `post == pre`.
    open spec fn shutdown_post(pre: Self, post: Self) -> bool {
        true
    }

    /// The contract the teardown notice meets: it relates the factory
    /// before and after `connection_lost`, and the handler handed back.
    /// Left unoverridden it promises nothing; an implementation that only
    /// drops the handler states `post == pre`.
    open spec fn lost_post(pre: Self, post: Self, h: Self::Handler) -> bool {
        true
    }

    /// Called when a transport connection is made: given the freshly bound
    /// sender for that connection, produce the handler that will service it.
    /// Must not block and must not perform input/output — it runs on the
    /// runtime's dispatch path.
    fn connection_made(&mut self, ws: Sender) -> (h: Self::Handler)
        ensures
            Self::made_post(*old(self), *final(self), ws, h),
    ;

    /// Called at most once, when the owning runtime begins graceful
    /// shutdown. It signals intent, not completion: in-flight connections
    /// may still finish afterwards, and already-active handlers — which
    /// the factory is not even handed here — stay valid. A factory with
    /// nothing to finalize gives this an empty body.
    fn on_shutdown(&mut self)
        ensures
            Self::shutdown_post(*old(self), *final(self)),
    ;

    /// Called instead of `connection_made` when the new connection belongs
    /// to a client endpoint (a dialed, outbound connection). Override it to
    /// give client-role connections a different aspect; the default
    /// delegates to `connection_made` unchanged, so unoverridden it admits
    /// exactly the outcomes `connection_made` admits for the same sender.
    fn client_connected(&mut self, ws: Sender) -> (h: Self::Handler)
        ensures
            Self::made_post(*old(self), *final(self), ws, h),
    {
        self.connection_made(ws)
    }

    /// Called instead of `connection_made` when the new connection belongs
    /// to a server endpoint (an accepted, inbound connection); the symmetric
    /// counterpart of `client_connected`, with the same default delegation
    /// to `connection_made`.
    fn server_connected(&mut self, ws: Sender) -> (h: Self::Handler)
        ensures
            Self::made_post(*old(self), *final(self), ws, h),
    {
        self.connection_made(ws)
    }

    /// Called exactly once per connection that reached construction, after
    /// the runtime has fully detached the connection. Receives the exact
    /// handler instance that was produced for that connection — ownership
    /// moves back to the factory — making this the sole hook for finalizing
    /// per-connection state. A factory that tracks nothing per connection
    /// simply lets the handler drop.
    fn connection_lost(&mut self, handler: Self::Handler)
        ensures
            Self::lost_post(*old(self), *final(self), handler),
    ;
}

/// An adapter letting any `Sender -> Handler` function value serve as a
/// [`Factory`]: its `connection_made` invokes the stored function, the
/// role-specific entry points keep their delegating defaults, and the
/// shutdown and teardown notices do nothing. A convenience path for
/// simple, ad hoc servers.
#[verifier::reject_recursive_types(H)]
pub struct FnFactory<H: Handler, F: Fn(Sender) -> H> {
    f: F,
    handlers: core::marker::PhantomData<H>,
}

impl<H: Handler, F: Fn(Sender) -> H> FnFactory<H, F> {
    /// The stored function must accept every sender: construction has no
    /// error channel, so a factory may not reject a connection.
    #[verifier::type_invariant]
    spec fn callable(self) -> bool {
        forall|s: Sender| call_requires(self.f, (s,))
    }

    /// The function value this adapter invokes.
    pub closed spec fn func(self) -> F {
        self.f
    }

    /// Wraps the function value `f` as a factory whose `connection_made`
    /// behaves exactly as calling `f` directly.
    pub fn from_fn(f: F) -> (factory: Self)
        requires
            forall|s: Sender| call_requires(f, (s,)),
        ensures
            factory.func() == f,
    {
        FnFactory { f, handlers: core::marker::PhantomData }
    }
}

impl<H: Handler, F: Fn(Sender) -> H> Factory for FnFactory<H, F> {
    type Handler = H;

    /// The adapter itself never changes, and the handler produced is a
    /// possible result of calling the stored function on that sender.
    open spec fn made_post(pre: Self, post: Self, ws: Sender, h: H) -> bool {
        &&& post == pre
        &&& call_ensures(pre.func(), (ws,), h)
    }

    /// The shutdown notice changes nothing: the adapter keeps no state of
    /// its own.
    open spec fn shutdown_post(pre: Self, post: Self) -> bool {
        post == pre
    }

    /// The teardown notice only drops the handler.
    open spec fn lost_post(pre: Self, post: Self, h: H) -> bool {
        post == pre
    }

    fn connection_made(&mut self, ws: Sender) -> (h: H) {
        proof {
            use_type_invariant(&*self);
        }
        (self.f)(ws)
    }

    fn on_shutdown(&mut self) {
    }

    fn connection_lost(&mut self, handler: H) {
        let _ = handler;
    }
}

} // verus!
