//! The connection-factory contract: a long-lived factory manufactures one
//! fresh protocol handler per transport connection and is handed that same
//! handler back exactly once when the connection ends.
//!
//! The crate is split along the seams the contract names:
//!
//! - [`sender`]: the shareable per-connection handle a factory receives,
//!   modelled as a plain addressing value (token plus command-channel id).
//! - [`handler`]: the capability set a per-connection object must satisfy,
//!   with verified no-op defaults.
//! - [`factory`]: the factory contract itself, its role-specific entry points
//!   with verified default delegation, and the adapter that turns any
//!   `Sender -> Handler` function value into a factory.
//! - [`lifecycle`]: the per-connection state machine
//!   (unconstructed, active, relinquished) and the wiring that drives a
//!   factory through it, proving that construction happens exactly once,
//!   that teardown hands the exact stored handler to the factory's
//!   teardown notice, and that graceful shutdown is signalled at most once.

pub mod factory;
pub mod handler;
pub mod lifecycle;
pub mod sender;
