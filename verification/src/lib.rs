//! The server-side core of a real-time text chat relay.
//!
//! Clients register under a username, submit messages, and receive every
//! message submitted by any connected client, best effort. This crate holds
//! the state and the decisions of the relay: the registry of connected
//! peers, the fan-out of one message to every registered peer, and the
//! per-connection session that bridges a peer's inbound queue to its
//! outbound stream and cleans up after itself when the stream breaks.
//!
//! Everything that suspends (taking the registry lock, enqueueing onto a
//! peer's queue, pushing onto the transport stream) is left to the caller:
//! the library says what is to be done, the caller does it and reports back
//! what happened.

pub mod broadcast;
pub mod endpoint;
pub mod lifecycle;
pub mod message;
pub mod queue;
pub mod registry;
pub mod server;
pub mod session;
pub mod state;
