//! The server object that the request handlers share.
//!
//! Requests run concurrently, each on a task of its own, so the registry is
//! handed to the server behind tokio's readers-writer lock and a shared
//! pointer. Taking the lock suspends, and is therefore the caller's part:
//! the server only keeps the lock and hands it out.

use crate::state::ChatState;
use std::sync::Arc;
use vstd::prelude::*;

verus! {

/// tokio's asynchronous readers-writer lock, `tokio::sync::RwLock`. Nothing
/// inside it is visible to proofs: a value is carried, never read.
#[verifier::external_type_specification]
#[verifier::external_body]
#[verifier::reject_recursive_types(T)]
pub struct ExRwLock<T: ?Sized>(tokio::sync::RwLock<T>);

/// The chat server: the holder of the shared registry.
#[derive(Debug)]
pub struct ChatServer {
    state: Arc<tokio::sync::RwLock<ChatState>>,
}

impl View for ChatServer {
    type V = Arc<tokio::sync::RwLock<ChatState>>;

    closed spec fn view(&self) -> Arc<tokio::sync::RwLock<ChatState>> {
        self.state
    }
}

impl ChatServer {
    /// A server over the registry behind `state`.
    pub fn new(state: Arc<tokio::sync::RwLock<ChatState>>) -> (server: Self)
        ensures
            server@ == state,
    {
        ChatServer { state }
    }

    /// The lock behind which the registry lives.
    pub fn state(&self) -> (state: &Arc<tokio::sync::RwLock<ChatState>>)
        ensures
            *state == self@,
    {
        &self.state
    }
}

} // verus!
