//! Connecting: what the connect handler does to the registry.
//!
//! A peer that connects gets a session of its own and the two queues that the
//! session needs. The write end of its inbound queue is registered under its
//! username as its delivery handle; the rest is handed to the caller, who
//! announces the peer, starts its pipeline task and gives the read end of the
//! outbound bridge to the transport as the peer's stream.

use crate::message::ChatMessage;
use crate::queue::{message_queue, queue_bound, QUEUE_CAPACITY};
use crate::registry::{unique_usernames, with_peer};
use crate::session::{PeerSession, PeerSessionView, Phase};
use crate::state::ChatState;
use tokio::sync::mpsc::{Receiver, Sender};
use vstd::prelude::*;

verus! {

/// What a fresh connection consists of, besides its entry in the registry.
#[derive(Debug)]
pub struct Connection {
    /// The session of the peer, still connecting.
    pub session: PeerSession,
    /// The read end of the peer's inbound queue, for its pipeline task.
    pub inbound: Receiver<ChatMessage>,
    /// The write end of the peer's outbound bridge, for its pipeline task.
    pub outbound: Sender<ChatMessage>,
    /// The read end of the peer's outbound bridge, for the transport.
    pub stream: Receiver<ChatMessage>,
}

impl ChatState {
    /// Connects a peer as `username`: makes its two queues, registers the
    /// write end of the inbound queue under its name, and opens its session.
    ///
    /// A name that is taken is taken over, as [`ChatState::register`] says.
    pub fn connect(&mut self, username: String) -> (connection: Connection)
        ensures
            exists|handle: Sender<ChatMessage>|
                queue_bound(handle) == QUEUE_CAPACITY && final(self)@ == #[trigger] with_peer(
                    old(self)@,
                    username@,
                    handle,
                ),
            unique_usernames(final(self)@),
            connection.session@ == (PeerSessionView {
                username: username@,
                phase: Phase::Connecting,
            }),
            queue_bound(connection.outbound) == QUEUE_CAPACITY,
    {
        let (handle, inbound) = message_queue();
        let (outbound, stream) = message_queue();
        let session = PeerSession::new(username.clone());
        self.register(username, handle);
        Connection { session, inbound, outbound, stream }
    }
}

} // verus!
