//! The shared state of the relay: the registry of connected peers.
//!
//! One `ChatState` is created when the server starts and is handed, behind a
//! readers-writer lock, to every request handler. Registering and
//! deregistering take the lock for writing; a broadcast takes it for reading
//! and never changes the registry. Nothing reaches the entries except through
//! the functions of this module.

use crate::broadcast::{fan_out, Delivery};
use crate::message::{ChatMessage, ChatMessageView};
use crate::registry::{
    is_registered, lemma_slot_of_entry, lemma_with_peer_unique, lemma_without_peer_unique,
    unique_usernames, with_peer, without_peer, PeerView,
};
use tokio::sync::mpsc::Sender;
use vstd::prelude::*;

verus! {

/// One connected peer as the registry holds it.
#[derive(Debug)]
struct Peer {
    username: String,
    handle: Sender<ChatMessage>,
}

impl View for Peer {
    type V = PeerView;

    closed spec fn view(&self) -> PeerView {
        PeerView { username: self.username@, handle: self.handle }
    }
}

/// The registry of connected peers, keyed by username.
#[derive(Debug)]
pub struct ChatState {
    peers: Vec<Peer>,
}

impl View for ChatState {
    type V = Seq<PeerView>;

    closed spec fn view(&self) -> Seq<PeerView> {
        Seq::new(self.peers@.len(), |i: int| self.peers@[i]@)
    }
}

impl ChatState {
    #[verifier::type_invariant]
    spec fn well_formed(self) -> bool {
        unique_usernames(self@)
    }

    /// An empty registry: nobody is connected.
    pub fn new() -> (state: Self)
        ensures
            state@ == Seq::<PeerView>::empty(),
    {
        ChatState { peers: Vec::new() }
    }

    /// How many peers are registered.
    pub fn len(&self) -> (count: usize)
        ensures
            count == self@.len(),
    {
        self.peers.len()
    }

    /// Whether nobody is registered.
    pub fn is_empty(&self) -> (empty: bool)
        ensures
            empty == (self@.len() == 0),
    {
        self.peers.len() == 0
    }

    /// The place of the entry registered under `username`, if there is one.
    fn find(&self, username: &str) -> (slot: Option<usize>)
        ensures
            match slot {
                Some(i) => i < self@.len() && self@[i as int].username == username@,
                None => !is_registered(self@, username@),
            },
    {
        let wanted = username.to_owned();
        let mut i: usize = 0;
        while i < self.peers.len()
            invariant
                i <= self.peers.len(),
                wanted@ == username@,
                forall|j: int| 0 <= j < i ==> (#[trigger] self@[j]).username != username@,
            decreases self.peers.len() - i,
        {
            if self.peers[i].username == wanted {
                return Some(i);
            }
            i += 1;
        }
        None
    }

    /// Whether a peer is registered under `username`.
    pub fn contains(&self, username: &str) -> (found: bool)
        ensures
            found == is_registered(self@, username@),
    {
        self.find(username).is_some()
    }

    /// Registers `handle` under `username`.
    ///
    /// Usernames are not checked for uniqueness: registering a name that is
    /// taken silently replaces the handle registered under it, and the
    /// replaced handle is dropped.
    pub fn register(&mut self, username: String, handle: Sender<ChatMessage>)
        ensures
            final(self)@ == with_peer(old(self)@, username@, handle),
            unique_usernames(final(self)@),
    {
        proof {
            use_type_invariant(&*self);
            lemma_with_peer_unique(self@, username@, handle);
        }
        let found = self.find(username.as_str());
        let mut peers: Vec<Peer> = Vec::new();
        std::mem::swap(&mut peers, &mut self.peers);
        let ghost before = peers@;
        let entry = Peer { username, handle };
        match found {
            Some(i) => {
                peers.set(i, entry);
            },
            None => {
                peers.push(entry);
            },
        }
        proof {
            let old_view = Seq::new(before.len(), |i: int| before[i]@);
            let new_view = Seq::new(peers@.len(), |i: int| peers@[i]@);
            assert(old_view == old(self)@);
            match found {
                Some(i) => {
                    assert(old_view[i as int].username == entry@.username);
                    lemma_slot_of_entry(old_view, i as int);
                },
                None => {},
            }
            assert(new_view =~= with_peer(old_view, entry@.username, entry@.handle));
        }
        self.peers = peers;
    }

    /// Deregisters `username`. Where no peer is registered under that name,
    /// nothing happens.
    pub fn deregister(&mut self, username: &str)
        ensures
            final(self)@ == without_peer(old(self)@, username@),
            unique_usernames(final(self)@),
    {
        proof {
            use_type_invariant(&*self);
            lemma_without_peer_unique(self@, username@);
        }
        let found = self.find(username);
        if let Some(i) = found {
            let mut peers: Vec<Peer> = Vec::new();
            std::mem::swap(&mut peers, &mut self.peers);
            let ghost before = peers@;
            let _ = peers.remove(i);
            proof {
                let old_view = Seq::new(before.len(), |i: int| before[i]@);
                let new_view = Seq::new(peers@.len(), |i: int| peers@[i]@);
                assert(old_view == old(self)@);
                lemma_slot_of_entry(old_view, i as int);
                assert(new_view =~= without_peer(old_view, username@));
            }
            self.peers = peers;
        }
    }

    /// All current entries at the moment of the call, in the order in which a
    /// broadcast attempts them: each username with the delivery handle
    /// registered under it.
    pub fn snapshot_for_broadcast(&self) -> (snapshot: Vec<(&str, &Sender<ChatMessage>)>)
        ensures
            snapshot@.len() == self@.len(),
            forall|i: int|
                0 <= i < self@.len() ==> (#[trigger] snapshot@[i]).0@ == self@[i].username
                    && *snapshot@[i].1 == self@[i].handle,
            unique_usernames(self@),
    {
        proof {
            use_type_invariant(&*self);
        }
        let mut snapshot: Vec<(&str, &Sender<ChatMessage>)> = Vec::new();
        let mut i: usize = 0;
        while i < self.peers.len()
            invariant
                i <= self.peers.len(),
                snapshot@.len() == i,
                forall|j: int|
                    0 <= j < i ==> (#[trigger] snapshot@[j]).0@ == self@[j].username
                        && *snapshot@[j].1 == self@[j].handle,
            decreases self.peers.len() - i,
        {
            let peer = &self.peers[i];
            snapshot.push((peer.username.as_str(), &peer.handle));
            i += 1;
        }
        snapshot
    }

    /// Plans the broadcast of `message`: one delivery for every registered
    /// peer, in the order of the registry, each with its own copy of the
    /// message. The registry is not changed, whatever becomes of the
    /// deliveries.
    pub fn broadcast(&self, message: &ChatMessage) -> (plan: Vec<Delivery<'_>>)
        ensures
            plan@.len() == self@.len(),
            plan.deep_view() == fan_out(self@, message@),
            unique_usernames(self@),
    {
        let snapshot = self.snapshot_for_broadcast();
        let mut plan: Vec<Delivery<'_>> = Vec::new();
        let mut i: usize = 0;
        while i < snapshot.len()
            invariant
                i <= snapshot@.len(),
                snapshot@.len() == self@.len(),
                forall|j: int|
                    0 <= j < self@.len() ==> (#[trigger] snapshot@[j]).0@ == self@[j].username
                        && *snapshot@[j].1 == self@[j].handle,
                plan@.len() == i,
                forall|j: int| 0 <= j < i ==> (#[trigger] plan@[j])@ == fan_out(self@, message@)[j],
            decreases snapshot@.len() - i,
        {
            let (recipient, handle) = snapshot[i];
            plan.push(Delivery { recipient, handle, message: message.clone() });
            i += 1;
        }
        assert(plan.deep_view() =~= fan_out(self@, message@));
        plan
    }

    /// Handles a message submitted by `username`: the message is broadcast
    /// to every registered peer, the sender included if it is registered.
    /// The sender need not be registered.
    pub fn send_message(&self, username: String, text: String) -> (plan: Vec<Delivery<'_>>)
        ensures
            plan@.len() == self@.len(),
            plan.deep_view() == fan_out(
                self@,
                ChatMessageView { username: username@, text: text@ },
            ),
            unique_usernames(self@),
    {
        let message = ChatMessage::new(username, text);
        self.broadcast(&message)
    }
}

} // verus!
