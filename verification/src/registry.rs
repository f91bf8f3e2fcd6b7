//! The mathematical model of the peer registry.
//!
//! The registry is the single source of truth for who is connected: it maps
//! each username to that peer's delivery handle. It is modelled as a sequence
//! of entries in which no username occurs twice. The order is the order in
//! which the broadcaster walks the registry: an entry that is overwritten
//! keeps its place, a new entry goes to the end, and removing an entry leaves
//! the others in their order.

use crate::message::ChatMessage;
use tokio::sync::mpsc::Sender;
use vstd::prelude::*;

verus! {

/// One registry entry: a username and the delivery handle registered under it.
pub struct PeerView {
    pub username: Seq<char>,
    pub handle: Sender<ChatMessage>,
}

/// No username occurs in two entries.
pub open spec fn unique_usernames(peers: Seq<PeerView>) -> bool {
    forall|i: int, j: int|
        0 <= i < peers.len() && 0 <= j < peers.len() && i != j ==> (#[trigger] peers[i]).username
            != (#[trigger] peers[j]).username
}

/// Some entry is registered under `username`.
pub open spec fn is_registered(peers: Seq<PeerView>, username: Seq<char>) -> bool {
    exists|i: int| 0 <= i < peers.len() && (#[trigger] peers[i]).username == username
}

/// The place of the entry registered under `username`, where there is one.
pub open spec fn slot_of(peers: Seq<PeerView>, username: Seq<char>) -> int {
    choose|i: int| 0 <= i < peers.len() && (#[trigger] peers[i]).username == username
}

/// The registry after `handle` has been registered under `username`: the
/// entry of that name is overwritten where it stands, or else a new entry is
/// added at the end.
pub open spec fn with_peer(
    peers: Seq<PeerView>,
    username: Seq<char>,
    handle: Sender<ChatMessage>,
) -> Seq<PeerView> {
    let entry = PeerView { username, handle };
    if is_registered(peers, username) {
        peers.update(slot_of(peers, username), entry)
    } else {
        peers.push(entry)
    }
}

/// The registry after `username` has been deregistered: its entry is taken
/// out, or nothing changes where there is none.
pub open spec fn without_peer(peers: Seq<PeerView>, username: Seq<char>) -> Seq<PeerView> {
    if is_registered(peers, username) {
        peers.remove(slot_of(peers, username))
    } else {
        peers
    }
}

/// The registry read as a mapping from username to delivery handle.
pub open spec fn directory(peers: Seq<PeerView>) -> Map<Seq<char>, Sender<ChatMessage>> {
    Map::new(
        |username: Seq<char>| is_registered(peers, username),
        |username: Seq<char>| peers[slot_of(peers, username)].handle,
    )
}

/// In a registry without duplicates, the entry at place `i` is the one that
/// its username is looked up to.
pub proof fn lemma_slot_of_entry(peers: Seq<PeerView>, i: int)
    requires
        unique_usernames(peers),
        0 <= i < peers.len(),
    ensures
        is_registered(peers, peers[i].username),
        slot_of(peers, peers[i].username) == i,
{
    let found = slot_of(peers, peers[i].username);
    assert(peers[found].username == peers[i].username);
}

/// Registering keeps usernames unique, whether the name was taken or not.
pub proof fn lemma_with_peer_unique(
    peers: Seq<PeerView>,
    username: Seq<char>,
    handle: Sender<ChatMessage>,
)
    requires
        unique_usernames(peers),
    ensures
        unique_usernames(with_peer(peers, username, handle)),
        is_registered(with_peer(peers, username, handle), username),
{
    let after = with_peer(peers, username, handle);
    if is_registered(peers, username) {
        let slot = slot_of(peers, username);
        assert(after[slot].username == username);
        assert forall|i: int, j: int|
            0 <= i < after.len() && 0 <= j < after.len() && i != j implies (#[trigger] after[i]).username
            != (#[trigger] after[j]).username by {
            assert(after[i].username == peers[i].username);
            assert(after[j].username == peers[j].username);
        }
    } else {
        assert(after[peers.len() as int].username == username);
        assert forall|i: int, j: int|
            0 <= i < after.len() && 0 <= j < after.len() && i != j implies (#[trigger] after[i]).username
            != (#[trigger] after[j]).username by {
            if i < peers.len() {
                assert(after[i] == peers[i]);
            }
            if j < peers.len() {
                assert(after[j] == peers[j]);
            }
        }
    }
}

/// Deregistering keeps usernames unique, and the name is gone afterwards.
pub proof fn lemma_without_peer_unique(peers: Seq<PeerView>, username: Seq<char>)
    requires
        unique_usernames(peers),
    ensures
        unique_usernames(without_peer(peers, username)),
        !is_registered(without_peer(peers, username), username),
{
    let after = without_peer(peers, username);
    if is_registered(peers, username) {
        let slot = slot_of(peers, username);
        assert forall|i: int| 0 <= i < after.len() implies (#[trigger] after[i]) == peers[if i
            < slot {
            i
        } else {
            i + 1
        }] by {}
        assert forall|i: int, j: int|
            0 <= i < after.len() && 0 <= j < after.len() && i != j implies (#[trigger] after[i]).username
            != (#[trigger] after[j]).username by {
            let pi = if i < slot { i } else { i + 1 };
            let pj = if j < slot { j } else { j + 1 };
            assert(after[i] == peers[pi]);
            assert(after[j] == peers[pj]);
        }
        assert forall|i: int| 0 <= i < after.len() implies (#[trigger] after[i]).username
            != username by {
            let pi = if i < slot { i } else { i + 1 };
            assert(after[i] == peers[pi]);
            assert(peers[pi].username != peers[slot].username);
        }
    }
}

/// Idempotent deregistration: deregistering a username that is not
/// registered changes nothing, so deregistering twice is the same as
/// deregistering once.
pub proof fn lemma_deregister_is_idempotent(peers: Seq<PeerView>, username: Seq<char>)
    requires
        unique_usernames(peers),
    ensures
        !is_registered(peers, username) ==> without_peer(peers, username) == peers,
        without_peer(without_peer(peers, username), username) == without_peer(peers, username),
{
    lemma_without_peer_unique(peers, username);
}

/// Overwrite semantics: registering a username twice leaves exactly one
/// entry of that name, which holds the second handle; the registry is as if
/// only the second registration had happened.
pub proof fn lemma_register_overwrites(
    peers: Seq<PeerView>,
    username: Seq<char>,
    first: Sender<ChatMessage>,
    second: Sender<ChatMessage>,
)
    requires
        unique_usernames(peers),
    ensures
        ({
            let once = with_peer(peers, username, first);
            let twice = with_peer(once, username, second);
            &&& twice == with_peer(peers, username, second)
            &&& twice.len() == once.len()
            &&& unique_usernames(twice)
            &&& is_registered(twice, username)
            &&& twice[slot_of(twice, username)].handle == second
        }),
{
    let once = with_peer(peers, username, first);
    let twice = with_peer(once, username, second);
    lemma_with_peer_unique(peers, username, first);
    lemma_with_peer_unique(once, username, second);
    let slot = slot_of(once, username);
    if is_registered(peers, username) {
        let place = slot_of(peers, username);
        assert(once[place].username == username);
        lemma_slot_of_entry(once, place);
    } else {
        assert(once[peers.len() as int].username == username);
        lemma_slot_of_entry(once, peers.len() as int);
    }
    assert(twice =~= with_peer(peers, username, second));
    assert(twice[slot].username == username);
    lemma_slot_of_entry(twice, slot);
}

/// Read as a mapping, registering is an insertion.
pub proof fn lemma_directory_after_register(
    peers: Seq<PeerView>,
    username: Seq<char>,
    handle: Sender<ChatMessage>,
)
    requires
        unique_usernames(peers),
    ensures
        directory(with_peer(peers, username, handle)) == directory(peers).insert(username, handle),
{
    let after = with_peer(peers, username, handle);
    lemma_with_peer_unique(peers, username, handle);
    let slot = if is_registered(peers, username) {
        slot_of(peers, username)
    } else {
        peers.len() as int
    };
    assert(after[slot] == PeerView { username, handle });
    lemma_slot_of_entry(after, slot);
    assert forall|name: Seq<char>| is_registered(after, name) <==> (name == username
        || is_registered(peers, name)) by {
        if is_registered(after, name) && name != username {
            let i = slot_of(after, name);
            assert(i != slot);
            assert(peers[i].username == name);
        }
        if is_registered(peers, name) && name != username {
            let i = slot_of(peers, name);
            assert(after[i].username == name);
        }
    }
    assert forall|name: Seq<char>| is_registered(peers, name) && name != username implies after[slot_of(
        after,
        name,
    )].handle == peers[slot_of(peers, name)].handle by {
        let i = slot_of(peers, name);
        assert(after[i] == peers[i]);
        lemma_slot_of_entry(after, i);
    }
    assert(directory(after) =~= directory(peers).insert(username, handle));
}

/// Read as a mapping, deregistering is a removal.
pub proof fn lemma_directory_after_deregister(peers: Seq<PeerView>, username: Seq<char>)
    requires
        unique_usernames(peers),
    ensures
        directory(without_peer(peers, username)) == directory(peers).remove(username),
{
    let after = without_peer(peers, username);
    lemma_without_peer_unique(peers, username);
    if is_registered(peers, username) {
        let slot = slot_of(peers, username);
        assert forall|name: Seq<char>| is_registered(after, name) <==> (name != username
            && is_registered(peers, name)) by {
            if is_registered(after, name) {
                let i = slot_of(after, name);
                let place = if i < slot { i } else { i + 1 };
                assert(after[i] == peers[place]);
            }
            if is_registered(peers, name) && name != username {
                let place = slot_of(peers, name);
                let i = if place < slot { place } else { place - 1 };
                assert(after[i] == peers[place]);
            }
        }
        assert forall|name: Seq<char>| is_registered(peers, name) && name != username implies after[slot_of(
            after,
            name,
        )].handle == peers[slot_of(peers, name)].handle by {
            let place = slot_of(peers, name);
            let i = if place < slot { place } else { place - 1 };
            assert(after[i] == peers[place]);
            lemma_slot_of_entry(after, i);
        }
        assert(directory(after) =~= directory(peers).remove(username));
    } else {
        assert(directory(after) =~= directory(peers).remove(username));
    }
}

} // verus!
