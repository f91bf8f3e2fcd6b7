//! The fan-out of one message to every registered peer.
//!
//! A broadcast is a list of deliveries, one per registered peer and in the
//! order of the registry, each with its own copy of the message. The caller
//! attempts them one after the other. Each attempt stands alone: a peer whose
//! queue is closed fails its own delivery and nobody else's, nothing is
//! retried, and the sender of the message is told nothing. A broadcast never
//! changes the registry; a peer that can no longer be reached is taken out by
//! its own pipeline.

use crate::message::{ChatMessage, ChatMessageView};
use crate::registry::{is_registered, slot_of, unique_usernames, PeerView};
use tokio::sync::mpsc::Sender;
use vstd::prelude::*;

verus! {

/// One delivery attempt: enqueue `message` onto `handle`, the delivery handle
/// of the peer registered as `recipient`.
#[derive(Debug)]
pub struct Delivery<'a> {
    pub recipient: &'a str,
    pub handle: &'a Sender<ChatMessage>,
    pub message: ChatMessage,
}

/// The mathematical content of a [`Delivery`].
pub struct DeliveryView {
    pub recipient: Seq<char>,
    pub handle: Sender<ChatMessage>,
    pub message: ChatMessageView,
}

impl<'a> View for Delivery<'a> {
    type V = DeliveryView;

    open spec fn view(&self) -> DeliveryView {
        DeliveryView { recipient: self.recipient@, handle: *self.handle, message: self.message@ }
    }
}

impl<'a> DeepView for Delivery<'a> {
    type V = DeliveryView;

    open spec fn deep_view(&self) -> DeliveryView {
        self@
    }
}

/// The deliveries that broadcasting `message` to the registry `peers` is
/// made of: one for every entry, in the order of the entries.
pub open spec fn fan_out(peers: Seq<PeerView>, message: ChatMessageView) -> Seq<DeliveryView> {
    Seq::new(
        peers.len(),
        |i: int| DeliveryView { recipient: peers[i].username, handle: peers[i].handle, message },
    )
}

/// What arrives in the queue of the peer `username` when the deliveries of
/// `plan` are attempted in order and `accepted[i]` tells whether the queue of
/// delivery `i` took its message: the messages of the accepted deliveries
/// addressed to that peer, in the order of the attempts.
pub open spec fn inbox(plan: Seq<DeliveryView>, accepted: Seq<bool>, username: Seq<char>) -> Seq<
    ChatMessageView,
>
    recommends
        accepted.len() == plan.len(),
    decreases plan.len(),
{
    if plan.len() == 0 {
        Seq::empty()
    } else {
        let earlier = inbox(plan.drop_last(), accepted.drop_last(), username);
        if plan.last().recipient == username && accepted.last() {
            earlier.push(plan.last().message)
        } else {
            earlier
        }
    }
}

/// Deliveries addressed to other peers leave a peer's inbox empty.
proof fn lemma_inbox_of_stranger(plan: Seq<DeliveryView>, accepted: Seq<bool>, username: Seq<char>)
    requires
        accepted.len() == plan.len(),
        forall|i: int| 0 <= i < plan.len() ==> (#[trigger] plan[i]).recipient != username,
    ensures
        inbox(plan, accepted, username) == Seq::<ChatMessageView>::empty(),
    decreases plan.len(),
{
    if plan.len() > 0 {
        lemma_inbox_of_stranger(plan.drop_last(), accepted.drop_last(), username);
    }
}

/// A plan in which exactly the delivery at place `at` is addressed to a peer
/// puts that delivery's message into the peer's inbox if it was accepted, and
/// nothing otherwise.
proof fn lemma_inbox_of_single_delivery(
    plan: Seq<DeliveryView>,
    accepted: Seq<bool>,
    username: Seq<char>,
    at: int,
)
    requires
        accepted.len() == plan.len(),
        0 <= at < plan.len(),
        plan[at].recipient == username,
        forall|i: int|
            0 <= i < plan.len() && i != at ==> (#[trigger] plan[i]).recipient != username,
    ensures
        inbox(plan, accepted, username) == if accepted[at] {
            seq![plan[at].message]
        } else {
            Seq::<ChatMessageView>::empty()
        },
    decreases plan.len(),
{
    let earlier_plan = plan.drop_last();
    let earlier_accepted = accepted.drop_last();
    if at == plan.len() - 1 {
        lemma_inbox_of_stranger(earlier_plan, earlier_accepted, username);
        assert(Seq::<ChatMessageView>::empty().push(plan[at].message) =~= seq![plan[at].message]);
    } else {
        assert(earlier_plan[at] == plan[at]);
        assert forall|i: int| 0 <= i < earlier_plan.len() && i != at implies (
        #[trigger] earlier_plan[i]).recipient != username by {
            assert(earlier_plan[i] == plan[i]);
        }
        lemma_inbox_of_single_delivery(earlier_plan, earlier_accepted, username, at);
    }
}

/// Fan-out: one broadcast puts exactly one copy of the message into the
/// queue of every registered peer whose queue accepts it, and nothing into
/// the queue of a peer whose queue does not, or of anybody who is not
/// registered.
pub proof fn lemma_fan_out_delivers_once(
    peers: Seq<PeerView>,
    message: ChatMessageView,
    accepted: Seq<bool>,
    username: Seq<char>,
)
    requires
        unique_usernames(peers),
        accepted.len() == peers.len(),
    ensures
        inbox(fan_out(peers, message), accepted, username) == if is_registered(peers, username)
            && accepted[slot_of(peers, username)] {
            seq![message]
        } else {
            Seq::<ChatMessageView>::empty()
        },
{
    let plan = fan_out(peers, message);
    if is_registered(peers, username) {
        let at = slot_of(peers, username);
        assert forall|i: int| 0 <= i < plan.len() && i != at implies (#[trigger] plan[i]).recipient
            != username by {
            assert(peers[i].username != peers[at].username);
        }
        lemma_inbox_of_single_delivery(plan, accepted, username, at);
    } else {
        assert forall|i: int| 0 <= i < plan.len() implies (#[trigger] plan[i]).recipient
            != username by {
            assert(peers[i].username == plan[i].recipient);
        }
        lemma_inbox_of_stranger(plan, accepted, username);
    }
}

/// The sender is not left out: a registered peer whose queue accepts the
/// delivery receives its own message back, like everybody else.
pub proof fn lemma_sender_hears_itself(
    peers: Seq<PeerView>,
    message: ChatMessageView,
    accepted: Seq<bool>,
)
    requires
        unique_usernames(peers),
        accepted.len() == peers.len(),
        is_registered(peers, message.username),
        accepted[slot_of(peers, message.username)],
    ensures
        inbox(fan_out(peers, message), accepted, message.username) == seq![message],
{
    lemma_fan_out_delivers_once(peers, message, accepted, message.username);
}

/// Attempting one plan after another fills every inbox with what the first
/// plan put there, followed by what the second did.
pub proof fn lemma_inbox_of_consecutive_plans(
    first: Seq<DeliveryView>,
    first_accepted: Seq<bool>,
    second: Seq<DeliveryView>,
    second_accepted: Seq<bool>,
    username: Seq<char>,
)
    requires
        first_accepted.len() == first.len(),
        second_accepted.len() == second.len(),
    ensures
        inbox(first + second, first_accepted + second_accepted, username) == inbox(
            first,
            first_accepted,
            username,
        ) + inbox(second, second_accepted, username),
    decreases second.len(),
{
    let plan = first + second;
    let accepted = first_accepted + second_accepted;
    if second.len() == 0 {
        assert(plan =~= first);
        assert(accepted =~= first_accepted);
        assert(inbox(first, first_accepted, username) + Seq::<ChatMessageView>::empty() =~= inbox(
            first,
            first_accepted,
            username,
        ));
    } else {
        assert(plan.drop_last() =~= first + second.drop_last());
        assert(accepted.drop_last() =~= first_accepted + second_accepted.drop_last());
        assert(plan.last() == second.last());
        assert(accepted.last() == second_accepted.last());
        lemma_inbox_of_consecutive_plans(
            first,
            first_accepted,
            second.drop_last(),
            second_accepted.drop_last(),
            username,
        );
        let head = inbox(first, first_accepted, username);
        let tail = inbox(second.drop_last(), second_accepted.drop_last(), username);
        if second.last().recipient == username && second_accepted.last() {
            assert((head + tail).push(second.last().message) =~= head + tail.push(
                second.last().message,
            ));
        }
    }
}

/// Ordering per peer: when the broadcast of `first` is completed before that
/// of `second` begins, a peer that is registered for both and whose queue
/// accepts both finds `first` before `second` in its queue, and nothing
/// else. The registry may have changed in between.
pub proof fn lemma_sequential_broadcasts_arrive_in_order(
    peers_at_first: Seq<PeerView>,
    first: ChatMessageView,
    first_accepted: Seq<bool>,
    peers_at_second: Seq<PeerView>,
    second: ChatMessageView,
    second_accepted: Seq<bool>,
    username: Seq<char>,
)
    requires
        unique_usernames(peers_at_first),
        unique_usernames(peers_at_second),
        first_accepted.len() == peers_at_first.len(),
        second_accepted.len() == peers_at_second.len(),
        is_registered(peers_at_first, username),
        is_registered(peers_at_second, username),
        first_accepted[slot_of(peers_at_first, username)],
        second_accepted[slot_of(peers_at_second, username)],
    ensures
        inbox(
            fan_out(peers_at_first, first) + fan_out(peers_at_second, second),
            first_accepted + second_accepted,
            username,
        ) == seq![first, second],
{
    lemma_fan_out_delivers_once(peers_at_first, first, first_accepted, username);
    lemma_fan_out_delivers_once(peers_at_second, second, second_accepted, username);
    lemma_inbox_of_consecutive_plans(
        fan_out(peers_at_first, first),
        first_accepted,
        fan_out(peers_at_second, second),
        second_accepted,
        username,
    );
    assert(seq![first] + seq![second] =~= seq![first, second]);
}

} // verus!
