//! The bounded queues that a peer's messages pass through.
//!
//! Every session has two. The inbound queue runs from the broadcaster to the
//! peer's pipeline task: its write end is the peer's delivery handle, which
//! the registry keeps, and its read end belongs to the task. The outbound
//! bridge runs from the task to the transport, which streams what it reads
//! from it to the peer.
//!
//! The queues are tokio's bounded multi-producer, single-consumer channels.
//! Enqueueing and dequeueing suspend and are therefore done by the caller;
//! this module only creates queues.

use crate::message::ChatMessage;
use vstd::prelude::*;

verus! {

/// The write end of tokio's bounded channel, `tokio::sync::mpsc::Sender`.
/// Nothing inside it is visible to proofs: a value is carried, never read.
#[verifier::external_type_specification]
#[verifier::external_body]
#[verifier::reject_recursive_types(T)]
pub struct ExSender<T>(tokio::sync::mpsc::Sender<T>);

/// The read end of tokio's bounded channel, `tokio::sync::mpsc::Receiver`.
/// Nothing inside it is visible to proofs: a value is carried, never read.
#[verifier::external_type_specification]
#[verifier::external_body]
#[verifier::reject_recursive_types(T)]
pub struct ExReceiver<T>(tokio::sync::mpsc::Receiver<T>);

/// How many messages each queue of a session buffers.
///
/// With a capacity of one, a peer that is slow to drain its queues stalls
/// whoever broadcasts to it until it has caught up.
pub const QUEUE_CAPACITY: usize = 1;

/// The largest capacity that tokio accepts for a bounded channel.
pub open spec fn max_queue_capacity() -> int {
    usize::MAX as int / 8
}

/// The number of messages that the queue behind `handle` was made to buffer:
/// what tokio's `Sender::max_capacity` reports of it, for as long as the
/// queue lives.
pub uninterp spec fn queue_bound(handle: tokio::sync::mpsc::Sender<ChatMessage>) -> usize;

/// Calls `tokio::sync::mpsc::channel`, which panics when `capacity` is zero
/// or exceeds the permits of tokio's semaphore, `usize::MAX >> 3`; both are
/// excluded here. The channel keeps the capacity that it is given as its
/// bound. Nothing else is claimed of the two ends that come back.
#[verifier::external_body]
fn bounded_queue(capacity: usize) -> (ends: (
    tokio::sync::mpsc::Sender<ChatMessage>,
    tokio::sync::mpsc::Receiver<ChatMessage>,
))
    requires
        0 < capacity <= max_queue_capacity(),
    ensures
        queue_bound(ends.0) == capacity,
{
    tokio::sync::mpsc::channel(capacity)
}

/// A fresh queue of chat messages that buffers [`QUEUE_CAPACITY`] of them:
/// its write end and its read end.
pub fn message_queue() -> (ends: (
    tokio::sync::mpsc::Sender<ChatMessage>,
    tokio::sync::mpsc::Receiver<ChatMessage>,
))
    ensures
        queue_bound(ends.0) == QUEUE_CAPACITY,
{
    bounded_queue(QUEUE_CAPACITY)
}

} // verus!
