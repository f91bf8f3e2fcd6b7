//! One peer's session: the life of a connection and the loop of its
//! delivery pipeline.
//!
//! A session is `Connecting` while the connect handler registers the peer,
//! `Active` while its pipeline task bridges the inbound queue to the outbound
//! stream, and `Terminated` once the task has ended. There is no request to
//! disconnect: a session ends only when a push onto its stream fails, or when
//! its inbound queue is closed.
//!
//! The pipeline task is the only writer to the session's outbound stream and
//! the only one to deregister its username. The task itself waits on the
//! queue and on the stream; after each wait it reports what happened to
//! [`PeerSession::step`] and is told what to do next.

use crate::message::{leave_notice, ChatMessage, ChatMessageView};
use vstd::prelude::*;

verus! {

/// Where a connection stands in its life.
#[derive(Clone, Copy, Debug, PartialEq, Eq, Structural)]
pub enum Phase {
    /// The connect handler is setting the session up.
    Connecting,
    /// The pipeline task is running.
    Active,
    /// The pipeline task has ended, or is about to after its last action.
    Terminated,
}

/// What the outside reports to a session.
#[derive(Debug)]
pub enum SessionEvent {
    /// The peer's delivery handle is registered and its pipeline task started.
    Joined,
    /// A message arrived on the inbound queue.
    Received(ChatMessage),
    /// The inbound queue is closed: no delivery handle to it is left, because
    /// the registry entry was overwritten or the server is shutting down.
    QueueClosed,
    /// The message was pushed onto the outbound stream.
    Pushed,
    /// The push failed: the stream is closed, the peer has disconnected.
    PushFailed,
}

/// What a session asks its pipeline task to do next.
#[derive(Debug, PartialEq, Eq)]
pub enum SessionAction {
    /// Wait for the next message on the inbound queue.
    Receive,
    /// Push this message onto the outbound stream.
    Push(ChatMessage),
    /// Deregister `username`, announce `notice` to those still connected,
    /// then end the task.
    Leave { username: String, notice: ChatMessage },
    /// End the task; nothing else is to be done.
    Stop,
}

/// The mathematical content of a [`SessionEvent`].
pub enum SessionEventView {
    Joined,
    Received(ChatMessageView),
    QueueClosed,
    Pushed,
    PushFailed,
}

/// The mathematical content of a [`SessionAction`].
pub enum SessionActionView {
    Receive,
    Push(ChatMessageView),
    Leave { username: Seq<char>, notice: ChatMessageView },
    Stop,
}

impl View for SessionEvent {
    type V = SessionEventView;

    open spec fn view(&self) -> SessionEventView {
        match *self {
            SessionEvent::Joined => SessionEventView::Joined,
            SessionEvent::Received(message) => SessionEventView::Received(message@),
            SessionEvent::QueueClosed => SessionEventView::QueueClosed,
            SessionEvent::Pushed => SessionEventView::Pushed,
            SessionEvent::PushFailed => SessionEventView::PushFailed,
        }
    }
}

impl View for SessionAction {
    type V = SessionActionView;

    open spec fn view(&self) -> SessionActionView {
        match *self {
            SessionAction::Receive => SessionActionView::Receive,
            SessionAction::Push(message) => SessionActionView::Push(message@),
            SessionAction::Leave { username, notice } => SessionActionView::Leave {
                username: username@,
                notice: notice@,
            },
            SessionAction::Stop => SessionActionView::Stop,
        }
    }
}

/// The rule of the session: for the session of `username` in `phase`, the
/// phase that `event` leads to and the action that it calls for, or `None`
/// where the phase does not expect the event.
///
/// * Once joined, the session is active and waits for its first message.
/// * A message that arrives is pushed onto the stream; when the push has
///   succeeded, the session waits for the next one.
/// * When a push fails, the message is dropped and the session leaves: this
///   is its last action.
/// * When the inbound queue is closed, the session stops without further
///   action.
/// * A terminated session expects nothing.
pub open spec fn transition(phase: Phase, username: Seq<char>, event: SessionEventView) -> Option<
    (Phase, SessionActionView),
> {
    match (phase, event) {
        (Phase::Connecting, SessionEventView::Joined) => Some(
            (Phase::Active, SessionActionView::Receive),
        ),
        (Phase::Active, SessionEventView::Received(message)) => Some(
            (Phase::Active, SessionActionView::Push(message)),
        ),
        (Phase::Active, SessionEventView::Pushed) => Some(
            (Phase::Active, SessionActionView::Receive),
        ),
        (Phase::Active, SessionEventView::PushFailed) => Some(
            (
                Phase::Terminated,
                SessionActionView::Leave { username, notice: leave_notice(username) },
            ),
        ),
        (Phase::Active, SessionEventView::QueueClosed) => Some(
            (Phase::Terminated, SessionActionView::Stop),
        ),
        _ => None,
    }
}

/// The session of one connected peer.
#[derive(Debug)]
pub struct PeerSession {
    username: String,
    phase: Phase,
}

/// The mathematical content of a [`PeerSession`].
pub struct PeerSessionView {
    pub username: Seq<char>,
    pub phase: Phase,
}

impl View for PeerSession {
    type V = PeerSessionView;

    closed spec fn view(&self) -> PeerSessionView {
        PeerSessionView { username: self.username@, phase: self.phase }
    }
}

impl PeerSession {
    /// Opens the session of a peer that connects as `username`.
    pub fn new(username: String) -> (session: Self)
        ensures
            session@ == (PeerSessionView { username: username@, phase: Phase::Connecting }),
    {
        PeerSession { username, phase: Phase::Connecting }
    }

    /// The username that the session was opened under.
    pub fn username(&self) -> (username: &str)
        ensures
            username@ == self@.username,
    {
        self.username.as_str()
    }

    /// The phase that the session is in.
    pub fn phase(&self) -> (phase: Phase)
        ensures
            phase == self@.phase,
    {
        self.phase
    }

    /// The notice with which the connect handler announces this peer.
    pub fn join_notice(&self) -> (notice: ChatMessage)
        ensures
            notice@ == crate::message::join_notice(self@.username),
    {
        ChatMessage::joined(self.username.as_str())
    }

    /// Takes in what happened and says what to do next, as [`transition`]
    /// rules. An event that the phase does not expect changes nothing and
    /// calls for nothing.
    pub fn step(&mut self, event: SessionEvent) -> (action: Option<SessionAction>)
        ensures
            final(self)@.username == old(self)@.username,
            match transition(old(self)@.phase, old(self)@.username, event@) {
                Some((phase, expected)) => final(self)@.phase == phase && action.is_some()
                    && action.unwrap()@ == expected,
                None => final(self)@.phase == old(self)@.phase && action.is_none(),
            },
    {
        match self.phase {
            Phase::Connecting => match event {
                SessionEvent::Joined => {
                    self.phase = Phase::Active;
                    Some(SessionAction::Receive)
                },
                _ => None,
            },
            Phase::Active => match event {
                SessionEvent::Joined => None,
                SessionEvent::Received(message) => Some(SessionAction::Push(message)),
                SessionEvent::Pushed => Some(SessionAction::Receive),
                SessionEvent::PushFailed => {
                    self.phase = Phase::Terminated;
                    Some(
                        SessionAction::Leave {
                            username: self.username.clone(),
                            notice: ChatMessage::left(self.username.as_str()),
                        },
                    )
                },
                SessionEvent::QueueClosed => {
                    self.phase = Phase::Terminated;
                    Some(SessionAction::Stop)
                },
            },
            Phase::Terminated => None,
        }
    }
}

/// The phase that the session of `username` is in after the events of
/// `events` have been reported to it in order, starting from `phase`.
pub open spec fn phase_after(phase: Phase, username: Seq<char>, events: Seq<SessionEventView>) -> Phase
    decreases events.len(),
{
    if events.len() == 0 {
        phase
    } else {
        match transition(phase, username, events[0]) {
            Some((next, _)) => phase_after(next, username, events.skip(1)),
            None => phase_after(phase, username, events.skip(1)),
        }
    }
}

/// The actions that the session of `username` calls for, in order, while the
/// events of `events` are reported to it, starting from `phase`.
pub open spec fn actions_of(phase: Phase, username: Seq<char>, events: Seq<SessionEventView>) -> Seq<
    SessionActionView,
>
    decreases events.len(),
{
    if events.len() == 0 {
        Seq::empty()
    } else {
        match transition(phase, username, events[0]) {
            Some((next, action)) => seq![action] + actions_of(next, username, events.skip(1)),
            None => actions_of(phase, username, events.skip(1)),
        }
    }
}

/// How many of `actions` are a `Leave`.
pub open spec fn departures(actions: Seq<SessionActionView>) -> nat
    decreases actions.len(),
{
    if actions.len() == 0 {
        0
    } else {
        departures(actions.skip(1)) + if actions[0] is Leave {
            1nat
        } else {
            0nat
        }
    }
}

/// A terminated session stays terminated and calls for nothing more,
/// whatever is reported to it.
pub proof fn lemma_terminated_is_final(username: Seq<char>, events: Seq<SessionEventView>)
    ensures
        phase_after(Phase::Terminated, username, events) == Phase::Terminated,
        actions_of(Phase::Terminated, username, events) == Seq::<SessionActionView>::empty(),
    decreases events.len(),
{
    if events.len() > 0 {
        lemma_terminated_is_final(username, events.skip(1));
    }
}

/// A session cleans up after itself at most once: whatever is reported to
/// it, and in whatever phase it starts, it leaves at most once, and having
/// left it is terminated.
pub proof fn lemma_leaves_at_most_once(
    phase: Phase,
    username: Seq<char>,
    events: Seq<SessionEventView>,
)
    ensures
        departures(actions_of(phase, username, events)) <= 1,
        departures(actions_of(phase, username, events)) == 1 ==> phase_after(
            phase,
            username,
            events,
        ) == Phase::Terminated,
    decreases events.len(),
{
    if events.len() > 0 {
        let rest = events.skip(1);
        match transition(phase, username, events[0]) {
            Some((next, action)) => {
                let later = actions_of(next, username, rest);
                assert((seq![action] + later).skip(1) =~= later);
                if action is Leave {
                    lemma_terminated_is_final(username, rest);
                } else {
                    lemma_leaves_at_most_once(next, username, rest);
                }
            },
            None => {
                lemma_leaves_at_most_once(phase, username, rest);
            },
        }
    }
}

/// A failed push ends the session: the session leaves, once, and whatever is
/// reported to it afterwards calls for nothing. The message that could not
/// be pushed is not tried again.
pub proof fn lemma_failed_push_ends_session(username: Seq<char>, later: Seq<SessionEventView>)
    ensures
        phase_after(Phase::Active, username, seq![SessionEventView::PushFailed] + later)
            == Phase::Terminated,
        actions_of(Phase::Active, username, seq![SessionEventView::PushFailed] + later) == seq![
            SessionActionView::Leave { username, notice: leave_notice(username) },
        ],
{
    let events = seq![SessionEventView::PushFailed] + later;
    assert(events.skip(1) =~= later);
    lemma_terminated_is_final(username, later);
    let leave = SessionActionView::Leave { username, notice: leave_notice(username) };
    assert(seq![leave] + Seq::<SessionActionView>::empty() =~= seq![leave]);
}

/// A closed inbound queue ends the session without cleanup: the session
/// stops, and whatever is reported to it afterwards calls for nothing.
pub proof fn lemma_closed_queue_ends_session(username: Seq<char>, later: Seq<SessionEventView>)
    ensures
        phase_after(Phase::Active, username, seq![SessionEventView::QueueClosed] + later)
            == Phase::Terminated,
        actions_of(Phase::Active, username, seq![SessionEventView::QueueClosed] + later) == seq![
            SessionActionView::Stop,
        ],
{
    let events = seq![SessionEventView::QueueClosed] + later;
    assert(events.skip(1) =~= later);
    lemma_terminated_is_final(username, later);
    assert(seq![SessionActionView::Stop] + Seq::<SessionActionView>::empty() =~= seq![
        SessionActionView::Stop,
    ]);
}

/// What is reported to a session while `messages` arrive one after the
/// other and every push succeeds.
pub open spec fn smooth_run(messages: Seq<ChatMessageView>) -> Seq<SessionEventView>
    decreases messages.len(),
{
    if messages.len() == 0 {
        Seq::empty()
    } else {
        seq![SessionEventView::Received(messages[0]), SessionEventView::Pushed] + smooth_run(
            messages.skip(1),
        )
    }
}

/// The messages that `actions` push onto the stream, in order.
pub open spec fn pushed(actions: Seq<SessionActionView>) -> Seq<ChatMessageView>
    decreases actions.len(),
{
    if actions.len() == 0 {
        Seq::empty()
    } else {
        match actions[0] {
            SessionActionView::Push(message) => seq![message] + pushed(actions.skip(1)),
            _ => pushed(actions.skip(1)),
        }
    }
}

/// While the stream takes what is pushed, an active session pushes every
/// message that arrives, once, in the order of arrival, and stays active.
pub proof fn lemma_pipeline_keeps_order(username: Seq<char>, messages: Seq<ChatMessageView>)
    ensures
        phase_after(Phase::Active, username, smooth_run(messages)) == Phase::Active,
        pushed(actions_of(Phase::Active, username, smooth_run(messages))) == messages,
    decreases messages.len(),
{
    if messages.len() == 0 {
        assert(pushed(Seq::<SessionActionView>::empty()) =~= messages);
    } else {
        let rest = smooth_run(messages.skip(1));
        let events = smooth_run(messages);
        let after_first = events.skip(1);
        assert(after_first =~= seq![SessionEventView::Pushed] + rest);
        assert(after_first.skip(1) =~= rest);
        lemma_pipeline_keeps_order(username, messages.skip(1));
        assert(events[0] == SessionEventView::Received(messages[0]));
        assert(after_first[0] == SessionEventView::Pushed);
        assert(phase_after(Phase::Active, username, after_first) == phase_after(
            Phase::Active,
            username,
            rest,
        ));
        assert(phase_after(Phase::Active, username, events) == phase_after(
            Phase::Active,
            username,
            after_first,
        ));
        let tail = actions_of(Phase::Active, username, rest);
        let middle = seq![SessionActionView::Receive] + tail;
        assert(actions_of(Phase::Active, username, after_first) == middle);
        let all = seq![SessionActionView::Push(messages[0])] + middle;
        assert(actions_of(Phase::Active, username, events) == all);
        assert(all.skip(1) =~= middle);
        assert(middle.skip(1) =~= tail);
        assert(pushed(middle) == pushed(tail));
        assert(pushed(all) == seq![messages[0]] + pushed(middle));
        assert(seq![messages[0]] + messages.skip(1) =~= messages);
    }
}

} // verus!
