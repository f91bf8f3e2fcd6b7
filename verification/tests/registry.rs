use chat_relay::lifecycle::Connection;
use chat_relay::message::ChatMessage;
use chat_relay::queue::{message_queue, QUEUE_CAPACITY};
use chat_relay::session::Phase;
use chat_relay::state::ChatState;
use tokio::sync::mpsc::error::{TryRecvError, TrySendError};

fn names(state: &ChatState) -> Vec<String> {
    state.snapshot_for_broadcast().iter().map(|entry| entry.0.to_string()).collect()
}

#[test]
fn new_registry_is_empty() {
    let state = ChatState::new();
    assert_eq!(state.len(), 0);
    assert!(state.is_empty());
    assert!(!state.contains("alice"));
    assert!(state.snapshot_for_broadcast().is_empty());
}

#[test]
fn message_queue_buffers_one_message() {
    assert_eq!(QUEUE_CAPACITY, 1);
    let (tx, mut rx) = message_queue();
    assert_eq!(tx.max_capacity(), 1);
    assert_eq!(rx.max_capacity(), 1);
    let first = ChatMessage::new("amy".to_string(), "one".to_string());
    let second = ChatMessage::new("amy".to_string(), "two".to_string());
    assert!(tx.try_send(first.clone()).is_ok());
    assert!(matches!(tx.try_send(second), Err(TrySendError::Full(_))));
    assert_eq!(rx.try_recv().unwrap(), first);
}

#[test]
fn message_queues_are_separate() {
    let (tx_a, mut rx_a) = message_queue();
    let (tx_b, mut rx_b) = message_queue();
    assert!(!tx_a.same_channel(&tx_b));
    tx_a.try_send(ChatMessage::new("x".to_string(), "a".to_string())).unwrap();
    assert!(matches!(rx_b.try_recv(), Err(TryRecvError::Empty)));
    assert_eq!(rx_a.try_recv().unwrap().text, "a");
}

#[test]
fn register_adds_an_entry() {
    let mut state = ChatState::new();
    let (tx, _rx) = message_queue();
    let kept = tx.clone();
    state.register("alice".to_string(), tx);
    assert_eq!(state.len(), 1);
    assert!(!state.is_empty());
    assert!(state.contains("alice"));
    assert!(!state.contains("Alice"));
    assert!(!state.contains(""));
    let snapshot = state.snapshot_for_broadcast();
    assert_eq!(snapshot.len(), 1);
    assert_eq!(snapshot[0].0, "alice");
    assert!(snapshot[0].1.same_channel(&kept));
}

#[test]
fn register_keeps_the_order_of_arrival() {
    let mut state = ChatState::new();
    let mut ends = Vec::new();
    for name in ["bob", "amy", "carl"] {
        let (tx, rx) = message_queue();
        state.register(name.to_string(), tx);
        ends.push(rx);
    }
    assert_eq!(names(&state), vec!["bob", "amy", "carl"]);
    assert_eq!(state.len(), 3);
}

#[test]
fn register_twice_leaves_one_entry_with_the_second_handle() {
    let mut state = ChatState::new();
    let (first, mut first_rx) = message_queue();
    let (second, _second_rx) = message_queue();
    let second_kept = second.clone();
    state.register("alice".to_string(), first);
    state.register("alice".to_string(), second);
    assert_eq!(state.len(), 1);
    assert!(state.contains("alice"));
    let snapshot = state.snapshot_for_broadcast();
    assert_eq!(snapshot.len(), 1);
    assert_eq!(snapshot[0].0, "alice");
    assert!(snapshot[0].1.same_channel(&second_kept));
    // The replaced handle is gone, so the first queue is closed.
    assert!(matches!(first_rx.try_recv(), Err(TryRecvError::Disconnected)));
}

#[test]
fn register_over_an_entry_keeps_its_place() {
    let mut state = ChatState::new();
    let mut ends = Vec::new();
    for name in ["bob", "amy", "carl"] {
        let (tx, rx) = message_queue();
        state.register(name.to_string(), tx);
        ends.push(rx);
    }
    let (again, _again_rx) = message_queue();
    let again_kept = again.clone();
    state.register("amy".to_string(), again);
    assert_eq!(names(&state), vec!["bob", "amy", "carl"]);
    assert!(state.snapshot_for_broadcast()[1].1.same_channel(&again_kept));
}

#[test]
fn deregister_removes_the_entry() {
    let mut state = ChatState::new();
    let (tx, mut rx) = message_queue();
    state.register("alice".to_string(), tx);
    state.deregister("alice");
    assert_eq!(state.len(), 0);
    assert!(!state.contains("alice"));
    assert!(matches!(rx.try_recv(), Err(TryRecvError::Disconnected)));
}

#[test]
fn deregister_twice_is_the_same_as_once() {
    let mut state = ChatState::new();
    let (alice, _alice_rx) = message_queue();
    let (bob, _bob_rx) = message_queue();
    state.register("alice".to_string(), alice);
    state.register("bob".to_string(), bob);
    state.deregister("alice");
    assert_eq!(names(&state), vec!["bob"]);
    state.deregister("alice");
    assert_eq!(names(&state), vec!["bob"]);
}

#[test]
fn deregister_of_a_stranger_changes_nothing() {
    let mut state = ChatState::new();
    state.deregister("nobody");
    assert!(state.is_empty());
    let (alice, _alice_rx) = message_queue();
    let kept = alice.clone();
    state.register("alice".to_string(), alice);
    state.deregister("nobody");
    state.deregister("");
    state.deregister("alic");
    assert_eq!(names(&state), vec!["alice"]);
    assert!(state.snapshot_for_broadcast()[0].1.same_channel(&kept));
}

#[test]
fn deregister_keeps_the_others_in_order() {
    let mut state = ChatState::new();
    let mut ends = Vec::new();
    for name in ["bob", "amy", "carl", "dee"] {
        let (tx, rx) = message_queue();
        state.register(name.to_string(), tx);
        ends.push(rx);
    }
    state.deregister("amy");
    assert_eq!(names(&state), vec!["bob", "carl", "dee"]);
    state.deregister("bob");
    assert_eq!(names(&state), vec!["carl", "dee"]);
    state.deregister("dee");
    assert_eq!(names(&state), vec!["carl"]);
}

#[test]
fn a_name_can_be_registered_again_after_it_left() {
    let mut state = ChatState::new();
    let (first, _first_rx) = message_queue();
    let (bob, _bob_rx) = message_queue();
    let (second, _second_rx) = message_queue();
    let second_kept = second.clone();
    state.register("alice".to_string(), first);
    state.register("bob".to_string(), bob);
    state.deregister("alice");
    state.register("alice".to_string(), second);
    assert_eq!(names(&state), vec!["bob", "alice"]);
    assert!(state.snapshot_for_broadcast()[1].1.same_channel(&second_kept));
}

#[test]
fn usernames_are_compared_exactly() {
    let mut state = ChatState::new();
    let mut ends = Vec::new();
    for name in ["amy", "Amy", "amy ", "ämy"] {
        let (tx, rx) = message_queue();
        state.register(name.to_string(), tx);
        ends.push(rx);
    }
    assert_eq!(state.len(), 4);
    state.deregister("Amy");
    assert_eq!(names(&state), vec!["amy", "amy ", "ämy"]);
}

#[test]
fn connect_registers_the_peer_and_opens_its_session() {
    let mut state = ChatState::new();
    let Connection { session, mut inbound, outbound, mut stream } =
        state.connect("bob".to_string());
    assert_eq!(session.username(), "bob");
    assert_eq!(session.phase(), Phase::Connecting);
    assert_eq!(state.len(), 1);
    assert!(state.contains("bob"));

    // The registered handle feeds the inbound queue, and nothing else does.
    let said = ChatMessage::new("amy".to_string(), "hi".to_string());
    let snapshot = state.snapshot_for_broadcast();
    assert_eq!(snapshot[0].0, "bob");
    assert_eq!(snapshot[0].1.max_capacity(), QUEUE_CAPACITY);
    assert!(!snapshot[0].1.same_channel(&outbound));
    snapshot[0].1.try_send(said.clone()).unwrap();
    assert!(matches!(stream.try_recv(), Err(TryRecvError::Empty)));
    assert_eq!(inbound.try_recv().unwrap(), said);

    // The outbound bridge is a queue of its own, of the same capacity.
    assert_eq!(outbound.max_capacity(), QUEUE_CAPACITY);
    outbound.try_send(said.clone()).unwrap();
    assert!(matches!(inbound.try_recv(), Err(TryRecvError::Empty)));
    assert_eq!(stream.try_recv().unwrap(), said);
}

#[test]
fn connect_under_a_taken_name_takes_the_entry_over() {
    let mut state = ChatState::new();
    let mut first = state.connect("alice".to_string());
    let _bob = state.connect("bob".to_string());
    let mut second = state.connect("alice".to_string());
    assert_eq!(names(&state), vec!["alice", "bob"]);

    let said = ChatMessage::new("bob".to_string(), "hello".to_string());
    state.snapshot_for_broadcast()[0].1.try_send(said.clone()).unwrap();
    assert_eq!(second.inbound.try_recv().unwrap(), said);
    assert!(matches!(first.inbound.try_recv(), Err(TryRecvError::Disconnected)));
}
