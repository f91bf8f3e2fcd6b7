use chat_relay::lifecycle::Connection;
use chat_relay::message::ChatMessage;
use chat_relay::server::ChatServer;
use chat_relay::session::{SessionAction, SessionEvent};
use chat_relay::state::ChatState;
use std::future::Future;
use std::sync::Arc;
use std::time::Duration;
use tokio::sync::mpsc::Receiver;
use tokio::sync::RwLock;

type Shared = Arc<RwLock<ChatState>>;

fn run<F: Future<Output = ()>>(scenario: F) {
    let runtime = tokio::runtime::Builder::new_current_thread().enable_all().build().unwrap();
    runtime.block_on(async {
        tokio::time::timeout(Duration::from_secs(10), scenario).await.expect("the scenario hangs");
    });
}

fn server() -> ChatServer {
    ChatServer::new(Arc::new(RwLock::new(ChatState::new())))
}

fn said(username: &str, text: &str) -> ChatMessage {
    ChatMessage::new(username.to_string(), text.to_string())
}

/// Carries out one broadcast: every planned delivery is attempted in turn,
/// waiting where a queue is full, while the registry is held for reading.
async fn deliver(state: &Shared, message: &ChatMessage) -> Vec<(String, bool)> {
    let registry = state.read().await;
    let mut outcomes = Vec::new();
    for delivery in registry.broadcast(message) {
        let recipient = delivery.recipient.to_string();
        let accepted = delivery.handle.send(delivery.message).await.is_ok();
        outcomes.push((recipient, accepted));
    }
    outcomes
}

/// The connect handler: registers the peer, announces it, starts its
/// pipeline task and hands back the read end of its outbound stream.
async fn connect(server: &ChatServer, username: &str) -> Receiver<ChatMessage> {
    let state = server.state().clone();
    let Connection { mut session, mut inbound, outbound, stream } =
        state.write().await.connect(username.to_string());
    deliver(&state, &session.join_notice()).await;
    let mut action = session.step(SessionEvent::Joined);
    tokio::spawn(async move {
        while let Some(current) = action {
            let event = match current {
                SessionAction::Receive => match inbound.recv().await {
                    Some(message) => SessionEvent::Received(message),
                    None => SessionEvent::QueueClosed,
                },
                SessionAction::Push(message) => match outbound.send(message).await {
                    Ok(()) => SessionEvent::Pushed,
                    Err(_) => SessionEvent::PushFailed,
                },
                SessionAction::Leave { username, notice } => {
                    state.write().await.deregister(&username);
                    deliver(&state, &notice).await;
                    break;
                }
                SessionAction::Stop => break,
            };
            action = session.step(event);
        }
    });
    stream
}

/// The send-message handler.
async fn send_message(server: &ChatServer, username: &str, text: &str) {
    let registry = server.state().read().await;
    for delivery in registry.send_message(username.to_string(), text.to_string()) {
        let _ = delivery.handle.send(delivery.message).await;
    }
}

async fn registered(server: &ChatServer, username: &str) -> bool {
    server.state().read().await.contains(username)
}

#[test]
fn the_server_hands_out_the_state_it_was_given() {
    let state = Arc::new(RwLock::new(ChatState::new()));
    let server = ChatServer::new(state.clone());
    assert!(Arc::ptr_eq(server.state(), &state));
    let (handle, _inbound) = chat_relay::queue::message_queue();
    state.try_write().unwrap().register("amy".to_string(), handle);
    assert!(server.state().try_read().unwrap().contains("amy"));
}

#[test]
fn bob_and_amy_both_receive_what_amy_says() {
    run(async {
        let server = server();
        let mut bob = connect(&server, "bob").await;
        assert_eq!(bob.recv().await, Some(said("System", "bob joined this chat")));
        let mut amy = connect(&server, "amy").await;
        assert_eq!(bob.recv().await, Some(said("System", "amy joined this chat")));
        assert_eq!(amy.recv().await, Some(said("System", "amy joined this chat")));

        send_message(&server, "amy", "hi").await;

        assert_eq!(bob.recv().await, Some(said("amy", "hi")));
        assert_eq!(amy.recv().await, Some(said("amy", "hi")));
        assert!(registered(&server, "bob").await);
        assert!(registered(&server, "amy").await);
        assert_eq!(server.state().read().await.len(), 2);
    });
}

#[test]
fn a_peer_that_disconnected_is_removed_by_its_own_pipeline() {
    run(async {
        let server = server();
        let mut bob = connect(&server, "bob").await;
        assert_eq!(bob.recv().await, Some(said("System", "bob joined this chat")));
        let mut amy = connect(&server, "amy").await;
        assert_eq!(bob.recv().await, Some(said("System", "amy joined this chat")));
        assert_eq!(amy.recv().await, Some(said("System", "amy joined this chat")));

        drop(bob);
        // Nothing has noticed yet: the registry only learns of it when a
        // push fails.
        assert!(registered(&server, "bob").await);

        send_message(&server, "amy", "hello").await;

        assert_eq!(amy.recv().await, Some(said("amy", "hello")));
        assert_eq!(amy.recv().await, Some(said("System", "bob left the chat")));
        assert!(!registered(&server, "bob").await);
        assert!(registered(&server, "amy").await);

        let state = server.state().clone();
        let outcomes = deliver(&state, &said("amy", "still there?")).await;
        assert_eq!(outcomes, vec![("amy".to_string(), true)]);
        assert_eq!(amy.recv().await, Some(said("amy", "still there?")));
    });
}

#[test]
fn a_lone_peer_hears_itself() {
    run(async {
        let server = server();
        let mut amy = connect(&server, "amy").await;
        assert_eq!(amy.recv().await, Some(said("System", "amy joined this chat")));
        send_message(&server, "amy", "echo").await;
        assert_eq!(amy.recv().await, Some(said("amy", "echo")));
    });
}

#[test]
fn a_stranger_can_speak_to_the_room() {
    run(async {
        let server = server();
        let mut bob = connect(&server, "bob").await;
        assert_eq!(bob.recv().await, Some(said("System", "bob joined this chat")));
        send_message(&server, "mallory", "boo").await;
        assert_eq!(bob.recv().await, Some(said("mallory", "boo")));
        assert!(!registered(&server, "mallory").await);
    });
}

#[test]
fn messages_sent_one_after_the_other_are_seen_in_that_order() {
    run(async {
        let server = server();
        let mut bob = connect(&server, "bob").await;
        assert_eq!(bob.recv().await, Some(said("System", "bob joined this chat")));
        let mut amy = connect(&server, "amy").await;
        assert_eq!(bob.recv().await, Some(said("System", "amy joined this chat")));
        assert_eq!(amy.recv().await, Some(said("System", "amy joined this chat")));

        send_message(&server, "amy", "A").await;
        send_message(&server, "bob", "B").await;

        for stream in [&mut bob, &mut amy] {
            assert_eq!(stream.recv().await, Some(said("amy", "A")));
            assert_eq!(stream.recv().await, Some(said("bob", "B")));
        }
    });
}

#[test]
fn connecting_twice_under_one_name_keeps_the_second_session() {
    run(async {
        let server = server();
        let mut first = connect(&server, "alice").await;
        assert_eq!(first.recv().await, Some(said("System", "alice joined this chat")));
        let mut second = connect(&server, "alice").await;
        assert_eq!(second.recv().await, Some(said("System", "alice joined this chat")));
        assert_eq!(server.state().read().await.len(), 1);

        // The first pipeline lost its queue and has ended: its stream closes.
        assert_eq!(first.recv().await, None);

        send_message(&server, "carl", "to whom?").await;
        assert_eq!(second.recv().await, Some(said("carl", "to whom?")));
        assert!(registered(&server, "alice").await);
    });
}

#[test]
fn a_broadcast_waits_for_a_peer_that_is_slow_to_drain() {
    run(async {
        let server = server();
        let mut bob = connect(&server, "bob").await;
        // One message waits in the stream, one is held by the pipeline, one
        // sits in the inbound queue: the join notice and two more fit.
        send_message(&server, "amy", "1").await;
        send_message(&server, "amy", "2").await;
        let stalled =
            tokio::time::timeout(Duration::from_millis(200), send_message(&server, "amy", "3"))
                .await;
        assert!(stalled.is_err());
        assert_eq!(bob.recv().await, Some(said("System", "bob joined this chat")));
        assert_eq!(bob.recv().await, Some(said("amy", "1")));
        assert_eq!(bob.recv().await, Some(said("amy", "2")));
        send_message(&server, "amy", "4").await;
        assert_eq!(bob.recv().await, Some(said("amy", "4")));
    });
}
