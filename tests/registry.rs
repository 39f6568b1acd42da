use chat_relay::delivery::{SendOutcome, StoreError};
use chat_relay::message::MessageId;
use chat_relay::registry::ChatServer;

const ALICE: u128 = 1;
const BOB: u128 = 2;

fn id(n: u8) -> MessageId {
    MessageId { bytes: [n; 12] }
}

#[test]
fn new_registry_is_empty() {
    let server: ChatServer<u32> = ChatServer::new();
    assert!(!server.is_online(ALICE));
    assert_eq!(server.channel_of(ALICE), None);
}

#[test]
fn connect_registers_channel() {
    let mut server = ChatServer::new();
    server.connect(BOB, 7u32);
    assert!(server.is_online(BOB));
    assert!(!server.is_online(ALICE));
    assert_eq!(server.channel_of(BOB), Some(&7));
}

#[test]
fn disconnect_of_absent_user_changes_nothing() {
    let mut server = ChatServer::new();
    server.connect(BOB, 7u32);
    server.disconnect(ALICE);
    assert!(server.is_online(BOB));
    assert_eq!(server.channel_of(BOB), Some(&7));
    assert!(!server.is_online(ALICE));
    server.disconnect(ALICE);
    assert_eq!(server.channel_of(BOB), Some(&7));
}

#[test]
fn disconnect_removes_entry() {
    let mut server = ChatServer::new();
    server.connect(BOB, 7u32);
    server.disconnect(BOB);
    assert!(!server.is_online(BOB));
    assert_eq!(server.channel_of(BOB), None);
}

#[test]
fn second_connect_wins_and_routes() {
    let mut server = ChatServer::new();
    server.connect(BOB, 1u32);
    server.connect(BOB, 2u32);
    assert_eq!(server.channel_of(BOB), Some(&2));
    let record = server.compose_message("hi".to_string(), ALICE, BOB, 100);
    assert!(record.delivered);
    let decision = server.settle_send(record, Ok(id(9)));
    let (channel, pushed) = decision.push.expect("routed");
    assert_eq!(*channel, 2);
    assert_eq!(pushed.id, Some(id(9)));
    assert_eq!(decision.outcome, SendOutcome::Sent);
}

#[test]
fn store_failure_routes_nowhere() {
    let mut server = ChatServer::new();
    server.connect(BOB, 1u32);
    let record = server.compose_message("hi".to_string(), ALICE, BOB, 100);
    let decision = server.settle_send(
        record,
        Err(StoreError { reason: "down".to_string() }),
    );
    assert!(decision.push.is_none());
    assert_eq!(decision.outcome, SendOutcome::StoreFailed("down".to_string()));
}
