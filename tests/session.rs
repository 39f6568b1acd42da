use chat_relay::delivery::SendOutcome;
use chat_relay::message::Message;
use chat_relay::session::{
    on_inbound, send_reply, ChatMessage, Heartbeat, InboundAction, InboundFrame, OutboundAction,
    OutboundEvent, Reply, WebSocketMessage, CLIENT_TIMEOUT_MS, HEARTBEAT_INTERVAL_MS,
};

fn envelope(kind: &str, chat: Option<ChatMessage>) -> InboundFrame {
    InboundFrame::Text(Some(WebSocketMessage { message_type: kind.to_string(), chat }))
}

fn chat() -> ChatMessage {
    ChatMessage { content: "hey".to_string(), recipient_id: 42 }
}

#[test]
fn message_envelope_is_sent() {
    assert_eq!(on_inbound(envelope("message", Some(chat()))), InboundAction::Send(chat()));
}

#[test]
fn message_envelope_without_chat_is_ignored() {
    assert_eq!(on_inbound(envelope("message", None)), InboundAction::Ignore);
}

#[test]
fn ping_envelope_gets_pong() {
    assert_eq!(on_inbound(envelope("ping", None)), InboundAction::Reply(Reply::Pong));
}

#[test]
fn unknown_type_gets_error_and_session_continues() {
    assert_eq!(
        on_inbound(envelope("typing", None)),
        InboundAction::Reply(Reply::Error("Unknown message type".to_string()))
    );
    assert_eq!(
        on_inbound(envelope("", Some(chat()))),
        InboundAction::Reply(Reply::Error("Unknown message type".to_string()))
    );
    assert_eq!(on_inbound(envelope("message", Some(chat()))), InboundAction::Send(chat()));
}

#[test]
fn unparseable_payload_is_dropped_and_session_continues() {
    assert_eq!(on_inbound(InboundFrame::Text(None)), InboundAction::Ignore);
    assert_eq!(on_inbound(envelope("ping", None)), InboundAction::Reply(Reply::Pong));
}

#[test]
fn control_frames() {
    assert_eq!(on_inbound(InboundFrame::Ping(vec![1, 2])), InboundAction::Pong(vec![1, 2]));
    assert_eq!(on_inbound(InboundFrame::Pong), InboundAction::Alive);
    assert_eq!(on_inbound(InboundFrame::Close), InboundAction::Close);
    assert_eq!(on_inbound(InboundFrame::Failed), InboundAction::Stop);
    assert_eq!(on_inbound(InboundFrame::Binary), InboundAction::Ignore);
    assert_eq!(on_inbound(InboundFrame::Continuation), InboundAction::Ignore);
    assert_eq!(on_inbound(InboundFrame::Nop), InboundAction::Ignore);
}

#[test]
fn send_replies() {
    assert_eq!(
        send_reply(Ok(SendOutcome::Sent)),
        Reply::Plain("Message sent successfully".to_string())
    );
    assert_eq!(
        send_reply(Ok(SendOutcome::StoreFailed("timeout".to_string()))),
        Reply::Error("Failed to send message: timeout".to_string())
    );
    assert_eq!(
        send_reply(Err("Failed to receive response".to_string())),
        Reply::Error("Failed to receive response".to_string())
    );
}

#[test]
fn heartbeat_constants() {
    assert_eq!(HEARTBEAT_INTERVAL_MS, 5000);
    assert_eq!(CLIENT_TIMEOUT_MS, 10000);
}

#[test]
fn tick_within_timeout_pings() {
    let mut hb = Heartbeat::new(1000, CLIENT_TIMEOUT_MS);
    assert_eq!(hb.step(OutboundEvent::Tick(6000)), OutboundAction::Ping);
    assert_eq!(hb.step(OutboundEvent::Tick(11000)), OutboundAction::Ping);
    assert!(!hb.timed_out(11000));
    assert!(hb.timed_out(11001));
}

#[test]
fn silent_peer_is_closed() {
    let mut hb = Heartbeat::new(0, CLIENT_TIMEOUT_MS);
    let m = Message {
        id: None,
        content: "x".to_string(),
        delivered: true,
        recipient_id: 1,
        sender_id: 2,
        timestamp: 0,
        last_updated: 0,
    };
    assert_eq!(hb.step(OutboundEvent::Tick(5000)), OutboundAction::Ping);
    assert_eq!(hb.step(OutboundEvent::Deliver(m.clone())), OutboundAction::Relay(m));
    assert_eq!(hb.step(OutboundEvent::Tick(10000)), OutboundAction::Ping);
    assert_eq!(hb.step(OutboundEvent::Tick(15000)), OutboundAction::Close);
}

#[test]
fn liveness_postpones_timeout() {
    let mut hb = Heartbeat::new(0, CLIENT_TIMEOUT_MS);
    assert_eq!(hb.step(OutboundEvent::Alive(9000)), OutboundAction::Nothing);
    assert_eq!(hb.last_seen, 9000);
    assert_eq!(hb.step(OutboundEvent::Tick(15000)), OutboundAction::Ping);
    assert_eq!(hb.step(OutboundEvent::Tick(19001)), OutboundAction::Close);
}

#[test]
fn shutdown_stops_outbound_duty() {
    let mut hb = Heartbeat::new(0, CLIENT_TIMEOUT_MS);
    assert_eq!(hb.step(OutboundEvent::Shutdown), OutboundAction::Stop);
}

#[test]
fn clock_before_last_seen_is_not_timeout() {
    let hb = Heartbeat::new(50_000, CLIENT_TIMEOUT_MS);
    assert!(!hb.timed_out(10));
}
