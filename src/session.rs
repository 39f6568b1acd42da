//! Per-connection session decisions. The inbound duty turns each frame from
//! the peer into an action; the outbound duty multiplexes deliveries, the
//! heartbeat timer and the shutdown signal, and alone owns the time at which
//! the peer was last seen alive.

use vstd::prelude::*;

use crate::delivery::SendOutcome;
use crate::message::{Message, UserId};

verus! {

/// How often the outbound duty checks liveness and pings the peer, in ms.
pub const HEARTBEAT_INTERVAL_MS: u64 = 5000;

/// The longest silence tolerated from the peer before the session closes, in ms.
pub const CLIENT_TIMEOUT_MS: u64 = 10000;

/// The payload of an inbound `"message"` envelope.
#[derive(Clone, Debug, PartialEq, Eq)]
pub struct ChatMessage {
    pub content: String,
    pub recipient_id: UserId,
}

/// An inbound text payload that parsed as an envelope. `chat` holds its
/// payload fields when they form a chat message.
#[derive(Clone, Debug, PartialEq, Eq)]
pub struct WebSocketMessage {
    pub message_type: String,
    pub chat: Option<ChatMessage>,
}

/// A frame read from the peer.
#[derive(Clone, Debug, PartialEq, Eq)]
pub enum InboundFrame {
    /// A text frame; `None` when its payload is not an envelope.
    Text(Option<WebSocketMessage>),
    /// A protocol-level ping with its payload.
    Ping(Vec<u8>),
    /// A protocol-level pong.
    Pong,
    /// The peer closed the connection.
    Close,
    Binary,
    Continuation,
    Nop,
    /// Reading from the peer failed.
    Failed,
}

/// A frame for the peer.
#[derive(Clone, Debug, PartialEq, Eq)]
pub enum Reply {
    /// Plain text.
    Plain(String),
    /// The `"pong"` envelope.
    Pong,
    /// The `"error"` envelope with its message.
    Error(String),
}

/// What the inbound duty does with a frame.
#[derive(Clone, Debug, PartialEq, Eq)]
pub enum InboundAction {
    /// Ask the registry to send this message, then answer with `send_reply`.
    Send(ChatMessage),
    /// Answer the peer.
    Reply(Reply),
    /// Answer with a protocol-level pong carrying this payload; the peer is alive.
    Pong(Vec<u8>),
    /// The peer is alive.
    Alive,
    /// Nothing to do.
    Ignore,
    /// Close the connection and stop.
    Close,
    /// Stop without closing.
    Stop,
}

/// Whether the inbound duty keeps reading after `a`.
pub open spec fn keeps_open(a: InboundAction) -> bool {
    !(a is Close || a is Stop)
}

/// Whether `a` tells the outbound duty that the peer was seen alive.
pub open spec fn observes_liveness(a: InboundAction) -> bool {
    a is Pong || a is Alive
}

/// `a` is the action owed for an inbound frame: a chat message is sent, a
/// `"ping"` envelope is answered with a pong, any other envelope with an error,
/// and a payload that is no envelope is dropped; protocol pings and pongs
/// prove liveness; only a close or a read failure ends the duty.
pub open spec fn inbound_action(frame: InboundFrame, a: InboundAction) -> bool {
    match frame {
        InboundFrame::Text(None) => a == InboundAction::Ignore,
        InboundFrame::Text(Some(env)) => if env.message_type@ == "message"@ {
            match env.chat {
                Some(chat) => a == InboundAction::Send(chat),
                None => a == InboundAction::Ignore,
            }
        } else if env.message_type@ == "ping"@ {
            a == InboundAction::Reply(Reply::Pong)
        } else {
            a is Reply && a->Reply_0 is Error && a->Reply_0->Error_0@ == "Unknown message type"@
        },
        InboundFrame::Ping(payload) => a == InboundAction::Pong(payload),
        InboundFrame::Pong => a == InboundAction::Alive,
        InboundFrame::Close => a == InboundAction::Close,
        InboundFrame::Binary => a == InboundAction::Ignore,
        InboundFrame::Continuation => a == InboundAction::Ignore,
        InboundFrame::Nop => a == InboundAction::Ignore,
        InboundFrame::Failed => a == InboundAction::Stop,
    }
}

/// Decides what the inbound duty does with `frame`.
pub fn on_inbound(frame: InboundFrame) -> (a: InboundAction)
    ensures
        inbound_action(frame, a),
{
    match frame {
        InboundFrame::Text(None) => InboundAction::Ignore,
        InboundFrame::Text(Some(env)) => {
            if env.message_type == String::from_str("message") {
                match env.chat {
                    Some(chat) => InboundAction::Send(chat),
                    None => InboundAction::Ignore,
                }
            } else if env.message_type == String::from_str("ping") {
                InboundAction::Reply(Reply::Pong)
            } else {
                InboundAction::Reply(Reply::Error(String::from_str("Unknown message type")))
            }
        },
        InboundFrame::Ping(payload) => InboundAction::Pong(payload),
        InboundFrame::Pong => InboundAction::Alive,
        InboundFrame::Close => InboundAction::Close,
        InboundFrame::Binary => InboundAction::Ignore,
        InboundFrame::Continuation => InboundAction::Ignore,
        InboundFrame::Nop => InboundAction::Ignore,
        InboundFrame::Failed => InboundAction::Stop,
    }
}

/// The answer to the peer once a send has been attempted: the outcome text on
/// success, an error envelope when the store refused the message or the
/// registry could not be reached.
pub fn send_reply(result: Result<SendOutcome, String>) -> (r: Reply)
    ensures
        match result {
            Ok(SendOutcome::Sent) => r is Plain && r->Plain_0@ == "Message sent successfully"@,
            Ok(SendOutcome::StoreFailed(reason)) => r is Error && r->Error_0@
                == "Failed to send message: "@ + reason@,
            Err(e) => r == Reply::Error(e),
        },
{
    match result {
        Ok(outcome) => {
            let text = outcome.reply_text();
            if outcome.is_sent() {
                Reply::Plain(text)
            } else {
                Reply::Error(text)
            }
        },
        Err(e) => Reply::Error(e),
    }
}

/// A text payload that is not an envelope is dropped without a reply, and an
/// envelope of an unknown type is answered with an error envelope; neither
/// ends the inbound duty nor counts as liveness, so the frames after it are
/// read and handled as usual.
pub proof fn lemma_bad_frames_keep_open(frame: InboundFrame, a: InboundAction)
    requires
        inbound_action(frame, a),
        frame is Text,
        frame->Text_0 is None || (frame->Text_0->Some_0.message_type@ != "message"@
            && frame->Text_0->Some_0.message_type@ != "ping"@),
    ensures
        keeps_open(a),
        !observes_liveness(a),
        frame->Text_0 is None ==> a == InboundAction::Ignore,
        frame->Text_0 is Some ==> a is Reply && a->Reply_0 is Error,
{
}

/// The inbound duty ends exactly on a close frame or a read failure.
pub proof fn lemma_only_close_or_failure_ends(frame: InboundFrame, a: InboundAction)
    requires
        inbound_action(frame, a),
    ensures
        keeps_open(a) <==> !(frame is Close || frame is Failed),
{
}

/// Liveness bookkeeping of the outbound duty. Times are milliseconds on a
/// monotonic clock.
#[derive(Clone, Copy, Debug, PartialEq, Eq)]
pub struct Heartbeat {
    pub last_seen: u64,
    pub timeout: u64,
}

/// An event observed by the outbound duty.
#[derive(Clone, Debug, PartialEq, Eq)]
pub enum OutboundEvent {
    /// A message arrived on the user's outbound channel.
    Deliver(Message),
    /// The heartbeat timer fired at this time.
    Tick(u64),
    /// The inbound duty saw the peer alive at this time.
    Alive(u64),
    /// The inbound duty ended.
    Shutdown,
}

/// What the outbound duty does with an event.
#[derive(Clone, Debug, PartialEq, Eq)]
pub enum OutboundAction {
    /// Send the message to the peer in a `"message"` envelope.
    Relay(Message),
    /// Send a protocol-level ping.
    Ping,
    /// The peer has been silent too long: close the connection and stop.
    Close,
    /// Stop.
    Stop,
    /// Nothing to send.
    Nothing,
}

/// The peer has been silent for longer than the timeout at time `now`.
pub open spec fn silent_too_long(hb: Heartbeat, now: u64) -> bool {
    now > hb.last_seen + hb.timeout
}

/// The bookkeeping and the action after one event.
pub open spec fn outbound_step(hb: Heartbeat, ev: OutboundEvent) -> (Heartbeat, OutboundAction) {
    match ev {
        OutboundEvent::Deliver(m) => (hb, OutboundAction::Relay(m)),
        OutboundEvent::Tick(now) => if silent_too_long(hb, now) {
            (hb, OutboundAction::Close)
        } else {
            (hb, OutboundAction::Ping)
        },
        OutboundEvent::Alive(now) => (Heartbeat { last_seen: now, ..hb }, OutboundAction::Nothing),
        OutboundEvent::Shutdown => (hb, OutboundAction::Stop),
    }
}

/// The outbound duty, fed `events` in order, ends by closing the connection.
pub open spec fn ends_in_close(hb: Heartbeat, events: Seq<OutboundEvent>) -> bool
    decreases events.len(),
{
    if events.len() == 0 {
        false
    } else {
        let (next, action) = outbound_step(hb, events[0]);
        match action {
            OutboundAction::Close => true,
            OutboundAction::Stop => false,
            _ => ends_in_close(next, events.drop_first()),
        }
    }
}

impl Heartbeat {
    /// Bookkeeping for a session that starts at `now`.
    pub fn new(now: u64, timeout: u64) -> (r: Heartbeat)
        ensures
            r.last_seen == now,
            r.timeout == timeout,
    {
        Heartbeat { last_seen: now, timeout }
    }

    /// Whether the peer has been silent for longer than the timeout at `now`.
    pub fn timed_out(&self, now: u64) -> (r: bool)
        ensures
            r == silent_too_long(*self, now),
    {
        now > self.last_seen && now - self.last_seen > self.timeout
    }

    /// Handles one event of the outbound duty.
    pub fn step(&mut self, ev: OutboundEvent) -> (a: OutboundAction)
        ensures
            (*final(self), a) == outbound_step(*old(self), ev),
    {
        match ev {
            OutboundEvent::Deliver(m) => OutboundAction::Relay(m),
            OutboundEvent::Tick(now) => {
                if self.timed_out(now) {
                    OutboundAction::Close
                } else {
                    OutboundAction::Ping
                }
            },
            OutboundEvent::Alive(now) => {
                self.last_seen = now;
                OutboundAction::Nothing
            },
            OutboundEvent::Shutdown => OutboundAction::Stop,
        }
    }
}

/// A session closes once a heartbeat tick finds the peer silent for longer
/// than the timeout, whatever was delivered meanwhile, unless a liveness
/// signal or a shutdown came first.
pub proof fn lemma_silence_closes(hb: Heartbeat, events: Seq<OutboundEvent>, i: int)
    requires
        0 <= i < events.len(),
        events[i] is Tick,
        silent_too_long(hb, events[i]->Tick_0),
        forall|j: int| 0 <= j < i ==> !(events[j] is Alive) && !(events[j] is Shutdown),
    ensures
        ends_in_close(hb, events),
    decreases i,
{
    if i > 0 {
        let rest = events.drop_first();
        assert(rest[i - 1] == events[i]);
        assert forall|j: int| 0 <= j < i - 1 implies !(rest[j] is Alive) && !(rest[j] is Shutdown) by {
            assert(rest[j] == events[j + 1]);
        }
        lemma_silence_closes(hb, rest, i - 1);
    }
}

} // verus!
