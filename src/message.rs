//! Message records as held by the message store and pushed to sessions.

use vstd::prelude::*;

verus! {

/// A stable 128-bit user identifier.
pub type UserId = u128;

/// Identifier the message store assigns to a record on insert.
#[derive(Clone, Copy, Debug, PartialEq, Eq)]
pub struct MessageId {
    pub bytes: [u8; 12],
}

/// A chat message record. Timestamps are milliseconds since the Unix epoch.
#[derive(Clone, Debug, PartialEq, Eq)]
pub struct Message {
    pub id: Option<MessageId>,
    pub content: String,
    pub delivered: bool,
    pub recipient_id: UserId,
    pub sender_id: UserId,
    pub timestamp: i64,
    pub last_updated: i64,
}

/// The record built for a new message, before the store assigns it an id.
pub open spec fn fresh_record(
    content: String,
    sender_id: UserId,
    recipient_id: UserId,
    delivered: bool,
    now: i64,
) -> Message {
    Message {
        id: None,
        content,
        delivered,
        recipient_id,
        sender_id,
        timestamp: now,
        last_updated: now,
    }
}

/// A record as the store holds it once inserted under `id`.
pub open spec fn with_id(m: Message, id: MessageId) -> Message {
    Message { id: Some(id), ..m }
}

impl Message {
    /// Builds a record that has not been stored yet.
    pub fn new(
        content: String,
        sender_id: UserId,
        recipient_id: UserId,
        delivered: bool,
        now: i64,
    ) -> (m: Message)
        ensures
            m == fresh_record(content, sender_id, recipient_id, delivered, now),
    {
        Message {
            id: None,
            content,
            delivered,
            recipient_id,
            sender_id,
            timestamp: now,
            last_updated: now,
        }
    }
}

} // verus!
