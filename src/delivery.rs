//! The delivery coordinator: what sending a message and connecting do to the
//! message store and to live channels. Persistence is the commit point; a push
//! to a live channel is a best-effort step after it.

use vstd::prelude::*;

use crate::backlog::{is_pending_for, lemma_landed_push_delivers, pending_for, replay_effect};
use crate::message::{fresh_record, with_id, Message, MessageId, UserId};
use crate::registry::ChatServer;

verus! {

/// Why the message store refused an operation.
#[derive(Clone, Debug, PartialEq, Eq)]
pub struct StoreError {
    pub reason: String,
}

/// The outcome of a send, reported back to the sender.
#[derive(Clone, Debug, PartialEq, Eq)]
pub enum SendOutcome {
    /// The message was stored (and pushed if the recipient was online).
    Sent,
    /// The store refused the message; nothing was pushed.
    StoreFailed(String),
}

/// What to do once the store has answered an insert: the channel to push the
/// stored message to, if any, and the outcome to report.
pub struct SendDecision<'a, C> {
    pub push: Option<(&'a C, Message)>,
    pub outcome: SendOutcome,
}

/// The outcome reported for an insert result.
pub open spec fn outcome_of(stored: Result<MessageId, StoreError>) -> SendOutcome {
    match stored {
        Ok(_) => SendOutcome::Sent,
        Err(e) => SendOutcome::StoreFailed(e.reason),
    }
}

/// The channel a message goes to once its insert has been answered: the
/// recipient's, when the record was stored, is marked delivered, and the
/// recipient is registered.
pub open spec fn route_of<C>(
    registry: Map<UserId, C>,
    record: Message,
    stored: Result<MessageId, StoreError>,
) -> Option<C> {
    if stored is Ok && record.delivered && registry.contains_key(record.recipient_id) {
        Some(registry[record.recipient_id])
    } else {
        None
    }
}

impl SendOutcome {
    /// Whether the send succeeded.
    pub fn is_sent(&self) -> (r: bool)
        ensures
            r == (*self is Sent),
    {
        match self {
            SendOutcome::Sent => true,
            SendOutcome::StoreFailed(_) => false,
        }
    }

    /// The human-readable text of the outcome.
    pub fn reply_text(&self) -> (r: String)
        ensures
            r@ == match *self {
                SendOutcome::Sent => "Message sent successfully"@,
                SendOutcome::StoreFailed(reason) => "Failed to send message: "@ + reason@,
            },
    {
        match self {
            SendOutcome::Sent => String::from_str("Message sent successfully"),
            SendOutcome::StoreFailed(reason) => {
                let mut text = String::from_str("Failed to send message: ");
                text.append(reason.as_str());
                text
            },
        }
    }
}

impl<C> ChatServer<C> {
    /// The record to persist for a new message: it is marked delivered exactly
    /// when the recipient is registered at this moment.
    pub fn compose_message(
        &self,
        content: String,
        sender_id: UserId,
        recipient_id: UserId,
        now: i64,
    ) -> (m: Message)
        ensures
            m == fresh_record(content, sender_id, recipient_id, self@.contains_key(recipient_id), now),
    {
        let online = self.is_online(recipient_id);
        Message::new(content, sender_id, recipient_id, online, now)
    }

    /// Routes `record` once the store has answered its insert. A stored record
    /// that was marked delivered goes to the recipient's channel, carrying the
    /// id the store assigned; a refused record goes nowhere.
    pub fn settle_send(&self, record: Message, stored: Result<MessageId, StoreError>) -> (r:
        SendDecision<'_, C>)
        ensures
            r.outcome == outcome_of(stored),
            match r.push {
                Some((c, m)) => {
                    &&& route_of(self@, record, stored) == Some(*c)
                    &&& m == with_id(record, stored->Ok_0)
                },
                None => route_of(self@, record, stored) is None,
            },
    {
        match stored {
            Ok(id) => {
                let push = if record.delivered {
                    match self.channel_of(record.recipient_id) {
                        Some(c) => Some((c, Message { id: Some(id), ..record })),
                        None => None,
                    }
                } else {
                    None
                };
                SendDecision { push, outcome: SendOutcome::Sent }
            },
            Err(e) => SendDecision { push: None, outcome: SendOutcome::StoreFailed(e.reason) },
        }
    }
}

/// A message sent while its recipient has no registry entry is stored
/// undelivered, is in the recipient's backlog when the recipient connects,
/// and is delivered once the replay's push of it lands.
pub proof fn lemma_offline_then_online<C>(
    registry: Map<UserId, C>,
    content: String,
    sender_id: UserId,
    recipient_id: UserId,
    sent_at: i64,
    id: MessageId,
    store: Seq<Message>,
    plan: Seq<Message>,
    pushed: Seq<bool>,
    replayed_at: i64,
)
    requires
        !registry.contains_key(recipient_id),
        plan.to_multiset() == pending_for(
            store.push(
                with_id(
                    fresh_record(
                        content,
                        sender_id,
                        recipient_id,
                        registry.contains_key(recipient_id),
                        sent_at,
                    ),
                    id,
                ),
            ),
            recipient_id,
        ).to_multiset(),
        pushed.len() == plan.len(),
        forall|j: int|
            0 <= j < plan.len() && plan[j] == with_id(
                fresh_record(content, sender_id, recipient_id, false, sent_at),
                id,
            ) ==> pushed[j],
    ensures
        !fresh_record(
            content,
            sender_id,
            recipient_id,
            registry.contains_key(recipient_id),
            sent_at,
        ).delivered,
        plan.contains(with_id(fresh_record(content, sender_id, recipient_id, false, sent_at), id)),
        replay_effect(
            store.push(with_id(fresh_record(content, sender_id, recipient_id, false, sent_at), id)),
            plan,
            pushed,
            replayed_at,
        )[store.len() as int].delivered,
{
    broadcast use vstd::seq_lib::group_to_multiset_ensures, vstd::seq_lib::group_filter_ensures;

    let m = with_id(fresh_record(content, sender_id, recipient_id, false, sent_at), id);
    let s1 = store.push(m);
    assert(s1[store.len() as int] == m);
    assert(pending_for(s1, recipient_id).contains(m));
    assert(pending_for(s1, recipient_id).to_multiset().count(m) > 0);
    assert(plan.to_multiset().count(m) > 0);
    let j = choose|j: int| 0 <= j < plan.len() && plan[j] == m;
    lemma_landed_push_delivers(s1, plan, pushed, replayed_at, store.len() as int, j);
}

/// A message sent while its recipient is registered is stored already marked
/// delivered and routed to the recipient's channel at once; it never enters the
/// backlog, so no later update touches it.
pub proof fn lemma_online_immediate<C>(
    registry: Map<UserId, C>,
    content: String,
    sender_id: UserId,
    recipient_id: UserId,
    now: i64,
    id: MessageId,
)
    requires
        registry.contains_key(recipient_id),
    ensures
        fresh_record(content, sender_id, recipient_id, registry.contains_key(recipient_id), now).delivered,
        route_of(
            registry,
            fresh_record(content, sender_id, recipient_id, registry.contains_key(recipient_id), now),
            Ok(id),
        ) == Some(registry[recipient_id]),
        !is_pending_for(
            with_id(
                fresh_record(content, sender_id, recipient_id, registry.contains_key(recipient_id), now),
                id,
            ),
            recipient_id,
        ),
{
}

/// Connecting a user twice keeps only the second channel, and a message to
/// that user settled afterwards is routed to the second channel.
pub proof fn lemma_last_connect_wins<C>(
    registry: Map<UserId, C>,
    user_id: UserId,
    first: C,
    second: C,
    record: Message,
    stored: Result<MessageId, StoreError>,
)
    requires
        record.recipient_id == user_id,
        record.delivered,
        stored is Ok,
    ensures
        registry.insert(user_id, first).insert(user_id, second) == registry.insert(user_id, second),
        route_of(registry.insert(user_id, first).insert(user_id, second), record, stored) == Some(
            second,
        ),
{
    assert(registry.insert(user_id, first).insert(user_id, second) =~= registry.insert(
        user_id,
        second,
    ));
}

} // verus!
