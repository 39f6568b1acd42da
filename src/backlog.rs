//! Backlog replay: on connect, the records still pending for the user are
//! pushed to the new channel in creation order, and each one that lands is
//! marked delivered. A record whose push fails stays pending and is offered
//! again on the next connect (at-least-once delivery).

use vstd::prelude::*;

use crate::message::{Message, MessageId, UserId};

verus! {

broadcast use vstd::seq_lib::group_to_multiset_ensures, vstd::seq_lib::group_filter_ensures;

/// The store update that marks record `id` delivered at time `at`.
#[derive(Clone, Copy, Debug, PartialEq, Eq)]
pub struct DeliveredUpdate {
    pub id: MessageId,
    pub at: i64,
}

/// `m` is addressed to `user` and has not been delivered.
pub open spec fn is_pending_for(m: Message, user: UserId) -> bool {
    m.recipient_id == user && !m.delivered
}

/// What the store returns when asked for the backlog of `user`.
pub open spec fn pending_for(store: Seq<Message>, user: UserId) -> Seq<Message> {
    store.filter(|m: Message| is_pending_for(m, user))
}

/// Records in non-decreasing creation time.
pub open spec fn sorted_by_time(s: Seq<Message>) -> bool {
    forall|i: int, j: int| 0 <= i < j < s.len() ==> s[i].timestamp <= s[j].timestamp
}

/// The update owed after a push of `record`: one exactly when the push landed
/// and the record has a store id.
pub open spec fn update_after_push(record: Message, pushed: bool, now: i64) -> Option<
    DeliveredUpdate,
> {
    if pushed && record.id is Some {
        Some(DeliveredUpdate { id: record.id->Some_0, at: now })
    } else {
        None
    }
}

/// The store after it applies `u`.
pub open spec fn apply_update(store: Seq<Message>, u: DeliveredUpdate) -> Seq<Message> {
    store.map_values(
        |m: Message|
            if m.id == Some(u.id) {
                Message { delivered: true, last_updated: u.at, ..m }
            } else {
                m
            },
    )
}

/// The store after a replay of `plan`, where `pushed[j]` tells whether the
/// push of `plan[j]` landed.
pub open spec fn replay_effect(
    store: Seq<Message>,
    plan: Seq<Message>,
    pushed: Seq<bool>,
    now: i64,
) -> Seq<Message>
    decreases plan.len(),
{
    if plan.len() == 0 {
        store
    } else {
        let before = replay_effect(store, plan.drop_last(), pushed, now);
        match update_after_push(plan.last(), pushed[plan.len() - 1], now) {
            Some(u) => apply_update(before, u),
            None => before,
        }
    }
}

/// Orders the backlog for replay by creation time. Records with equal
/// creation times keep the order in which the store returned them.
pub fn replay_order(records: Vec<Message>) -> (r: Vec<Message>)
    ensures
        r@.to_multiset() == records@.to_multiset(),
        sorted_by_time(r@),
{
    let ghost all = records@;
    let mut rest = records;
    let mut out: Vec<Message> = Vec::new();
    while rest.len() > 0
        invariant
            sorted_by_time(out@),
            out@.to_multiset().add(rest@.to_multiset()) == all.to_multiset(),
        decreases rest.len(),
    {
        let ghost before = rest@;
        let x = rest.pop().unwrap();
        assert(before == rest@.push(x));
        let mut p: usize = 0;
        while p < out.len() && out[p].timestamp < x.timestamp
            invariant
                p <= out.len(),
                forall|k: int| 0 <= k < p ==> out@[k].timestamp < x.timestamp,
            decreases out.len() - p,
        {
            p = p + 1;
        }
        let ghost prev = out@;
        out.insert(p, x);
        assert(out@ == prev.insert(p as int, x));
        assert(out@.to_multiset().add(rest@.to_multiset()) =~= all.to_multiset());
    }
    assert(rest@ =~= Seq::<Message>::empty());
    assert(out@.to_multiset() =~= all.to_multiset());
    out
}

/// The store update to issue after pushing `record` during replay: none when
/// the push failed, so that the record stays pending.
pub fn update_after_delivery(record: &Message, pushed: bool, now: i64) -> (r: Option<
    DeliveredUpdate,
>)
    ensures
        r == update_after_push(*record, pushed, now),
{
    if pushed {
        match record.id {
            Some(id) => Some(DeliveredUpdate { id, at: now }),
            None => None,
        }
    } else {
        None
    }
}

/// A replay leaves the number of records in the store unchanged.
pub proof fn lemma_replay_keeps_len(store: Seq<Message>, plan: Seq<Message>, pushed: Seq<bool>, now: i64)
    ensures
        replay_effect(store, plan, pushed, now).len() == store.len(),
    decreases plan.len(),
{
    if plan.len() > 0 {
        lemma_replay_keeps_len(store, plan.drop_last(), pushed, now);
    }
}

proof fn lemma_replay_keeps_ids(store: Seq<Message>, plan: Seq<Message>, pushed: Seq<bool>, now: i64)
    ensures
        replay_effect(store, plan, pushed, now).len() == store.len(),
        forall|i: int|
            0 <= i < store.len() ==> (#[trigger] replay_effect(store, plan, pushed, now)[i]).id
                == store[i].id,
    decreases plan.len(),
{
    lemma_replay_keeps_len(store, plan, pushed, now);
    if plan.len() > 0 {
        lemma_replay_keeps_ids(store, plan.drop_last(), pushed, now);
    }
}

/// A record every push of which failed during a replay is left as it was:
/// still undelivered, it is part of the user's backlog on the next connect.
pub proof fn lemma_failed_push_stays_pending(
    store: Seq<Message>,
    user: UserId,
    plan: Seq<Message>,
    pushed: Seq<bool>,
    now: i64,
    k: int,
    next_plan: Seq<Message>,
)
    requires
        0 <= k < store.len(),
        is_pending_for(store[k], user),
        pushed.len() == plan.len(),
        forall|j: int|
            0 <= j < plan.len() && plan[j].id is Some && plan[j].id == store[k].id ==> !pushed[j],
        next_plan.to_multiset() == pending_for(replay_effect(store, plan, pushed, now), user).to_multiset(),
    ensures
        replay_effect(store, plan, pushed, now)[k] == store[k],
        next_plan.contains(store[k]),
{
    lemma_failed_push_untouched(store, plan, pushed, now, k);
    lemma_replay_keeps_len(store, plan, pushed, now);
    let after = replay_effect(store, plan, pushed, now);
    assert(pending_for(after, user).contains(after[k]));
    assert(pending_for(after, user).to_multiset().count(store[k]) > 0);
    assert(next_plan.to_multiset().count(store[k]) > 0);
}

proof fn lemma_failed_push_untouched(
    store: Seq<Message>,
    plan: Seq<Message>,
    pushed: Seq<bool>,
    now: i64,
    k: int,
)
    requires
        0 <= k < store.len(),
        plan.len() <= pushed.len(),
        forall|j: int|
            0 <= j < plan.len() && plan[j].id is Some && plan[j].id == store[k].id ==> !pushed[j],
    ensures
        replay_effect(store, plan, pushed, now)[k] == store[k],
    decreases plan.len(),
{
    if plan.len() > 0 {
        let shorter = plan.drop_last();
        assert forall|j: int|
            0 <= j < shorter.len() && shorter[j].id is Some && shorter[j].id == store[k].id implies !pushed[j] by {
            assert(shorter[j] == plan[j]);
        }
        lemma_failed_push_untouched(store, shorter, pushed, now, k);
        lemma_replay_keeps_len(store, shorter, pushed, now);
    }
}

/// A record whose push landed during a replay is delivered afterwards.
pub proof fn lemma_landed_push_delivers(
    store: Seq<Message>,
    plan: Seq<Message>,
    pushed: Seq<bool>,
    now: i64,
    k: int,
    j: int,
)
    requires
        0 <= k < store.len(),
        0 <= j < plan.len(),
        pushed.len() == plan.len(),
        pushed[j],
        plan[j].id is Some,
        plan[j].id == store[k].id,
    ensures
        replay_effect(store, plan, pushed, now)[k].delivered,
{
    lemma_landed_push_marks(store, plan, pushed, now, k, j);
}

proof fn lemma_landed_push_marks(
    store: Seq<Message>,
    plan: Seq<Message>,
    pushed: Seq<bool>,
    now: i64,
    k: int,
    j: int,
)
    requires
        0 <= k < store.len(),
        0 <= j < plan.len(),
        plan.len() <= pushed.len(),
        pushed[j],
        plan[j].id is Some,
        plan[j].id == store[k].id,
    ensures
        replay_effect(store, plan, pushed, now)[k].delivered,
    decreases plan.len(),
{
    lemma_replay_keeps_ids(store, plan.drop_last(), pushed, now);
    if j < plan.len() - 1 {
        assert(plan.drop_last()[j] == plan[j]);
        lemma_landed_push_marks(store, plan.drop_last(), pushed, now, k, j);
    }
}

} // verus!
