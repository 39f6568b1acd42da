//! The connection registry: the single owner of the map from each online
//! user to that user's outbound channel.

use std::collections::HashMap;
use vstd::prelude::*;

use crate::message::UserId;

verus! {

broadcast use vstd::std_specs::hash::group_hash_axioms;

/// Registry of live connections. `C` is the outbound channel type of a
/// session; at most one entry exists per user and the last connect wins.
pub struct ChatServer<C> {
    connections: HashMap<UserId, C>,
}

impl<C> View for ChatServer<C> {
    type V = Map<UserId, C>;

    closed spec fn view(&self) -> Map<UserId, C> {
        self.connections@
    }
}

impl<C> ChatServer<C> {
    /// A registry with nobody connected.
    pub fn new() -> (r: Self)
        ensures
            r@ == Map::<UserId, C>::empty(),
    {
        ChatServer { connections: HashMap::new() }
    }

    /// Registers `channel` as the way to reach `user_id`, replacing any
    /// earlier entry for that user.
    pub fn connect(&mut self, user_id: UserId, channel: C)
        ensures
            final(self)@ == old(self)@.insert(user_id, channel),
    {
        self.connections.insert(user_id, channel);
    }

    /// Removes the entry of `user_id`; does nothing if there is none.
    pub fn disconnect(&mut self, user_id: UserId)
        ensures
            final(self)@ == old(self)@.remove(user_id),
    {
        self.connections.remove(&user_id);
    }

    /// Whether `user_id` currently has an entry.
    pub fn is_online(&self, user_id: UserId) -> (r: bool)
        ensures
            r == self@.contains_key(user_id),
    {
        self.connections.contains_key(&user_id)
    }

    /// The channel registered for `user_id`, if any.
    pub fn channel_of(&self, user_id: UserId) -> (r: Option<&C>)
        ensures
            match r {
                Some(c) => self@.contains_key(user_id) && *c == self@[user_id],
                None => !self@.contains_key(user_id),
            },
    {
        self.connections.get(&user_id)
    }
}

/// Disconnecting a user that has no entry leaves the registry unchanged.
pub proof fn lemma_disconnect_absent<C>(registry: Map<UserId, C>, user_id: UserId)
    requires
        !registry.contains_key(user_id),
    ensures
        registry.remove(user_id) == registry,
{
    assert(registry.remove(user_id) =~= registry);
}

} // verus!
