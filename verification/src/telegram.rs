use vstd::prelude::*;
use std::collections::HashSet;
use vstd::std_specs::iter::IteratorSpec;
use crate::config::TelegramConfig;

verus! {

broadcast use vstd::std_specs::hash::group_hash_axioms;

/// Reply to a subscription request when the bot is full.
pub open spec fn limit_reached_text() -> Seq<char> {
    "Maximum number of subscribers reached. Please try again later."@
}

/// Reply to a subscription request from a subscriber.
pub open spec fn already_subscribed_text() -> Seq<char> {
    "You are already subscribed!"@
}

/// Reply to an accepted subscription request.
pub open spec fn subscribed_text() -> Seq<char> {
    "Successfully subscribed to copy trading!"@
}

/// Reply to an unsubscription request from a user who is not subscribed.
pub open spec fn not_subscribed_text() -> Seq<char> {
    "You are not subscribed!"@
}

/// Reply to an accepted unsubscription request.
pub open spec fn unsubscribed_text() -> Seq<char> {
    "Successfully unsubscribed from copy trading!"@
}

/// What `/subscribe` from `user` does to a set of subscribers that may hold
/// at most `max`: the new set and the reply. A full set refuses first, then
/// a subscriber is told so, and anyone else is added.
pub open spec fn subscribe_outcome(subs: Set<i64>, max: nat, user: i64) -> (Set<i64>, Seq<char>) {
    if subs.len() >= max {
        (subs, limit_reached_text())
    } else if subs.contains(user) {
        (subs, already_subscribed_text())
    } else {
        (subs.insert(user), subscribed_text())
    }
}

/// What `/unsubscribe` from `user` does to a set of subscribers: the new set
/// and the reply.
pub open spec fn unsubscribe_outcome(subs: Set<i64>, user: i64) -> (Set<i64>, Seq<char>) {
    if subs.contains(user) {
        (subs.remove(user), unsubscribed_text())
    } else {
        (subs, not_subscribed_text())
    }
}

/// The subscribers of the bot's notifications, at most
/// `max_subscribers` of them.
pub struct TelegramService {
    config: TelegramConfig,
    subscribers: HashSet<i64>,
}

impl TelegramService {
    /// The chats that receive notifications.
    pub closed spec fn subscribers(&self) -> Set<i64> {
        self.subscribers@
    }

    /// The most subscribers the service accepts.
    pub closed spec fn max_subscribers(&self) -> nat {
        self.config.max_subscribers as nat
    }

    /// The pause between two notifications, in milliseconds.
    pub closed spec fn pause(&self) -> u64 {
        self.config.message_timeout
    }

    /// The service's invariant: finitely many subscribers, never more than
    /// `max_subscribers`.
    #[verifier::type_invariant]
    closed spec fn inv(self) -> bool {
        &&& self.subscribers@.finite()
        &&& self.subscribers@.len() <= self.config.max_subscribers
    }

    /// A service with the given settings and no subscriber.
    pub fn new(config: TelegramConfig) -> (s: TelegramService)
        ensures
            s.subscribers() == Set::<i64>::empty(),
            s.max_subscribers() == config.max_subscribers,
            s.pause() == config.message_timeout,
    {
        TelegramService { config, subscribers: HashSet::new() }
    }

    /// The pause between two notifications, in milliseconds.
    pub fn message_timeout(&self) -> (ms: u64)
        ensures
            ms == self.pause(),
    {
        self.config.message_timeout
    }

    /// Whether the chat is subscribed.
    pub fn is_subscribed(&self, user_id: i64) -> (b: bool)
        ensures
            b == self.subscribers().contains(user_id),
    {
        self.subscribers.contains(&user_id)
    }

    /// The number of subscribers, never more than `max_subscribers`.
    pub fn subscriber_count(&self) -> (n: usize)
        ensures
            n == self.subscribers().len(),
            self.subscribers().finite(),
            n <= self.max_subscribers(),
    {
        proof {
            use_type_invariant(self);
        }
        self.subscribers.len()
    }

    /// Handles `/subscribe` from a chat. A full service refuses (even a
    /// chat that is already subscribed); a subscriber is told so; anyone else
    /// is added. Returns the reply for the chat.
    pub fn handle_subscribe(&mut self, user_id: i64) -> (reply: String)
        ensures
            final(self).max_subscribers() == old(self).max_subscribers(),
            final(self).pause() == old(self).pause(),
            final(self).subscribers().len() <= final(self).max_subscribers(),
            (final(self).subscribers(), reply@) == subscribe_outcome(
                old(self).subscribers(),
                old(self).max_subscribers(),
                user_id,
            ),
    {
        proof {
            use_type_invariant(&*self);
        }
        if self.subscribers.len() >= self.config.max_subscribers {
            return "Maximum number of subscribers reached. Please try again later.".to_owned();
        }
        if self.subscribers.contains(&user_id) {
            return "You are already subscribed!".to_owned();
        }
        let mut subscribers = HashSet::new();
        std::mem::swap(&mut subscribers, &mut self.subscribers);
        subscribers.insert(user_id);
        self.subscribers = subscribers;
        "Successfully subscribed to copy trading!".to_owned()
    }

    /// Handles `/unsubscribe` from a chat: a subscriber is removed, anyone
    /// else is told they are not subscribed. Returns the reply for the chat.
    pub fn handle_unsubscribe(&mut self, user_id: i64) -> (reply: String)
        ensures
            final(self).max_subscribers() == old(self).max_subscribers(),
            final(self).pause() == old(self).pause(),
            final(self).subscribers().len() <= final(self).max_subscribers(),
            (final(self).subscribers(), reply@) == unsubscribe_outcome(
                old(self).subscribers(),
                user_id,
            ),
    {
        proof {
            use_type_invariant(&*self);
        }
        if !self.subscribers.contains(&user_id) {
            return "You are not subscribed!".to_owned();
        }
        let mut subscribers = HashSet::new();
        std::mem::swap(&mut subscribers, &mut self.subscribers);
        subscribers.remove(&user_id);
        self.subscribers = subscribers;
        "Successfully unsubscribed from copy trading!".to_owned()
    }

    /// The chats a notification goes to: every subscriber once, in the
    /// order the set yields them. The caller sends the message to each and
    /// pauses `message_timeout` milliseconds after each.
    pub fn notify_subscribers(&self) -> (recipients: Vec<i64>)
        ensures
            recipients@.to_set() == self.subscribers(),
            recipients@.no_duplicates(),
            recipients@.len() == self.subscribers().len(),
    {
        proof {
            use_type_invariant(self);
        }
        let mut recipients: Vec<i64> = Vec::new();
        let ghost keys = vstd::std_specs::hash::spec_hash_keys_iter(&self.subscribers).remaining();
        for id in it: self.subscribers.iter()
            invariant
                it.seq() == keys,
                recipients@.len() == it.index(),
                forall|i: int| 0 <= i < it.index() ==> recipients@[i] == *keys[i],
        {
            recipients.push(*id);
        }
        proof {
            assert(recipients@ =~= keys.map_values(|k: &i64| *k));
            assert(keys.unref() =~= keys.map_values(|k: &i64| *k));
        }
        recipients
    }
}

/// `/subscribe` keeps a finite set of subscribers within its bound.
pub proof fn lemma_subscribe_keeps_bound(subs: Set<i64>, max: nat, user: i64)
    requires
        subs.finite(),
        subs.len() <= max,
    ensures
        subscribe_outcome(subs, max, user).0.finite(),
        subscribe_outcome(subs, max, user).0.len() <= max,
{
}

/// A user who is not subscribed, when there is room, subscribes and then
/// unsubscribes: the subscribers are as before, and both replies confirm.
pub proof fn lemma_subscribe_then_unsubscribe(subs: Set<i64>, max: nat, user: i64)
    requires
        subs.finite(),
        subs.len() < max,
        !subs.contains(user),
    ensures
        subscribe_outcome(subs, max, user).1 == subscribed_text(),
        unsubscribe_outcome(subscribe_outcome(subs, max, user).0, user) == (
        subs,
        unsubscribed_text(),
        ),
{
    assert(subs.insert(user).remove(user) =~= subs);
}

/// Subscribing twice subscribes once: the second request leaves the
/// subscribers unchanged and is not answered with a confirmation.
pub proof fn lemma_subscribe_idempotent(subs: Set<i64>, max: nat, user: i64)
    requires
        subs.finite(),
    ensures
        subscribe_outcome(subscribe_outcome(subs, max, user).0, max, user).0 == subscribe_outcome(
            subs,
            max,
            user,
        ).0,
        subscribe_outcome(subscribe_outcome(subs, max, user).0, max, user).1 != subscribed_text(),
{
    reveal_strlit("Successfully subscribed to copy trading!");
    reveal_strlit("You are already subscribed!");
    reveal_strlit("Maximum number of subscribers reached. Please try again later.");
    assert(subscribed_text().len() != already_subscribed_text().len());
    assert(subscribed_text().len() != limit_reached_text().len());
}

/// After `/unsubscribe` the user is not subscribed, and no one else was
/// removed.
pub proof fn lemma_unsubscribe_removes_only_user(subs: Set<i64>, user: i64)
    ensures
        !unsubscribe_outcome(subs, user).0.contains(user),
        unsubscribe_outcome(subs, user).0 == subs.remove(user),
{
    assert(!subs.contains(user) ==> subs.remove(user) =~= subs);
}

} // verus!
