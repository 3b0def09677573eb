//! Notification hub: the registry of the live notification channels of each
//! owner, and the fan-out of a message to all channels of one owner.
//!
//! A channel is known to the hub by a number that the caller gives it; the
//! caller keeps the channel itself and does the sending.

use vstd::prelude::*;
use vstd::string::*;
use crate::text::{
    first_index_of, lemma_first_index_of, lemma_first_index_of_bounds, lemma_push_contains, str_eq,
};

verus! {

/// A notification to the channels of an owner.
#[derive(Debug, Clone, PartialEq, Eq)]
pub struct WebSocketMsg {
    pub user_id: String,
    pub repo_name: String,
    pub message: String,
}

impl WebSocketMsg {
    /// A copy of this message.
    pub fn duplicate(&self) -> (copy: WebSocketMsg)
        ensures
            copy == *self,
    {
        WebSocketMsg {
            user_id: self.user_id.clone(),
            repo_name: self.repo_name.clone(),
            message: self.message.clone(),
        }
    }
}

/// One message to send on one channel.
#[derive(Debug, Clone, PartialEq, Eq)]
pub struct Delivery {
    pub channel: u64,
    pub message: WebSocketMsg,
}

/// The channels of one owner, in the order of their registration.
#[derive(Debug, Clone, PartialEq, Eq)]
struct Subscription {
    owner: String,
    channels: Vec<u64>,
}

/// The registry of notification channels.
#[derive(Debug, PartialEq, Eq)]
pub struct WebSocketManager {
    connections: Vec<Subscription>,
}

/// `channels` without every occurrence of `channel`, the rest in order.
pub open spec fn without(channels: Seq<u64>, channel: u64) -> Seq<u64>
    decreases channels.len(),
{
    if channels.len() == 0 {
        channels
    } else if channels.last() == channel {
        without(channels.drop_last(), channel)
    } else {
        without(channels.drop_last(), channel).push(channels.last())
    }
}

/// `without` drops the channel and keeps every other one.
pub proof fn lemma_without(channels: Seq<u64>, channel: u64)
    ensures
        !without(channels, channel).contains(channel),
        forall|other: u64|
            other != channel ==> (without(channels, channel).contains(other) <==> channels.contains(
                other,
            )),
        without(channels, channel).len() <= channels.len(),
        !channels.contains(channel) ==> without(channels, channel) == channels,
    decreases channels.len(),
{
    if channels.len() == 0 {
    } else {
        let init = channels.drop_last();
        let last = channels.last();
        lemma_without(init, channel);
        let kept = without(init, channel);
        assert(channels =~= init.push(last));
        lemma_push_contains(init, last, channel);
        lemma_push_contains(kept, last, channel);
        assert forall|other: u64| other != channel implies (without(channels, channel).contains(
            other,
        ) <==> channels.contains(other)) by {
            lemma_push_contains(init, last, other);
            lemma_push_contains(kept, last, other);
        }
    }
}

/// The owners of the subscriptions, in order.
spec fn owners(connections: Seq<Subscription>) -> Seq<Seq<char>> {
    Seq::new(connections.len(), |i: int| connections[i].owner@)
}

/// The channels of the first subscription of `owner`; none where there is none.
spec fn lookup(connections: Seq<Subscription>, owner: Seq<char>) -> Seq<u64> {
    let at = first_index_of(owners(connections), owner);
    if 0 <= at < connections.len() {
        connections[at].channels@
    } else {
        Seq::empty()
    }
}

/// Whether no owner has two subscriptions and no subscription is without a channel.
spec fn tidy(connections: Seq<Subscription>) -> bool {
    &&& owners(connections).no_duplicates()
    &&& forall|i: int|
        0 <= i < connections.len() ==> (#[trigger] connections[i]).channels.len() > 0
}

/// Replacing the channels of one subscription changes the channels of its
/// owner and of nobody else.
proof fn lemma_lookup_replace(
    before: Seq<Subscription>,
    after: Seq<Subscription>,
    at: int,
    owner: Seq<char>,
)
    requires
        tidy(before),
        0 <= at < before.len(),
        after.len() == before.len(),
        forall|k: int| 0 <= k < before.len() && k != at ==> after[k] == before[k],
        after[at].owner@ == before[at].owner@,
        after[at].channels.len() > 0,
    ensures
        tidy(after),
        lookup(after, before[at].owner@) == after[at].channels@,
        owner != before[at].owner@ ==> lookup(after, owner) == lookup(before, owner),
{
    assert(owners(after) =~= owners(before));
    let names = owners(before);
    assert(names[at] == before[at].owner@);
    assert forall|k: int| 0 <= k < at implies names[k] != names[at] by {}
    lemma_first_index_of(names, names[at], at);
    lemma_first_index_of_bounds(names, owner);
    assert forall|i: int| 0 <= i < after.len() implies (#[trigger] after[i]).channels.len()
        > 0 by {
        if i != at {
            assert(after[i] == before[i]);
        }
    }
    if owner != before[at].owner@ {
        let found = first_index_of(names, owner);
        if found < names.len() {
            assert(names[found] == owner);
            assert(found != at);
        }
    }
}

/// A new subscription behind the others gives its owner its channels and
/// changes the channels of nobody else.
proof fn lemma_lookup_push(before: Seq<Subscription>, added: Subscription, owner: Seq<char>)
    requires
        tidy(before),
        lookup(before, added.owner@).len() == 0,
        added.channels.len() > 0,
    ensures
        tidy(before.push(added)),
        lookup(before.push(added), added.owner@) == added.channels@,
        owner != added.owner@ ==> lookup(before.push(added), owner) == lookup(before, owner),
{
    let after = before.push(added);
    let names = owners(before);
    let names_after = owners(after);
    assert(names_after =~= names.push(added.owner@));
    lemma_first_index_of_bounds(names, added.owner@);
    let at = first_index_of(names, added.owner@);
    if at < names.len() {
        assert(before[at].channels.len() > 0);
    }
    assert(at == names.len());
    lemma_first_index_of(names_after, added.owner@, names.len() as int);
    assert forall|i: int, j: int|
        0 <= i < names_after.len() && 0 <= j < names_after.len() && i != j implies names_after[i]
        != names_after[j] by {
        if i < names.len() && j < names.len() {
            assert(names[i] != names[j]);
        }
    }
    assert forall|i: int| 0 <= i < after.len() implies (#[trigger] after[i]).channels.len()
        > 0 by {
        if i < before.len() {
            assert(after[i] == before[i]);
        }
    }
    if owner != added.owner@ {
        lemma_first_index_of_bounds(names, owner);
        let found = first_index_of(names, owner);
        if found < names.len() {
            lemma_first_index_of(names_after, owner, found);
            assert(after[found] == before[found]);
        } else {
            lemma_first_index_of(names_after, owner, names_after.len() as int);
        }
    }
}

/// Removing a subscription leaves its owner without channels and changes the
/// channels of nobody else.
proof fn lemma_lookup_remove(before: Seq<Subscription>, at: int, owner: Seq<char>)
    requires
        tidy(before),
        0 <= at < before.len(),
    ensures
        tidy(before.remove(at)),
        lookup(before.remove(at), before[at].owner@).len() == 0,
        owner != before[at].owner@ ==> lookup(before.remove(at), owner) == lookup(before, owner),
{
    let after = before.remove(at);
    let names = owners(before);
    let names_after = owners(after);
    let gone = before[at].owner@;
    assert(names[at] == gone);
    assert(names_after =~= names.remove(at));
    assert forall|k: int| 0 <= k < names_after.len() implies names_after[k] != gone by {
        if k < at {
            assert(names[k] != names[at]);
        } else {
            assert(names[k + 1] != names[at]);
        }
    }
    lemma_first_index_of(names_after, gone, names_after.len() as int);
    assert forall|i: int, j: int|
        0 <= i < names_after.len() && 0 <= j < names_after.len() && i != j implies names_after[i]
        != names_after[j] by {
        let pi = if i < at {
            i
        } else {
            i + 1
        };
        let pj = if j < at {
            j
        } else {
            j + 1
        };
        assert(names[pi] != names[pj]);
    }
    assert forall|i: int| 0 <= i < after.len() implies (#[trigger] after[i]).channels.len()
        > 0 by {
        if i < at {
            assert(after[i] == before[i]);
        } else {
            assert(after[i] == before[i + 1]);
        }
    }
    if owner != gone {
        lemma_first_index_of_bounds(names, owner);
        let found = first_index_of(names, owner);
        if found < names.len() {
            assert(found != at);
            if found < at {
                lemma_first_index_of(names_after, owner, found);
                assert(after[found] == before[found]);
            } else {
                assert forall|k: int| 0 <= k < found - 1 implies names_after[k] != owner by {
                    if k < at {
                        assert(names_after[k] == names[k]);
                    } else {
                        assert(names_after[k] == names[k + 1]);
                    }
                }
                assert(names_after[found - 1] == names[found]);
                lemma_first_index_of(names_after, owner, found - 1);
                assert(after[found - 1] == before[found]);
            }
        } else {
            assert forall|k: int| 0 <= k < names_after.len() implies names_after[k] != owner by {
                if k < at {
                    assert(names_after[k] == names[k]);
                } else {
                    assert(names_after[k] == names[k + 1]);
                }
            }
            lemma_first_index_of(names_after, owner, names_after.len() as int);
        }
    }
}

impl WebSocketManager {
    /// No owner has two subscriptions, and no subscription is without a
    /// channel.
    #[verifier::type_invariant]
    spec fn well_formed(&self) -> bool {
        tidy(self.connections@)
    }

    /// The channels registered for `owner`, in the order of their
    /// registration; none for an owner that the hub does not know.
    pub closed spec fn channels_of(&self, owner: Seq<char>) -> Seq<u64> {
        lookup(self.connections@, owner)
    }

    /// The number of owners that the hub holds an entry for.
    pub closed spec fn owner_count(&self) -> nat {
        self.connections.len() as nat
    }

    /// A hub without any channel.
    pub fn new() -> (hub: WebSocketManager)
        ensures
            hub.owner_count() == 0,
            forall|owner: Seq<char>| hub.channels_of(owner).len() == 0,
    {
        let hub = WebSocketManager { connections: Vec::new() };
        assert forall|owner: Seq<char>| hub.channels_of(owner).len() == 0 by {
            lemma_first_index_of_bounds(owners(hub.connections@), owner);
        }
        hub
    }

    /// The position of the subscription of `user_id`.
    fn find(connections: &Vec<Subscription>, user_id: &str) -> (r: Option<usize>)
        ensures
            0 <= first_index_of(owners(connections@), user_id@) <= connections.len(),
            r is Some <==> first_index_of(owners(connections@), user_id@) < connections.len(),
            r matches Some(at) ==> at == first_index_of(owners(connections@), user_id@)
                && connections[at as int].owner@ == user_id@,
    {
        let mut i: usize = 0;
        while i < connections.len()
            invariant
                i <= connections.len(),
                forall|k: int| 0 <= k < i ==> owners(connections@)[k] != user_id@,
            decreases connections.len() - i,
        {
            if str_eq(connections[i].owner.as_str(), user_id) {
                proof {
                    lemma_first_index_of(owners(connections@), user_id@, i as int);
                }
                return Some(i);
            }
            i += 1;
        }
        proof {
            lemma_first_index_of(owners(connections@), user_id@, i as int);
        }
        None
    }

    /// Whether the hub holds an entry for `user_id`.
    pub fn is_registered(&self, user_id: &str) -> (r: bool)
        ensures
            r == (self.channels_of(user_id@).len() > 0),
    {
        proof {
            use_type_invariant(self);
        }
        Self::find(&self.connections, user_id).is_some()
    }

    /// The number of owners that the hub holds an entry for.
    pub fn owners_len(&self) -> (n: usize)
        ensures
            n == self.owner_count(),
    {
        self.connections.len()
    }

    /// Adds `channel` behind the channels of `user_id`. The channels of every
    /// other owner stay as they are.
    pub fn register_connection(&mut self, user_id: &str, channel: u64)
        ensures
            final(self).channels_of(user_id@) == old(self).channels_of(user_id@).push(channel),
            forall|owner: Seq<char>|
                owner != user_id@ ==> final(self).channels_of(owner) == old(self).channels_of(
                    owner,
                ),
            final(self).owner_count() == old(self).owner_count() + (if old(self).channels_of(
                user_id@,
            ).len() == 0 {
                1nat
            } else {
                0nat
            }),
    {
        proof {
            use_type_invariant(&*self);
        }
        let ghost before = self.connections@;
        let mut connections: Vec<Subscription> = Vec::new();
        std::mem::swap(&mut self.connections, &mut connections);
        assert(connections@ == before);
        match Self::find(&connections, user_id) {
            Some(at) => {
                let slot = &mut connections[at];
                slot.channels.push(channel);
                proof {
                    assert forall|owner: Seq<char>| owner != user_id@ implies (lookup(
                        connections@,
                        owner,
                    ) == #[trigger] lookup(before, owner)) by {
                        lemma_lookup_replace(before, connections@, at as int, owner);
                    }
                    lemma_lookup_replace(before, connections@, at as int, user_id@);
                }
            },
            None => {
                let mut channels: Vec<u64> = Vec::new();
                channels.push(channel);
                let added = Subscription { owner: String::from_str(user_id), channels };
                proof {
                    assert(added.channels@ =~= Seq::<u64>::empty().push(channel));
                    assert forall|owner: Seq<char>| owner != user_id@ implies (lookup(
                        before.push(added),
                        owner,
                    ) == #[trigger] lookup(before, owner)) by {
                        lemma_lookup_push(before, added, owner);
                    }
                    lemma_lookup_push(before, added, user_id@);
                }
                connections.push(added);
            },
        }
        self.connections = connections;
    }

    /// Removes every registration of `channel` from the channels of
    /// `user_id`, and the owner's entry with the last of its channels. The
    /// channels of every other owner stay as they are.
    pub fn unregister_connection(&mut self, user_id: &str, channel: u64)
        ensures
            final(self).channels_of(user_id@) == without(old(self).channels_of(user_id@), channel),
            forall|owner: Seq<char>|
                owner != user_id@ ==> final(self).channels_of(owner) == old(self).channels_of(
                    owner,
                ),
            final(self).owner_count() == old(self).owner_count() - (if old(self).channels_of(
                user_id@,
            ).len() > 0 && without(old(self).channels_of(user_id@), channel).len() == 0 {
                1nat
            } else {
                0nat
            }),
    {
        proof {
            use_type_invariant(&*self);
        }
        let ghost before = self.connections@;
        let mut connections: Vec<Subscription> = Vec::new();
        std::mem::swap(&mut self.connections, &mut connections);
        assert(connections@ == before);
        match Self::find(&connections, user_id) {
            Some(at) => {
                let ghost held = connections[at as int].channels@;
                let mut kept: Vec<u64> = Vec::new();
                let mut i: usize = 0;
                while i < connections[at].channels.len()
                    invariant
                        at < connections.len(),
                        connections@ == before,
                        held == connections[at as int].channels@,
                        i <= held.len(),
                        kept@ == without(held.subrange(0, i as int), channel),
                    decreases held.len() - i,
                {
                    let c = connections[at].channels[i];
                    proof {
                        assert(held.subrange(0, i + 1).drop_last() =~= held.subrange(0, i as int));
                    }
                    if c != channel {
                        kept.push(c);
                    }
                    i += 1;
                }
                proof {
                    assert(held.subrange(0, held.len() as int) =~= held);
                }
                if kept.len() == 0 {
                    connections.remove(at);
                    proof {
                        assert(connections@ =~= before.remove(at as int));
                        assert(kept@ =~= Seq::<u64>::empty());
                        assert forall|owner: Seq<char>| owner != user_id@ implies (lookup(
                            before.remove(at as int),
                            owner,
                        ) == #[trigger] lookup(before, owner)) by {
                            lemma_lookup_remove(before, at as int, owner);
                        }
                        lemma_lookup_remove(before, at as int, user_id@);
                    }
                } else {
                    let slot = &mut connections[at];
                    slot.channels = kept;
                    proof {
                        assert forall|owner: Seq<char>| owner != user_id@ implies (lookup(
                            connections@,
                            owner,
                        ) == #[trigger] lookup(before, owner)) by {
                            lemma_lookup_replace(before, connections@, at as int, owner);
                        }
                        lemma_lookup_replace(before, connections@, at as int, user_id@);
                    }
                }
            },
            None => {
                proof {
                    assert(lookup(before, user_id@) =~= Seq::<u64>::empty());
                }
            },
        }
        self.connections = connections;
    }

    /// The deliveries that publish `message` to `user_id`: one for each
    /// channel registered for the owner, in the order of registration, each
    /// with the same message. An owner without channels gets none.
    pub fn send_message(&self, user_id: &str, message: &WebSocketMsg) -> (deliveries: Vec<
        Delivery,
    >)
        ensures
            deliveries.len() == self.channels_of(user_id@).len(),
            forall|i: int|
                0 <= i < deliveries.len() ==> (#[trigger] deliveries[i]).channel
                    == self.channels_of(user_id@)[i] && deliveries[i].message == *message,
    {
        let mut deliveries: Vec<Delivery> = Vec::new();
        match Self::find(&self.connections, user_id) {
            Some(at) => {
                let channels = &self.connections[at].channels;
                let mut i: usize = 0;
                while i < channels.len()
                    invariant
                        i <= channels.len(),
                        deliveries.len() == i,
                        forall|k: int|
                            0 <= k < i ==> (#[trigger] deliveries[k]).channel == channels[k]
                                && deliveries[k].message == *message,
                    decreases channels.len() - i,
                {
                    deliveries.push(Delivery { channel: channels[i], message: message.duplicate() });
                    i += 1;
                }
            },
            None => {},
        }
        deliveries
    }

    /// The deliveries that publish the terminal status of a clone to its
    /// owner: the message names the owner, the repository and the status.
    pub fn send_clone_status(&self, user_id: &str, repo_name: &str, status: &str) -> (deliveries:
        Vec<Delivery>)
        ensures
            deliveries.len() == self.channels_of(user_id@).len(),
            forall|i: int|
                0 <= i < deliveries.len() ==> {
                    &&& (#[trigger] deliveries[i]).channel == self.channels_of(user_id@)[i]
                    &&& deliveries[i].message.user_id@ == user_id@
                    &&& deliveries[i].message.repo_name@ == repo_name@
                    &&& deliveries[i].message.message@ == status@
                },
    {
        let message = WebSocketMsg {
            user_id: String::from_str(user_id),
            repo_name: String::from_str(repo_name),
            message: String::from_str(status),
        };
        self.send_message(user_id, &message)
    }
}

/// After two channels were registered for one owner, a message to the owner
/// goes to both, the first registered first; after one of them was
/// unregistered, a message goes to the other alone.
pub proof fn lemma_two_channels(
    start: WebSocketManager,
    one: WebSocketManager,
    two: WebSocketManager,
    left: WebSocketManager,
    owner: Seq<char>,
    a: u64,
    b: u64,
)
    requires
        a != b,
        start.channels_of(owner).len() == 0,
        one.channels_of(owner) == start.channels_of(owner).push(a),
        two.channels_of(owner) == one.channels_of(owner).push(b),
        left.channels_of(owner) == without(two.channels_of(owner), a),
    ensures
        two.channels_of(owner) == seq![a, b],
        left.channels_of(owner) == seq![b],
{
    let none = start.channels_of(owner);
    assert(none =~= Seq::<u64>::empty());
    assert(two.channels_of(owner) =~= seq![a, b]);
    let both = seq![a, b];
    assert(both.drop_last() =~= seq![a]);
    assert(seq![a].drop_last() =~= Seq::<u64>::empty());
    assert(without(seq![a], a) =~= Seq::<u64>::empty()) by {
        reveal_with_fuel(without, 2);
    }
    assert(without(both, a) =~= seq![b]) by {
        reveal_with_fuel(without, 3);
    }
}

} // verus!
