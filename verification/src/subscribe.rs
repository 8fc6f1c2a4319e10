//! The long-poll protocol, stated over the store states a subscriber
//! observes: one state per polling round, oldest first. The store is
//! released between rounds, so each round may observe a different
//! state; the sequence is as long as the polling budget allows, at most
//! `SUBSCRIBE_ATTEMPTS` entries.

use vstd::prelude::*;
use crate::room::{Event, RoomView};

verus! {

/// What a whole subscription yields: failure on a missing room, or a
/// sequence of events — empty when the polling budget was spent with
/// no news, which is a success, not an error.
pub enum SubscribeOutcome {
    NotFound,
    Events(Seq<Event>),
}

/// The outcome of polling through the given store states in order: the
/// first round that finds the room gone fails, the first round that
/// finds events past `since` returns exactly those, and a budget that
/// runs out (the sequence of states exhausted) returns no events.
pub open spec fn subscribe_outcome(
    states: Seq<Map<u128, RoomView>>,
    room_id: u128,
    since: nat,
) -> SubscribeOutcome
    decreases states.len(),
{
    if states.len() == 0 {
        SubscribeOutcome::Events(Seq::<Event>::empty())
    } else if !states.first().dom().contains(room_id) {
        SubscribeOutcome::NotFound
    } else if states.first()[room_id].events_since(since).len() > 0 {
        SubscribeOutcome::Events(states.first()[room_id].events_since(since))
    } else {
        subscribe_outcome(states.drop_first(), room_id, since)
    }
}

/// A round that already sees new events returns exactly those events at
/// once: the outcome does not depend on any later state, so no wait
/// interval is taken.
pub proof fn lemma_subscribe_returns_immediately(
    states: Seq<Map<u128, RoomView>>,
    room_id: u128,
    since: nat,
)
    requires
        states.len() > 0,
        states.first().dom().contains(room_id),
        states.first()[room_id].events_since(since).len() > 0,
    ensures
        subscribe_outcome(states, room_id, since) == SubscribeOutcome::Events(
            states.first()[room_id].events_since(since),
        ),
{
}

/// With the room present and no news in a round, the outcome is
/// whatever the remaining rounds decide: one wait, then poll again.
pub proof fn lemma_subscribe_waits(states: Seq<Map<u128, RoomView>>, room_id: u128, since: nat)
    requires
        states.len() > 0,
        states.first().dom().contains(room_id),
        states.first()[room_id].events_since(since).len() == 0,
    ensures
        subscribe_outcome(states, room_id, since) == subscribe_outcome(
            states.drop_first(),
            room_id,
            since,
        ),
{
}

/// A subscription that sees the room present but no new events in every
/// round spends its whole budget and then yields an empty sequence —
/// not an error.
pub proof fn lemma_subscribe_timeout_is_empty(
    states: Seq<Map<u128, RoomView>>,
    room_id: u128,
    since: nat,
)
    requires
        forall|i: int|
            0 <= i < states.len() ==> (#[trigger] states[i]).dom().contains(room_id)
                && states[i][room_id].events_since(since).len() == 0,
    ensures
        subscribe_outcome(states, room_id, since) == SubscribeOutcome::Events(
            Seq::<Event>::empty(),
        ),
    decreases states.len(),
{
    if states.len() > 0 {
        assert(states[0] == states.first());
        let rest = states.drop_first();
        assert forall|i: int|
            0 <= i < rest.len() implies (#[trigger] rest[i]).dom().contains(room_id)
            && rest[i][room_id].events_since(since).len() == 0 by {
            assert(rest[i] == states[i + 1]);
        }
        lemma_subscribe_timeout_is_empty(rest, room_id, since);
    }
}

/// A room that is gone in some round — even a later one — fails the
/// subscription with the not-found outcome, provided no earlier round
/// already returned events.
pub proof fn lemma_subscribe_sees_vanished_room(
    states: Seq<Map<u128, RoomView>>,
    room_id: u128,
    since: nat,
    k: int,
)
    requires
        0 <= k < states.len(),
        !states[k].dom().contains(room_id),
        forall|i: int|
            0 <= i < k ==> (#[trigger] states[i]).dom().contains(room_id)
                && states[i][room_id].events_since(since).len() == 0,
    ensures
        subscribe_outcome(states, room_id, since) == SubscribeOutcome::NotFound,
    decreases k,
{
    if k > 0 {
        assert(states[0] == states.first());
        let rest = states.drop_first();
        assert(rest[k - 1] == states[k]);
        assert forall|i: int|
            0 <= i < k - 1 implies (#[trigger] rest[i]).dom().contains(room_id)
            && rest[i][room_id].events_since(since).len() == 0 by {
            assert(rest[i] == states[i + 1]);
        }
        lemma_subscribe_sees_vanished_room(rest, room_id, since, k - 1);
    }
}

} // verus!
