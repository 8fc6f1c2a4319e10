//! The in-memory room store: the single authoritative mapping from room
//! identifier to room. Every operation is a short read-or-mutate step;
//! callers that share the store across tasks wrap it in their own mutual
//! exclusion and hold it only for the duration of one call.

use vstd::prelude::*;
use std::collections::HashMap;
use crate::clock::now_millis;
use crate::error::RoomNotFound;
use crate::room::{event_time, CreateRoom, Event, Room, RoomView, User};
use crate::room::{lemma_joined_wf, lemma_left_wf};

verus! {

broadcast use vstd::std_specs::hash::group_hash_axioms;

/// What one polling round of a subscription decides: the events to hand
/// back (possibly none, when the budget is spent), a missing room, or
/// an instruction to wait one interval and poll again.
#[derive(Debug)]
pub enum SubscribeStep {
    Finished(Vec<Event>),
    NotFound(RoomNotFound),
    WaitAgain,
}

/// The authoritative mapping from room identifier to room.
pub struct RoomInMemoryRepository {
    pub rooms: HashMap<u128, Room>,
}

impl View for RoomInMemoryRepository {
    type V = Map<u128, RoomView>;

    open spec fn view(&self) -> Map<u128, RoomView> {
        Map::new(
            |k: u128| self.rooms@.dom().contains(k),
            |k: u128| self.rooms@[k]@,
        )
    }
}

impl RoomInMemoryRepository {
    /// Every stored room is well-formed and keyed by its own identifier.
    pub open spec fn inv(self) -> bool {
        forall|k: u128|
            #[trigger] self@.dom().contains(k) ==> self@[k].wf() && self@[k].id == k
    }

    /// An empty store.
    pub fn new() -> (r: Self)
        ensures
            r@ == Map::<u128, RoomView>::empty(),
            r.inv(),
    {
        let r = RoomInMemoryRepository { rooms: HashMap::new() };
        proof {
            assert(r@ =~= Map::<u128, RoomView>::empty());
        }
        r
    }

    /// Creates a room owned by `user_id` under a freshly drawn
    /// identifier, stores it, and returns a copy. Never fails; a caller
    /// reads the assigned identifier off the returned copy.
    pub fn create(&mut self, new_room: &CreateRoom) -> (r: Room)
        requires
            old(self).inv(),
        ensures
            final(self).inv(),
            r@.wf(),
            r@.owner_id == new_room.user_id,
            r@ == RoomView::fresh(r@.id, new_room.user_id, event_time(r@.events[0])),
            final(self)@ == old(self)@.insert(r@.id, r@),
    {
        let room = Room::new(new_room.user_id);
        let copy = room.snapshot();
        let id = room.id;
        self.rooms.insert(id, room);
        proof {
            assert(self@ =~= old(self)@.insert(copy@.id, copy@));
            assert forall|k: u128| #[trigger] self@.dom().contains(k) implies self@[k].wf()
                && self@[k].id == k by {
                if k != copy@.id {
                    assert(old(self)@.dom().contains(k));
                }
            }
        }
        copy
    }

    /// Returns a copy of the room's current state, or the typed
    /// not-found condition when the identifier is unknown.
    pub fn get(&self, room_id: u128) -> (r: Result<Room, RoomNotFound>)
        requires
            self.inv(),
        ensures
            r is Ok <==> self@.dom().contains(room_id),
            r matches Ok(room) ==> room@ == self@[room_id],
            r matches Err(e) ==> e == (RoomNotFound { room_id }),
    {
        match self.rooms.get(&room_id) {
            Some(room) => Ok(room.snapshot()),
            None => Err(RoomNotFound { room_id }),
        }
    }

    /// Joins `user_id` to the room: upserts the member record under the
    /// current time and appends the matching `UserJoined` event, as one
    /// step. Rejoining an existing member still appends an event, so the
    /// version still grows. An unknown room leaves the store unchanged.
    pub fn join(&mut self, room_id: u128, user_id: u128) -> (r: Result<(), RoomNotFound>)
        requires
            old(self).inv(),
        ensures
            final(self).inv(),
            r is Ok <==> old(self)@.dom().contains(room_id),
            r matches Err(e) ==> e == (RoomNotFound { room_id }) && final(self)@ == old(self)@,
            r is Ok ==> final(self)@ == old(self)@.insert(
                room_id,
                old(self)@[room_id].joined(
                    user_id,
                    event_time(final(self)@[room_id].events.last()),
                ),
            ),
    {
        let mut room = match self.rooms.get(&room_id) {
            Some(found) => found.snapshot(),
            None => {
                proof {
                    assert(self@ =~= old(self)@);
                }
                return Err(RoomNotFound { room_id });
            },
        };
        proof {
            assert(old(self)@.dom().contains(room_id));
            assert(old(self)@[room_id].wf() && old(self)@[room_id].id == room_id);
        }
        let now = now_millis();
        room.members.insert(user_id, User { id: user_id, updated_at: now });
        room.events.push(Event::UserJoined { user_id, timestamp: now });
        proof {
            assert(room@ == old(self)@[room_id].joined(user_id, now));
        }
        self.rooms.insert(room_id, room);
        proof {
            lemma_joined_wf(old(self)@[room_id], user_id, now);
            assert(self@ =~= old(self)@.insert(
                room_id,
                old(self)@[room_id].joined(user_id, now),
            ));
            assert forall|k: u128| #[trigger] self@.dom().contains(k) implies self@[k].wf()
                && self@[k].id == k by {
                if k != room_id {
                    assert(old(self)@.dom().contains(k));
                }
            }
        }
        Ok(())
    }

    /// Removes `user_id` from the room (a no-op on the membership when
    /// the member is absent) and unconditionally appends a `UserLeft`
    /// event, as one step. An unknown room leaves the store unchanged.
    pub fn leave(&mut self, room_id: u128, user_id: u128) -> (r: Result<(), RoomNotFound>)
        requires
            old(self).inv(),
        ensures
            final(self).inv(),
            r is Ok <==> old(self)@.dom().contains(room_id),
            r matches Err(e) ==> e == (RoomNotFound { room_id }) && final(self)@ == old(self)@,
            r is Ok ==> final(self)@ == old(self)@.insert(
                room_id,
                old(self)@[room_id].left(
                    user_id,
                    event_time(final(self)@[room_id].events.last()),
                ),
            ),
    {
        let mut room = match self.rooms.get(&room_id) {
            Some(found) => found.snapshot(),
            None => {
                proof {
                    assert(self@ =~= old(self)@);
                }
                return Err(RoomNotFound { room_id });
            },
        };
        proof {
            assert(old(self)@.dom().contains(room_id));
            assert(old(self)@[room_id].wf() && old(self)@[room_id].id == room_id);
        }
        let now = now_millis();
        room.members.remove(&user_id);
        room.events.push(Event::UserLeft { user_id, timestamp: now });
        proof {
            assert(room@ == old(self)@[room_id].left(user_id, now));
        }
        self.rooms.insert(room_id, room);
        proof {
            lemma_left_wf(old(self)@[room_id], user_id, now);
            assert(self@ =~= old(self)@.insert(
                room_id,
                old(self)@[room_id].left(user_id, now),
            ));
            assert forall|k: u128| #[trigger] self@.dom().contains(k) implies self@[k].wf()
                && self@[k].id == k by {
                if k != room_id {
                    assert(old(self)@.dom().contains(k));
                }
            }
        }
        Ok(())
    }

    /// The events the room recorded at or past the given version count,
    /// oldest first. A version at or past the current one yields an
    /// empty sequence, not an error; only an unknown room fails. Reads
    /// take `&self`: the result is a function of the store's state at
    /// the call, and the store is left untouched.
    pub fn events_since(&self, room_id: u128, version: u32) -> (r: Result<
        Vec<Event>,
        RoomNotFound,
    >)
        requires
            self.inv(),
        ensures
            r is Ok <==> self@.dom().contains(room_id),
            r matches Ok(events) ==> events@ == self@[room_id].events_since(version as nat),
            r matches Err(e) ==> e == (RoomNotFound { room_id }),
    {
        match self.rooms.get(&room_id) {
            Some(room) => Ok(room.get_events_since(version)),
            None => Err(RoomNotFound { room_id }),
        }
    }

    /// One polling round of the long-poll protocol: fail at once when
    /// the room is gone, hand back the new events at once when there are
    /// any, and otherwise direct the caller to wait one interval. The
    /// caller runs at most `SUBSCRIBE_ATTEMPTS` rounds, waiting
    /// `POLL_INTERVAL_MILLIS` between two of them with the store
    /// released, and hands back an empty sequence when the budget is
    /// spent.
    pub fn subscribe_poll(&self, room_id: u128, since_version: u32) -> (s: SubscribeStep)
        requires
            self.inv(),
        ensures
            !self@.dom().contains(room_id) ==> s == SubscribeStep::NotFound(
                RoomNotFound { room_id },
            ),
            self@.dom().contains(room_id) ==> {
                let evs = self@[room_id].events_since(since_version as nat);
                &&& evs.len() > 0 ==> (s matches SubscribeStep::Finished(events) && events@ == evs)
                &&& evs.len() == 0 ==> s is WaitAgain
            },
    {
        match self.rooms.get(&room_id) {
            None => SubscribeStep::NotFound(RoomNotFound { room_id }),
            Some(room) => {
                let events = room.get_events_since(since_version);
                if events.len() > 0 {
                    SubscribeStep::Finished(events)
                } else {
                    SubscribeStep::WaitAgain
                }
            },
        }
    }
}

impl Default for RoomInMemoryRepository {
    /// An empty store.
    fn default() -> (r: Self)
        ensures
            r@ == Map::<u128, RoomView>::empty(),
            r.inv(),
    {
        RoomInMemoryRepository::new()
    }
}

} // verus!
