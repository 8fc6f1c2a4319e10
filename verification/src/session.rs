//! The lightweight session rooms: a room here is only an identifier
//! and a bare set of user identifiers, without an event log, together
//! with the state object that owns all of them. Callers that share the
//! state across tasks wrap it in their own mutual exclusion and hold it
//! for the duration of one call.

use vstd::prelude::*;
use std::collections::{HashMap, HashSet};
use crate::ids::fresh_id;

verus! {

broadcast use vstd::std_specs::hash::group_hash_axioms;

/// A session room: an identifier and the set of its users.
#[derive(Debug)]
pub struct Room {
    pub id: u128,
    pub users: HashSet<u128>,
}

impl Room {
    /// An empty room under a freshly drawn identifier.
    pub fn new() -> (r: Room)
        ensures
            r.users@ == Set::<u128>::empty(),
    {
        Room { id: fresh_id(), users: HashSet::new() }
    }

    /// Adds the user; adding a present user changes nothing.
    pub fn add_user(&mut self, user_id: u128)
        ensures
            final(self).id == old(self).id,
            final(self).users@ == old(self).users@.insert(user_id),
    {
        self.users.insert(user_id);
    }

    /// Removes the user; removing an absent user changes nothing.
    pub fn remove_user(&mut self, user_id: &u128)
        ensures
            final(self).id == old(self).id,
            final(self).users@ == old(self).users@.remove(*user_id),
    {
        self.users.remove(user_id);
    }
}

/// A session user, known by identifier alone.
#[derive(Debug, Clone, Copy, PartialEq, Eq, Structural)]
pub struct User {
    pub id: u128,
}

impl User {
    /// A user under a freshly drawn identifier.
    pub fn new() -> User {
        User { id: fresh_id() }
    }
}

/// The shared application state: every session room, keyed by its
/// identifier.
pub struct AppState {
    pub rooms: HashMap<u128, Room>,
}

impl View for AppState {
    type V = Map<u128, Set<u128>>;

    /// The state abstracts to the user set of each room.
    open spec fn view(&self) -> Map<u128, Set<u128>> {
        Map::new(
            |k: u128| self.rooms@.dom().contains(k),
            |k: u128| self.rooms@[k].users@,
        )
    }
}

impl AppState {
    /// Every stored room is keyed by its own identifier.
    pub open spec fn inv(self) -> bool {
        forall|k: u128| #[trigger] self.rooms@.dom().contains(k) ==> self.rooms@[k].id == k
    }

    /// A state with no rooms.
    pub fn new() -> (s: AppState)
        ensures
            s@ == Map::<u128, Set<u128>>::empty(),
            s.inv(),
    {
        let s = AppState { rooms: HashMap::new() };
        proof {
            assert(s@ =~= Map::<u128, Set<u128>>::empty());
        }
        s
    }

    /// Creates an empty room under a fresh identifier and returns the
    /// identifier.
    pub fn create_room(&mut self) -> (room_id: u128)
        requires
            old(self).inv(),
        ensures
            final(self).inv(),
            final(self)@ == old(self)@.insert(room_id, Set::<u128>::empty()),
    {
        let room = Room::new();
        let room_id = room.id;
        self.rooms.insert(room_id, room);
        proof {
            assert(self@ =~= old(self)@.insert(room_id, Set::<u128>::empty()));
        }
        room_id
    }

    /// Adds the user to the room; reports whether the room exists, and
    /// mutates nothing when it does not.
    pub fn add_user_to_room(&mut self, room_id: u128, user: User) -> (b: bool)
        requires
            old(self).inv(),
        ensures
            final(self).inv(),
            b <==> old(self)@.dom().contains(room_id),
            b ==> final(self)@ == old(self)@.insert(room_id, old(self)@[room_id].insert(user.id)),
            !b ==> final(self)@ == old(self)@,
    {
        let mut room = match self.rooms.remove(&room_id) {
            Some(found) => found,
            None => {
                proof {
                    assert(self@ =~= old(self)@);
                }
                return false;
            },
        };
        proof {
            assert(old(self).rooms@.dom().contains(room_id));
        }
        room.add_user(user.id);
        self.rooms.insert(room_id, room);
        proof {
            assert(self@ =~= old(self)@.insert(room_id, old(self)@[room_id].insert(user.id)));
        }
        true
    }

    /// Removes the user from the room; reports whether the room exists,
    /// and mutates nothing when it does not.
    pub fn remove_user_from_room(&mut self, room_id: u128, user_id: u128) -> (b: bool)
        requires
            old(self).inv(),
        ensures
            final(self).inv(),
            b <==> old(self)@.dom().contains(room_id),
            b ==> final(self)@ == old(self)@.insert(room_id, old(self)@[room_id].remove(user_id)),
            !b ==> final(self)@ == old(self)@,
    {
        let mut room = match self.rooms.remove(&room_id) {
            Some(found) => found,
            None => {
                proof {
                    assert(self@ =~= old(self)@);
                }
                return false;
            },
        };
        proof {
            assert(old(self).rooms@.dom().contains(room_id));
        }
        room.remove_user(&user_id);
        self.rooms.insert(room_id, room);
        proof {
            assert(self@ =~= old(self)@.insert(room_id, old(self)@[room_id].remove(user_id)));
        }
        true
    }
}

} // verus!
