//! The room service: the stable domain contract over the store. Each
//! operation delegates to the repository and maps its typed not-found
//! condition into the domain error carrying the room identifier; the
//! service never re-wraps an error that is already a domain error.

use vstd::prelude::*;
use crate::error::CommonError;
use crate::room::{event_time, CreateRoom, Event, Room, RoomView};
use crate::store::{RoomInMemoryRepository, SubscribeStep};

verus! {

/// What the service tells a subscriber after one polling round: the
/// events to hand back, or wait one interval and poll again.
#[derive(Debug)]
pub enum SubscribePoll {
    Ready(Vec<Event>),
    Wait,
}

/// The domain service over the in-memory repository.
pub struct RoomServiceImpl {
    pub repository: RoomInMemoryRepository,
}

impl View for RoomServiceImpl {
    type V = Map<u128, RoomView>;

    open spec fn view(&self) -> Map<u128, RoomView> {
        self.repository@
    }
}

impl RoomServiceImpl {
    pub open spec fn inv(self) -> bool {
        self.repository.inv()
    }

    /// A service over the given repository.
    pub fn new(repository: RoomInMemoryRepository) -> (s: Self)
        ensures
            s.repository == repository,
    {
        RoomServiceImpl { repository }
    }

    /// Creates a room owned by `room.user_id` and returns a copy of it.
    /// Never fails.
    pub fn create(&mut self, room: CreateRoom) -> (r: Result<Room, CommonError>)
        requires
            old(self).inv(),
        ensures
            final(self).inv(),
            r is Ok,
            r matches Ok(created) ==> {
                &&& created@.wf()
                &&& created@ == RoomView::fresh(
                    created@.id,
                    room.user_id,
                    event_time(created@.events[0]),
                )
                &&& final(self)@ == old(self)@.insert(created@.id, created@)
            },
    {
        Ok(self.repository.create(&room))
    }

    /// Returns a copy of the room's current state, or the domain
    /// not-found error carrying the identifier.
    pub fn get(&self, room_id: u128) -> (r: Result<Room, CommonError>)
        requires
            self.inv(),
        ensures
            r is Ok <==> self@.dom().contains(room_id),
            r matches Ok(room) ==> room@ == self@[room_id],
            r matches Err(e) ==> e == (CommonError::NotFound { room_id }),
    {
        match self.repository.get(room_id) {
            Ok(room) => Ok(room),
            Err(nf) => Err(CommonError::NotFound { room_id: nf.room_id }),
        }
    }

    /// Joins the user to the room; fails only on an unknown room, in
    /// which case nothing is mutated.
    pub fn join(&mut self, room_id: u128, user_id: u128) -> (r: Result<(), CommonError>)
        requires
            old(self).inv(),
        ensures
            final(self).inv(),
            r is Ok <==> old(self)@.dom().contains(room_id),
            r matches Err(e) ==> e == (CommonError::NotFound { room_id }) && final(self)@ == old(
                self,
            )@,
            r is Ok ==> final(self)@ == old(self)@.insert(
                room_id,
                old(self)@[room_id].joined(
                    user_id,
                    event_time(final(self)@[room_id].events.last()),
                ),
            ),
    {
        match self.repository.join(room_id, user_id) {
            Ok(()) => Ok(()),
            Err(nf) => Err(CommonError::NotFound { room_id: nf.room_id }),
        }
    }

    /// Removes the user from the room; fails only on an unknown room,
    /// in which case nothing is mutated.
    pub fn leave(&mut self, room_id: u128, user_id: u128) -> (r: Result<(), CommonError>)
        requires
            old(self).inv(),
        ensures
            final(self).inv(),
            r is Ok <==> old(self)@.dom().contains(room_id),
            r matches Err(e) ==> e == (CommonError::NotFound { room_id }) && final(self)@ == old(
                self,
            )@,
            r is Ok ==> final(self)@ == old(self)@.insert(
                room_id,
                old(self)@[room_id].left(
                    user_id,
                    event_time(final(self)@[room_id].events.last()),
                ),
            ),
    {
        match self.repository.leave(room_id, user_id) {
            Ok(()) => Ok(()),
            Err(nf) => Err(CommonError::NotFound { room_id: nf.room_id }),
        }
    }

    /// One polling round of a subscription: the domain not-found error
    /// when the room is gone, the new events when there are any, and
    /// the instruction to wait one interval otherwise.
    pub fn subscribe_poll(&self, room_id: u128, since_version: u32) -> (r: Result<
        SubscribePoll,
        CommonError,
    >)
        requires
            self.inv(),
        ensures
            !self@.dom().contains(room_id) ==> (r matches Err(e) && e == (CommonError::NotFound {
                room_id,
            })),
            self@.dom().contains(room_id) ==> {
                let evs = self@[room_id].events_since(since_version as nat);
                &&& evs.len() > 0 ==> (r matches Ok(SubscribePoll::Ready(events)) && events@
                    == evs)
                &&& evs.len() == 0 ==> r matches Ok(SubscribePoll::Wait)
            },
    {
        match self.repository.subscribe_poll(room_id, since_version) {
            SubscribeStep::Finished(events) => Ok(SubscribePoll::Ready(events)),
            SubscribeStep::NotFound(nf) => Err(CommonError::NotFound { room_id: nf.room_id }),
            SubscribeStep::WaitAgain => Ok(SubscribePoll::Wait),
        }
    }
}

} // verus!
