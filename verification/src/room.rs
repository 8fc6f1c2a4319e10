//! The room entity: a membership set kept consistent with an append-only
//! event log.

use vstd::prelude::*;
use std::collections::HashMap;
use crate::clock::now_millis;
use crate::ids::fresh_id;

verus! {

broadcast use vstd::std_specs::hash::group_hash_axioms;

/// A membership change recorded in a room's event log. Timestamps are
/// wall-clock milliseconds since the Unix epoch.
#[derive(Clone, Copy, Debug, PartialEq, Eq, Structural)]
pub enum Event {
    UserJoined { user_id: u128, timestamp: i64 },
    UserLeft { user_id: u128, timestamp: i64 },
}

/// A current member of a room: an identifier together with the time of
/// the join that last refreshed the record.
#[derive(Clone, Copy, Debug, PartialEq, Eq, Structural)]
pub struct User {
    pub id: u128,
    pub updated_at: i64,
}

/// The request to create a room, carrying the owner's identifier.
#[derive(Clone, Copy, Debug, PartialEq, Eq, Structural)]
pub struct CreateRoom {
    pub user_id: u128,
}

/// The member an event is about.
pub open spec fn event_user(e: Event) -> u128 {
    match e {
        Event::UserJoined { user_id, .. } => user_id,
        Event::UserLeft { user_id, .. } => user_id,
    }
}

/// The wall-clock time an event was recorded at.
pub open spec fn event_time(e: Event) -> i64 {
    match e {
        Event::UserJoined { timestamp, .. } => timestamp,
        Event::UserLeft { timestamp, .. } => timestamp,
    }
}

/// The membership that replaying an event log yields: each `UserJoined`
/// upserts the member under the event's timestamp, each `UserLeft`
/// removes the member (a no-op when the member is absent).
pub open spec fn replay_members(events: Seq<Event>) -> Map<u128, User>
    decreases events.len(),
{
    if events.len() == 0 {
        Map::<u128, User>::empty()
    } else {
        let m = replay_members(events.drop_last());
        match events.last() {
            Event::UserJoined { user_id, timestamp } => m.insert(
                user_id,
                User { id: user_id, updated_at: timestamp },
            ),
            Event::UserLeft { user_id, .. } => m.remove(user_id),
        }
    }
}

/// The mathematical state of a room.
pub struct RoomView {
    pub id: u128,
    pub owner_id: u128,
    pub members: Map<u128, User>,
    pub events: Seq<Event>,
    pub closed_at: Option<i64>,
}

impl RoomView {
    /// The membership set always reflects a replay of the event log.
    pub open spec fn wf(self) -> bool {
        self.members == replay_members(self.events)
    }

    /// A room's version is the number of events recorded for it.
    pub open spec fn version(self) -> nat {
        self.events.len()
    }

    /// The suffix of the event log past a version the caller already has;
    /// empty when the caller is up to date (or ahead).
    pub open spec fn events_since(self, version: nat) -> Seq<Event> {
        if version < self.events.len() {
            self.events.skip(version as int)
        } else {
            Seq::<Event>::empty()
        }
    }

    /// The state a freshly created room is in: the owner is the sole
    /// member, and the log holds exactly the owner's join.
    pub open spec fn fresh(id: u128, owner_id: u128, now: i64) -> RoomView {
        RoomView {
            id,
            owner_id,
            members: Map::<u128, User>::empty().insert(
                owner_id,
                User { id: owner_id, updated_at: now },
            ),
            events: seq![Event::UserJoined { user_id: owner_id, timestamp: now }],
            closed_at: None,
        }
    }

    /// The room after a join at time `now`: the member record is
    /// upserted and a `UserJoined` event is appended.
    pub open spec fn joined(self, user_id: u128, now: i64) -> RoomView {
        RoomView {
            id: self.id,
            owner_id: self.owner_id,
            members: self.members.insert(user_id, User { id: user_id, updated_at: now }),
            events: self.events.push(Event::UserJoined { user_id, timestamp: now }),
            closed_at: self.closed_at,
        }
    }

    /// The room after a leave at time `now`: the member is removed (a
    /// no-op when absent) and a `UserLeft` event is appended
    /// unconditionally.
    pub open spec fn left(self, user_id: u128, now: i64) -> RoomView {
        RoomView {
            id: self.id,
            owner_id: self.owner_id,
            members: self.members.remove(user_id),
            events: self.events.push(Event::UserLeft { user_id, timestamp: now }),
            closed_at: self.closed_at,
        }
    }
}

/// Joining preserves the consistency of membership with the log.
pub proof fn lemma_joined_wf(r: RoomView, user_id: u128, now: i64)
    requires
        r.wf(),
    ensures
        r.joined(user_id, now).wf(),
{
    let j = r.joined(user_id, now);
    assert(j.events.drop_last() =~= r.events);
}

/// Leaving preserves the consistency of membership with the log.
pub proof fn lemma_left_wf(r: RoomView, user_id: u128, now: i64)
    requires
        r.wf(),
    ensures
        r.left(user_id, now).wf(),
{
    let l = r.left(user_id, now);
    assert(l.events.drop_last() =~= r.events);
}

/// A freshly created room is well-formed.
pub proof fn lemma_fresh_wf(id: u128, owner_id: u128, now: i64)
    ensures
        RoomView::fresh(id, owner_id, now).wf(),
{
    let f = RoomView::fresh(id, owner_id, now);
    assert(f.events.drop_last() =~= Seq::<Event>::empty());
    assert(replay_members(Seq::<Event>::empty()) =~= Map::<u128, User>::empty());
    assert(f.members =~= replay_members(f.events));
}

/// A room's version is always exactly the length of its event log: the
/// version is not kept separately, so no operation can let the two
/// drift apart.
pub proof fn lemma_version_is_log_length(r: RoomView)
    ensures
        r.version() == r.events.len(),
{
}

/// A freshly created room is at version 1, its log holds exactly the
/// owner's join, and the owner is the sole member.
pub proof fn lemma_fresh_room(id: u128, owner_id: u128, now: i64)
    ensures
        RoomView::fresh(id, owner_id, now).version() == 1,
        RoomView::fresh(id, owner_id, now).events == seq![
            Event::UserJoined { user_id: owner_id, timestamp: now },
        ],
        RoomView::fresh(id, owner_id, now).members == map![
            owner_id => User { id: owner_id, updated_at: now },
        ],
        RoomView::fresh(id, owner_id, now).wf(),
{
    lemma_fresh_wf(id, owner_id, now);
    assert(RoomView::fresh(id, owner_id, now).members =~= map![
        owner_id => User { id: owner_id, updated_at: now },
    ]);
}

/// A batch of operations applied to a room, oldest first: each event
/// describes the join or leave that appends it.
pub open spec fn apply_ops(r: RoomView, ops: Seq<Event>) -> RoomView
    decreases ops.len(),
{
    if ops.len() == 0 {
        r
    } else {
        let prev = apply_ops(r, ops.drop_last());
        match ops.last() {
            Event::UserJoined { user_id, timestamp } => prev.joined(user_id, timestamp),
            Event::UserLeft { user_id, timestamp } => prev.left(user_id, timestamp),
        }
    }
}

/// Joins and leaves only append: a batch of N operations extends the
/// log by exactly its N events, in order, so the version grows by
/// exactly N — regardless of any membership overlap (a rejoin or a
/// leave of a non-member still appends).
pub proof fn lemma_ops_append(r: RoomView, ops: Seq<Event>)
    ensures
        apply_ops(r, ops).events == r.events + ops,
        apply_ops(r, ops).version() == r.version() + ops.len(),
    decreases ops.len(),
{
    if ops.len() == 0 {
        assert(apply_ops(r, ops).events =~= r.events + ops);
    } else {
        lemma_ops_append(r, ops.drop_last());
        assert(apply_ops(r, ops).events =~= r.events + ops);
    }
}

/// Every operation keeps the membership set consistent with a replay
/// of the event log.
pub proof fn lemma_ops_preserve_wf(r: RoomView, ops: Seq<Event>)
    requires
        r.wf(),
    ensures
        apply_ops(r, ops).wf(),
    decreases ops.len(),
{
    if ops.len() > 0 {
        lemma_ops_preserve_wf(r, ops.drop_last());
        let prev = apply_ops(r, ops.drop_last());
        match ops.last() {
            Event::UserJoined { user_id, timestamp } => lemma_joined_wf(prev, user_id, timestamp),
            Event::UserLeft { user_id, timestamp } => lemma_left_wf(prev, user_id, timestamp),
        }
    }
}

/// A room: the identifier, the owner, the membership set and the
/// append-only event log. `closed_at`, when set, would mark the room as
/// accepting no further mutations; nothing sets it at present.
#[derive(Debug)]
pub struct Room {
    pub id: u128,
    pub owner_id: u128,
    pub members: HashMap<u128, User>,
    pub events: Vec<Event>,
    pub closed_at: Option<i64>,
}

impl View for Room {
    type V = RoomView;

    open spec fn view(&self) -> RoomView {
        RoomView {
            id: self.id,
            owner_id: self.owner_id,
            members: self.members@,
            events: self.events@,
            closed_at: self.closed_at,
        }
    }
}

impl Room {
    /// Builds the room a creation at time `now` yields, under the given
    /// identifier: the owner as sole member, one `UserJoined` event.
    pub fn new_at(owner_id: u128, id: u128, now: i64) -> (r: Room)
        ensures
            r@ == RoomView::fresh(id, owner_id, now),
            r@.wf(),
    {
        let mut members: HashMap<u128, User> = HashMap::new();
        members.insert(owner_id, User { id: owner_id, updated_at: now });
        let mut events: Vec<Event> = Vec::new();
        events.push(Event::UserJoined { user_id: owner_id, timestamp: now });
        let r = Room { id, owner_id, members, events, closed_at: None };
        proof {
            lemma_fresh_wf(id, owner_id, now);
            assert(r@.members =~= RoomView::fresh(id, owner_id, now).members);
            assert(r@.events =~= RoomView::fresh(id, owner_id, now).events);
        }
        r
    }

    /// Creates a room for the given owner, under a freshly drawn
    /// identifier and the current wall-clock time.
    pub fn new(owner_id: u128) -> (r: Room)
        ensures
            r@.wf(),
            r@ == RoomView::fresh(r@.id, owner_id, event_time(r@.events[0])),
    {
        let id = fresh_id();
        let now = now_millis();
        Room::new_at(owner_id, id, now)
    }

    /// An independent copy of the room, for handing out to callers:
    /// mutating the copy leaves the stored room untouched.
    pub fn snapshot(&self) -> (r: Room)
        ensures
            r@ == self@,
    {
        let mut events: Vec<Event> = Vec::new();
        let mut i: usize = 0;
        while i < self.events.len()
            invariant
                i <= self.events.len(),
                events@ =~= self.events@.take(i as int),
            decreases self.events.len() - i,
        {
            events.push(self.events[i]);
            i = i + 1;
        }
        proof {
            assert(events@ =~= self.events@);
        }
        Room {
            id: self.id,
            owner_id: self.owner_id,
            members: self.members.clone(),
            events,
            closed_at: self.closed_at,
        }
    }

    /// The room's version: the number of events recorded so far. The
    /// bound on the log's length only keeps the count representable.
    pub fn version(&self) -> (v: u32)
        requires
            self@.events.len() <= u32::MAX,
        ensures
            v == self@.version(),
    {
        self.events.len() as u32
    }

    /// The events recorded at or past the given version count, oldest
    /// first; empty when the version is at or past the current one.
    pub fn get_events_since(&self, version: u32) -> (r: Vec<Event>)
        ensures
            r@ == self@.events_since(version as nat),
    {
        let mut out: Vec<Event> = Vec::new();
        let len = self.events.len();
        if (version as usize) >= len {
            proof {
                assert(out@ =~= self@.events_since(version as nat));
            }
            return out;
        }
        let mut i: usize = version as usize;
        while i < len
            invariant
                len == self.events.len(),
                (version as usize) < len,
                version as usize <= i <= len,
                out@ =~= self@.events.subrange(version as int, i as int),
            decreases len - i,
        {
            out.push(self.events[i]);
            i = i + 1;
        }
        proof {
            assert(out@ =~= self@.events_since(version as nat));
        }
        out
    }
}

} // verus!
