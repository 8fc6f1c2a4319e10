use roomlog::error::{CommonError, RoomNotFound};
use roomlog::room::{CreateRoom, Event, Room};
use roomlog::service::{RoomServiceImpl, SubscribePoll};
use roomlog::store::{RoomInMemoryRepository, SubscribeStep};
use roomlog::SUBSCRIBE_ATTEMPTS;

fn user_joined(e: &Event) -> Option<u128> {
    match e {
        Event::UserJoined { user_id, .. } => Some(*user_id),
        Event::UserLeft { .. } => None,
    }
}

fn user_left(e: &Event) -> Option<u128> {
    match e {
        Event::UserJoined { .. } => None,
        Event::UserLeft { user_id, .. } => Some(*user_id),
    }
}

#[test]
fn create_makes_room_at_version_one() {
    let mut repo = RoomInMemoryRepository::new();
    let owner = uuid::Uuid::new_v4().as_u128();
    let room = repo.create(&CreateRoom { user_id: owner });

    assert_eq!(room.owner_id, owner);
    assert_eq!(room.version(), 1);
    assert_eq!(room.events.len(), 1);
    assert_eq!(user_joined(&room.events[0]), Some(owner));
    assert_eq!(room.members.len(), 1);
    assert!(room.members.contains_key(&owner));
    assert!(room.closed_at.is_none());
    assert!(repo.rooms.contains_key(&room.id));
}

#[test]
fn created_room_is_a_copy() {
    let mut repo = RoomInMemoryRepository::new();
    let owner = uuid::Uuid::new_v4().as_u128();
    let mut copy = repo.create(&CreateRoom { user_id: owner });
    let id = copy.id;
    copy.events.clear();
    copy.members.clear();

    let stored = repo.get(id).unwrap();
    assert_eq!(stored.version(), 1);
    assert_eq!(stored.members.len(), 1);
}

#[test]
fn room_lifecycle_scenario() {
    let mut repo = RoomInMemoryRepository::new();
    let a = uuid::Uuid::new_v4().as_u128();
    let b = uuid::Uuid::new_v4().as_u128();
    let room_id = repo.create(&CreateRoom { user_id: a }).id;
    assert_eq!(repo.get(room_id).unwrap().version(), 1);

    assert!(repo.join(room_id, b).is_ok());
    let after_join = repo.get(room_id).unwrap();
    assert_eq!(after_join.version(), 2);
    assert_eq!(after_join.members.len(), 2);
    assert!(after_join.members.contains_key(&a));
    assert!(after_join.members.contains_key(&b));

    assert!(repo.leave(room_id, a).is_ok());
    let after_leave = repo.get(room_id).unwrap();
    assert_eq!(after_leave.version(), 3);
    assert_eq!(after_leave.members.len(), 1);
    assert!(!after_leave.members.contains_key(&a));
    assert!(after_leave.members.contains_key(&b));

    let events = repo.events_since(room_id, 1).unwrap();
    assert_eq!(events.len(), 2);
    assert_eq!(user_joined(&events[0]), Some(b));
    assert_eq!(user_left(&events[1]), Some(a));
}

#[test]
fn rejoin_bumps_version_but_not_membership() {
    let mut repo = RoomInMemoryRepository::new();
    let a = uuid::Uuid::new_v4().as_u128();
    let b = uuid::Uuid::new_v4().as_u128();
    let room_id = repo.create(&CreateRoom { user_id: a }).id;

    assert!(repo.join(room_id, b).is_ok());
    assert!(repo.join(room_id, b).is_ok());
    assert!(repo.join(room_id, b).is_ok());

    let room = repo.get(room_id).unwrap();
    assert_eq!(room.version(), 4);
    assert_eq!(room.members.len(), 2);
}

#[test]
fn leave_of_non_member_still_appends() {
    let mut repo = RoomInMemoryRepository::new();
    let a = uuid::Uuid::new_v4().as_u128();
    let stranger = uuid::Uuid::new_v4().as_u128();
    let room_id = repo.create(&CreateRoom { user_id: a }).id;

    assert!(repo.leave(room_id, stranger).is_ok());
    assert!(repo.leave(room_id, stranger).is_ok());

    let room = repo.get(room_id).unwrap();
    assert_eq!(room.version(), 3);
    assert_eq!(room.members.len(), 1);
    assert!(room.members.contains_key(&a));
    assert_eq!(user_left(&room.events[1]), Some(stranger));
    assert_eq!(user_left(&room.events[2]), Some(stranger));
}

#[test]
fn events_since_returns_exact_suffix() {
    let mut repo = RoomInMemoryRepository::new();
    let a = uuid::Uuid::new_v4().as_u128();
    let b = uuid::Uuid::new_v4().as_u128();
    let room_id = repo.create(&CreateRoom { user_id: a }).id;
    repo.join(room_id, b).unwrap();
    repo.leave(room_id, b).unwrap();

    let all = repo.events_since(room_id, 0).unwrap();
    assert_eq!(all.len(), 3);
    assert_eq!(user_joined(&all[0]), Some(a));
    assert_eq!(user_joined(&all[1]), Some(b));
    assert_eq!(user_left(&all[2]), Some(b));

    let tail = repo.events_since(room_id, 2).unwrap();
    assert_eq!(tail.len(), 1);
    assert_eq!(user_left(&tail[0]), Some(b));

    assert!(repo.events_since(room_id, 3).unwrap().is_empty());
    assert!(repo.events_since(room_id, 4).unwrap().is_empty());
    assert!(repo.events_since(room_id, u32::MAX).unwrap().is_empty());
}

#[test]
fn events_since_reads_without_mutating() {
    let mut repo = RoomInMemoryRepository::new();
    let a = uuid::Uuid::new_v4().as_u128();
    let room_id = repo.create(&CreateRoom { user_id: a }).id;

    let first = repo.events_since(room_id, 0).unwrap();
    let second = repo.events_since(room_id, 0).unwrap();
    assert_eq!(first, second);
    assert_eq!(repo.get(room_id).unwrap().version(), 1);
}

#[test]
fn unknown_room_fails_with_not_found() {
    let mut repo = RoomInMemoryRepository::new();
    let room_id = uuid::Uuid::new_v4().as_u128();
    let user_id = uuid::Uuid::new_v4().as_u128();

    assert_eq!(repo.get(room_id).err().unwrap(), RoomNotFound { room_id });
    assert_eq!(repo.join(room_id, user_id).err().unwrap(), RoomNotFound { room_id });
    assert_eq!(repo.leave(room_id, user_id).err().unwrap(), RoomNotFound { room_id });
    assert_eq!(repo.events_since(room_id, 0).err().unwrap(), RoomNotFound { room_id });
    match repo.subscribe_poll(room_id, 0) {
        SubscribeStep::NotFound(nf) => assert_eq!(nf, RoomNotFound { room_id }),
        other => panic!("expected the not-found step, got {:?}", other),
    }
    assert_eq!(repo.rooms.len(), 0);
}

#[test]
fn subscribe_poll_returns_existing_events_at_once() {
    let mut repo = RoomInMemoryRepository::new();
    let a = uuid::Uuid::new_v4().as_u128();
    let b = uuid::Uuid::new_v4().as_u128();
    let room_id = repo.create(&CreateRoom { user_id: a }).id;
    repo.join(room_id, b).unwrap();

    match repo.subscribe_poll(room_id, 1) {
        SubscribeStep::Finished(events) => {
            assert_eq!(events.len(), 1);
            assert_eq!(user_joined(&events[0]), Some(b));
        },
        other => panic!("expected events at once, got {:?}", other),
    }
}

#[test]
fn subscribe_poll_waits_when_no_news() {
    let mut repo = RoomInMemoryRepository::new();
    let a = uuid::Uuid::new_v4().as_u128();
    let room_id = repo.create(&CreateRoom { user_id: a }).id;

    match repo.subscribe_poll(room_id, 1) {
        SubscribeStep::WaitAgain => {},
        other => panic!("expected a wait, got {:?}", other),
    }
}

#[test]
fn subscribe_spends_budget_then_yields_empty() {
    let mut repo = RoomInMemoryRepository::new();
    let a = uuid::Uuid::new_v4().as_u128();
    let b = uuid::Uuid::new_v4().as_u128();
    let room_id = repo.create(&CreateRoom { user_id: a }).id;
    repo.join(room_id, b).unwrap();
    repo.leave(room_id, a).unwrap();

    let mut result: Option<Vec<Event>> = None;
    for _attempt in 0..SUBSCRIBE_ATTEMPTS {
        match repo.subscribe_poll(room_id, 3) {
            SubscribeStep::Finished(events) => {
                result = Some(events);
                break;
            },
            SubscribeStep::NotFound(_) => panic!("room exists"),
            SubscribeStep::WaitAgain => {},
        }
    }
    let events = result.unwrap_or_default();
    assert!(events.is_empty());
}

#[test]
fn service_maps_not_found_to_domain_error() {
    let svc = RoomServiceImpl::new(RoomInMemoryRepository::new());
    let room_id = uuid::Uuid::new_v4().as_u128();

    match svc.get(room_id) {
        Err(CommonError::NotFound { room_id: reported }) => assert_eq!(reported, room_id),
        other => panic!("expected the domain not-found error, got {:?}", other),
    }
    match svc.subscribe_poll(room_id, 0) {
        Err(CommonError::NotFound { room_id: reported }) => assert_eq!(reported, room_id),
        other => panic!("expected the domain not-found error, got {:?}", other),
    }
}

#[test]
fn service_lifecycle_matches_store() {
    let mut svc = RoomServiceImpl::new(RoomInMemoryRepository::new());
    let a = uuid::Uuid::new_v4().as_u128();
    let b = uuid::Uuid::new_v4().as_u128();

    let created: Room = svc.create(CreateRoom { user_id: a }).unwrap();
    let room_id = created.id;
    assert_eq!(created.version(), 1);

    svc.join(room_id, b).unwrap();
    svc.leave(room_id, a).unwrap();
    let room = svc.get(room_id).unwrap();
    assert_eq!(room.version(), 3);

    match svc.subscribe_poll(room_id, 1) {
        Ok(SubscribePoll::Ready(events)) => {
            assert_eq!(events.len(), 2);
            assert_eq!(user_joined(&events[0]), Some(b));
            assert_eq!(user_left(&events[1]), Some(a));
        },
        other => panic!("expected events at once, got {:?}", other),
    }
    match svc.subscribe_poll(room_id, 3) {
        Ok(SubscribePoll::Wait) => {},
        other => panic!("expected a wait, got {:?}", other),
    }
}
