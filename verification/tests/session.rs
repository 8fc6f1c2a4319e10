use roomlog::session::{AppState, Room, User};

#[test]
fn test_create_room() {
    let mut state = AppState::new();
    let room_id = state.create_room();

    assert!(state.rooms.contains_key(&room_id));
}

#[test]
fn test_add_user_to_room() {
    let mut state = AppState::new();
    let room_id = state.create_room();
    let user = User::new();
    let result = state.add_user_to_room(room_id, user.clone());

    assert!(result);
    assert!(state.rooms.get(&room_id).unwrap().users.contains(&user.id));
}

#[test]
fn test_remove_user_from_room() {
    let mut state = AppState::new();
    let room_id = state.create_room();
    let user = User::new();
    state.add_user_to_room(room_id, user.clone());

    let result = state.remove_user_from_room(room_id, user.id);

    assert!(result);
    assert!(!state.rooms.get(&room_id).unwrap().users.contains(&user.id));
}

#[test]
fn test_remove_user_from_nonexistent_room() {
    let mut state = AppState::new();
    let room_id = uuid::Uuid::new_v4().as_u128();
    let user_id = uuid::Uuid::new_v4().as_u128();

    let result = state.remove_user_from_room(room_id, user_id);

    assert!(!result);
}

#[test]
fn session_test_create_room() {
    let room = Room::new();
    assert!(room.users.is_empty());
}

#[test]
fn test_add_user() {
    let mut room = Room::new();
    let user_id = uuid::Uuid::new_v4().as_u128();
    room.add_user(user_id);
    assert!(room.users.contains(&user_id));
}

#[test]
fn test_remove_user() {
    let mut room = Room::new();
    let user_id = uuid::Uuid::new_v4().as_u128();
    room.add_user(user_id);
    room.remove_user(&user_id);
    assert!(!room.users.contains(&user_id));
}

#[test]
fn test_create_user() {
    let user = User::new();
    assert!(user.id.to_string().len() > 0);
}
