use clitrix::data::models::{Room, RoomType};
use clitrix::screens::chat::chat_state::{ChatFocus, ChatScreenState};

fn create_test_room(id: &str, name: &str) -> Room {
    let mut room = Room::new(id.to_string(), RoomType::DirectMessage);
    room.display_name = Some(name.to_string());
    room
}

fn room_with_unread(id: &str, name: &str, unread: usize) -> Room {
    let mut room = create_test_room(id, name);
    room.unread_count = unread;
    room
}

#[test]
fn test_chat_state_creation() {
    let state = ChatScreenState::new();
    assert_eq!(state.focus, ChatFocus::RoomList);
    assert!(state.rooms.is_empty());
    assert!(state.messages.is_empty());
    assert!(state.show_timestamps);
}

#[test]
fn test_focus_cycling() {
    let mut state = ChatScreenState::new();

    assert_eq!(state.focus, ChatFocus::RoomList);
    state.cycle_focus();
    assert_eq!(state.focus, ChatFocus::MessageList);
    state.cycle_focus();
    assert_eq!(state.focus, ChatFocus::MessageInput);
    state.cycle_focus();
    assert_eq!(state.focus, ChatFocus::RoomList);
}

#[test]
fn test_typing_users() {
    let mut state = ChatScreenState::new();

    state.add_typing_user("@alice:matrix.org".to_string());
    assert_eq!(state.typing_users.len(), 1);

    state.add_typing_user("@bob:matrix.org".to_string());
    assert_eq!(state.typing_users.len(), 2);

    state.remove_typing_user("@alice:matrix.org");
    assert_eq!(state.typing_users.len(), 1);
    assert_eq!(state.typing_users[0], "@bob:matrix.org");

    state.clear_typing_users();
    assert!(state.typing_users.is_empty());
}

#[test]
fn test_room_management() {
    let mut state = ChatScreenState::new();
    let room1 = create_test_room("!room1:matrix.org", "Room 1");
    let room2 = create_test_room("!room2:matrix.org", "Room 2");

    state.handle_new_room(room1);
    state.handle_new_room(room2);
    assert_eq!(state.rooms.len(), 2);

    state.handle_room_removal("!room1:matrix.org");
    assert_eq!(state.rooms.len(), 1);
    assert_eq!(state.rooms[0].room_id, "!room2:matrix.org");
}

#[test]
fn test_status_text() {
    let mut state = ChatScreenState::new();

    // No room selected
    assert_eq!(state.get_status_text(), "Select a room to start chatting");

    // Error state
    state.set_error(Some("Network error".to_string()));
    assert!(state.get_status_text().starts_with("Error:"));

    // Loading state
    state.clear_error();
    state.set_loading_messages(true);
    assert_eq!(state.get_status_text(), "Loading messages...");

    // Sending state
    state.set_loading_messages(false);
    state.set_sending_message(true);
    assert_eq!(state.get_status_text(), "Sending message...");
}

#[test]
fn test_message_sending() {
    let mut state = ChatScreenState::new();
    state.message_input.set_value("Hello world".to_string());

    assert!(state.can_send_message());

    state.prepare_message_send();
    assert!(state.pending_send);
    assert!(state.is_sending_message);

    state.complete_message_send();
    assert!(!state.pending_send);
    assert!(!state.is_sending_message);
    assert!(state.message_input.is_empty());
    assert_eq!(state.focus, ChatFocus::MessageList);
}

#[test]
fn test_blank_draft_is_not_sent() {
    let mut state = ChatScreenState::new();
    state.message_input.set_value("   ".to_string());
    state.prepare_message_send();
    assert!(!state.pending_send);
    assert!(!state.is_sending_message);
}

#[test]
fn test_cannot_send_while_sending() {
    let mut state = ChatScreenState::new();
    state.handle_new_room(create_test_room("!a:matrix.org", "A"));
    state.room_list.state.select(Some(0));
    state.message_input.set_value("hi".to_string());
    assert!(state.can_send_message());
    state.set_sending_message(true);
    assert!(!state.can_send_message());
}

#[test]
fn test_rooms_sorted_by_unread_then_name() {
    let mut state = ChatScreenState::new();
    state.handle_new_room(room_with_unread("!c:m.org", "Charlie", 0));
    state.handle_new_room(room_with_unread("!a:m.org", "Alpha", 0));
    state.handle_new_room(room_with_unread("!b:m.org", "Bravo", 5));
    let ids: Vec<&str> = state.rooms.iter().map(|r| r.room_id.as_str()).collect();
    assert_eq!(ids, vec!["!b:m.org", "!a:m.org", "!c:m.org"]);
}

#[test]
fn test_sort_is_stable_for_ties() {
    let mut state = ChatScreenState::new();
    state.rooms.push(create_test_room("!x:m.org", "Same"));
    state.rooms.push(create_test_room("!y:m.org", "Same"));
    state.rooms.push(create_test_room("!z:m.org", "Same"));
    state.sort_rooms();
    let ids: Vec<&str> = state.rooms.iter().map(|r| r.room_id.as_str()).collect();
    assert_eq!(ids, vec!["!x:m.org", "!y:m.org", "!z:m.org"]);
}

#[test]
fn test_room_update_resorts() {
    let mut state = ChatScreenState::new();
    state.handle_new_room(room_with_unread("!a:m.org", "Alpha", 0));
    state.handle_new_room(room_with_unread("!b:m.org", "Bravo", 0));
    state.handle_room_update("!b:m.org", room_with_unread("!b:m.org", "Bravo", 2));
    assert_eq!(state.rooms[0].room_id, "!b:m.org");
    assert_eq!(state.rooms[0].unread_count, 2);
    state.handle_room_update("!missing:m.org", room_with_unread("!q:m.org", "Q", 9));
    assert_eq!(state.rooms.len(), 2);
}

#[test]
fn test_update_room_applies_updater() {
    let mut state = ChatScreenState::new();
    state.handle_new_room(room_with_unread("!a:m.org", "Alpha", 0));
    state.update_room("!a:m.org", |mut r: Room| {
        r.unread_count = 7;
        r
    });
    assert_eq!(state.rooms[0].unread_count, 7);
}

#[test]
fn test_unread_message_count() {
    let mut state = ChatScreenState::new();
    state.handle_new_room(room_with_unread("!a:m.org", "Alpha", 3));
    state.handle_new_room(room_with_unread("!b:m.org", "Bravo", 4));
    assert_eq!(state.unread_message_count(), 7);
    assert_eq!(state.filtered_room_count(), 2);
}

#[test]
fn test_removing_selected_room_selects_first() {
    let mut state = ChatScreenState::new();
    state.handle_new_room(create_test_room("!a:m.org", "Alpha"));
    state.handle_new_room(create_test_room("!b:m.org", "Bravo"));
    state.selected_room_id = Some("!a:m.org".to_string());
    state.handle_room_removal("!a:m.org");
    assert_eq!(state.room_list.state.selected, Some(0));
    assert_eq!(state.selected_room_id.as_deref(), Some("!b:m.org"));
}
