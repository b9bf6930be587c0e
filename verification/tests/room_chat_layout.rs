use clitrix::screens::chat::room_chat_layout::RoomChatLayout;
use clitrix::data::models::{Room, RoomType};
use clitrix::screens::chat::chat_state::{ChatFocus, ChatScreenState};
use clitrix::ui::layout::Area;

#[test]
fn test_layout_creation() {
    let layout = RoomChatLayout::new();
    assert_eq!(layout.room_list_width, 30);
    assert!(!layout.show_room_filter);
    assert!(layout.show_status_bar);
    assert!(layout.show_help);
}

#[test]
fn test_layout_configuration() {
    let layout = RoomChatLayout::new()
        .room_list_width(40)
        .show_room_filter(true)
        .show_status_bar(false)
        .show_help(false);

    assert_eq!(layout.room_list_width, 40);
    assert!(layout.show_room_filter);
    assert!(!layout.show_status_bar);
    assert!(!layout.show_help);
}

#[test]
fn test_width_constraints() {
    let layout = RoomChatLayout::new().room_list_width(10); // Too small
    assert_eq!(layout.room_list_width, 20); // Should be clamped to minimum

    let layout = RoomChatLayout::new().room_list_width(60); // Too large
    assert_eq!(layout.room_list_width, 50); // Should be clamped to maximum
}

fn line_text(line: &clitrix::ui::styled::StyledLine) -> String {
    line.spans.iter().map(|s| s.text.as_str()).collect()
}

#[test]
fn test_status_and_help_lines() {
    let layout = RoomChatLayout::new();
    let mut state = ChatScreenState::new();
    assert_eq!(line_text(&layout.status_line(&state)), "Rooms: 0 • Select a room to start chatting [ROOMS]");
    let mut room = Room::new("!a:m.org".to_string(), RoomType::PublicRoom);
    room.unread_count = 4;
    state.handle_new_room(room);
    state.focus = ChatFocus::MessageInput;
    assert_eq!(
        line_text(&layout.status_line(&state)),
        "Rooms: 1 • Unread: 4 • Select a room to start chatting [INPUT]"
    );
    assert_eq!(
        layout.help_line(&state),
        "Input: Type message • Enter Send • Esc Cancel • Ctrl+U Clear • Tab Switch"
    );
}

#[test]
fn test_section_widgets_follow_focus() {
    let layout = RoomChatLayout::new();
    let mut state = ChatScreenState::new();
    let mut room = Room::new("!a:m.org".to_string(), RoomType::PublicRoom);
    room.display_name = Some("Alpha".to_string());
    state.handle_new_room(room);
    state.room_list.state.select(Some(0));
    state.focus = ChatFocus::RoomFilter;
    let filter = layout.filter_input(&state);
    assert!(filter.is_focused && filter.is_editing);
    assert_eq!(filter.title, "Filter Rooms");
    let (list, title) = layout.message_list(&state);
    assert_eq!(title, "Messages");
    assert!(list.show_reactions);
    let input = layout.chat_input(&state);
    assert_eq!(input.room_name, Some("Alpha"));
    assert!(!input.is_composing);
    let rooms = layout.room_list(&state);
    assert_eq!(rooms.selected_index, Some(0));
    assert_eq!(rooms.filter_text, Some(""));
}

#[test]
fn test_main_layout_areas() {
    let layout = RoomChatLayout::new();
    let areas = layout.create_main_layout(Area { x: 0, y: 0, width: 100, height: 40 });
    assert_eq!(areas.room_section, Area { x: 0, y: 0, width: 30, height: 36 });
    assert_eq!(areas.chat_section, Area { x: 30, y: 0, width: 70, height: 36 });
    assert_eq!(areas.status_bar, Some(Area { x: 0, y: 36, width: 100, height: 1 }));
    assert_eq!(areas.help_section, Some(Area { x: 0, y: 37, width: 100, height: 3 }));
    let bare = RoomChatLayout::new().show_status_bar(false).show_help(false);
    let areas = bare.create_main_layout(Area { x: 0, y: 0, width: 100, height: 40 });
    assert_eq!(areas.status_bar, None);
    assert_eq!(areas.help_section, None);
    assert_eq!(areas.room_section.height, 40);
}
