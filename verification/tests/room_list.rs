use clitrix::data::models::{Message, MessageContent, Room, RoomType, User};
use clitrix::ui::components::room_list::{RoomList, StatefulRoomList};
use clitrix::ui::styled::{StyledLine, Tone};

fn room(id: &str, name: &str, unread: usize) -> Room {
    let mut r = Room::new(id.to_string(), RoomType::PublicRoom);
    r.display_name = Some(name.to_string());
    r.unread_count = unread;
    r
}

fn line_text(line: &StyledLine) -> String {
    line.spans.iter().map(|s| s.text.as_str()).collect()
}

fn rooms() -> Vec<Room> {
    let mut a = room("!a:m.org", "Rust Talk", 2);
    a.topic = Some("All about ownership".to_string());
    a.member_count = 12;
    a.is_encrypted = true;
    let b = room("!b:m.org", "Cooking", 0);
    let mut c = Room::new("!c:m.org".to_string(), RoomType::DirectMessage);
    c.display_name = Some("Dana".to_string());
    c.member_count = 2;
    vec![a, b, c]
}

#[test]
fn test_room_list_filters() {
    let rooms = rooms();
    let list = RoomList::new(&rooms).show_unread_only(true);
    let shown = list.get_filtered_rooms();
    assert_eq!(shown.len(), 1);
    assert_eq!(shown[0].0, 0);
    let list = RoomList::new(&rooms).filter(Some("OWNER"));
    let shown = list.get_filtered_rooms();
    assert_eq!(shown.len(), 1);
    assert_eq!(shown[0].1.room_id, "!a:m.org");
    let list = RoomList::new(&rooms).filter(Some("!b"));
    assert!(list.should_show_room(&rooms[1]));
    assert!(!list.should_show_room(&rooms[2]));
}

#[test]
fn test_room_list_title() {
    let rooms = rooms();
    let list = RoomList::new(&rooms);
    assert_eq!(list.get_title(), "Rooms (3/3) • 2 unread");
    let list = RoomList::new(&rooms).show_unread_only(true).filter(Some("rust"));
    assert_eq!(list.get_title(), "Rooms (1/3) • 2 unread [Unread Only] [Filter: rust]");
}

#[test]
fn test_room_item_lines() {
    let rooms = rooms();
    let list = RoomList::new(&rooms).selected(Some(0));
    let item = list.format_room_item(&rooms[0], true).unwrap();
    assert_eq!(item.len(), 2);
    assert_eq!(line_text(&item[0]), "🏛️ 🔐 Rust Talk (2) [12]");
    assert_eq!(item[0].spans[0].look.tone, Tone::Yellow);
    assert_eq!(line_text(&item[1]), "  💬 All about ownership");
    let item = list.format_room_item(&rooms[2], false).unwrap();
    assert_eq!(item.len(), 1);
    assert_eq!(line_text(&item[0]), "💬 Dana");
    assert_eq!(item[0].spans[2].look.tone, Tone::Gray);
}

#[test]
fn test_long_topic_is_clipped() {
    let mut r = room("!t:m.org", "T", 0);
    r.topic = Some("x".repeat(70));
    let rooms = vec![r];
    let list = RoomList::new(&rooms);
    let item = list.format_room_item(&rooms[0], true).unwrap();
    assert_eq!(line_text(&item[1]), format!("  💬 {}...", "x".repeat(57)));
}

#[test]
fn test_room_list_view() {
    let rooms = rooms();
    let list = RoomList::new(&rooms).selected(Some(2));
    let view = list.list_view().unwrap();
    assert_eq!(view.title, "Rooms (3/3) • 2 unread");
    assert_eq!(view.entries.len(), 3);
}

#[test]
fn test_stateful_room_list_view() {
    let rooms = rooms();
    let mut list = StatefulRoomList::new();
    list.select_first(&rooms);
    list.set_filter("a".to_string());
    assert_eq!(list.get_title(&rooms), "Rooms (2/3) • 2 unread [Filter: a]");
    let view = list.list_view(&rooms);
    assert_eq!(view.items.len(), 2);
    assert_eq!(line_text(&view.items[0]), "🏛️ 🔐 Rust Talk (2)");
    assert_eq!(view.items[0].spans[4].look.tone, Tone::Yellow);
    assert_eq!(line_text(&view.items[1]), "💬 Dana");
}

#[test]
fn test_selection_moves_within_filter() {
    let rooms = rooms();
    let mut list = StatefulRoomList::new();
    list.toggle_unread_filter();
    list.select_next(&rooms);
    assert_eq!(list.selected_room_index(), Some(0));
    list.toggle_unread_filter();
    list.select_next(&rooms);
    assert_eq!(list.selected_room_index(), Some(1));
    list.select_previous(&rooms);
    list.select_previous(&rooms);
    assert_eq!(list.selected_room_index(), Some(2));
    assert_eq!(list.selected_room(&rooms).unwrap().room_id, "!c:m.org");
    list.clear_filter();
    assert_eq!(list.get_filtered_room_indices(&rooms), vec![0, 1, 2]);
}

fn room_with_emote(sender_name: &str) -> Room {
    let mut sender = User::new("@s:m.org".to_string());
    sender.display_name = Some(sender_name.to_string());
    let mut msg = Message::new_text("$m".to_string(), sender, String::new());
    msg.content = MessageContent::Emote { body: "é".repeat(40) };
    let mut r = room("!e:m.org", "Emotes", 0);
    r.last_message = Some(msg);
    r
}

#[test]
fn test_selected_preview_cut_on_boundary() {
    let rooms = vec![room_with_emote("x")];
    let list = RoomList::new(&rooms).selected(Some(0));
    let view = list.list_view().unwrap();
    let lines = &view.entries[0];
    assert_eq!(lines.len(), 2);
    let preview = format!("x: * {}", "é".repeat(40));
    assert_eq!(line_text(&lines[1]), format!("  📝 {}...", &preview[..57]));
}

#[test]
fn test_selected_preview_cut_inside_character() {
    let rooms = vec![room_with_emote("xy")];
    let list = RoomList::new(&rooms).selected(Some(0));
    assert!(list.list_view().is_none());
    let unselected = RoomList::new(&rooms);
    assert!(unselected.list_view().is_some());
}
