use clitrix::models::message::{Message, MessageContent};
use clitrix::models::room::Room;
use clitrix::data::models::{Message as ServiceMessage, MessageContent as ServiceContent, User};
use clitrix::screens::chat::session::{session_message, ChatCommand, ChatScreen, ChatScreenState};
use clitrix::ui::keys::{KeyCode, KeyEvent, KeyModifiers};

fn key(code: KeyCode) -> KeyEvent {
    KeyEvent::new(code, KeyModifiers::none())
}

fn state_with_rooms() -> ChatScreenState {
    let mut state = ChatScreenState::default();
    state.rooms.push(Room::new("!a:m.org".to_string()));
    state.rooms.push(Room::new("!b:m.org".to_string()));
    state
}

#[test]
fn test_session_defaults() {
    let state = ChatScreenState::default();
    assert!(state.input_focused);
    assert!(state.message_input.is_focused);
    assert!(state.get_selected_room().is_none());
}

#[test]
fn test_escape_quits_and_tab_toggles_focus() {
    let screen = ChatScreen::new();
    let mut state = ChatScreenState::default();
    assert!(matches!(screen.handle_key_event(key(KeyCode::Esc), &mut state), ChatCommand::Quit));
    assert!(matches!(screen.handle_key_event(key(KeyCode::Tab), &mut state), ChatCommand::Stay));
    assert!(!state.input_focused);
    assert!(!state.message_input.is_focused);
}

#[test]
fn test_room_selection_asks_for_messages() {
    let screen = ChatScreen::new();
    let mut state = state_with_rooms();
    state.input_focused = false;
    match screen.handle_key_event(key(KeyCode::Down), &mut state) {
        ChatCommand::LoadMessages(id) => assert_eq!(id, "!b:m.org"),
        other => panic!("unexpected {:?}", other),
    }
    match screen.handle_key_event(key(KeyCode::Down), &mut state) {
        ChatCommand::LoadMessages(id) => assert_eq!(id, "!a:m.org"),
        other => panic!("unexpected {:?}", other),
    }
    match screen.handle_key_event(key(KeyCode::Up), &mut state) {
        ChatCommand::LoadMessages(id) => assert_eq!(id, "!b:m.org"),
        other => panic!("unexpected {:?}", other),
    }
}

#[test]
fn test_enter_sends_trimmed_text() {
    let screen = ChatScreen::new();
    let mut state = state_with_rooms();
    for c in "  hi there ".chars() {
        screen.handle_key_event(key(KeyCode::Char(c)), &mut state);
    }
    match screen.handle_key_event(key(KeyCode::Enter), &mut state) {
        ChatCommand::SendMessage { room_id, text } => {
            assert_eq!(room_id, "!a:m.org");
            assert_eq!(text, "hi there");
        }
        other => panic!("unexpected {:?}", other),
    }
    assert!(state.message_sent(Ok(())));
    assert_eq!(state.message_input.value, "");
    assert!(!state.message_sent(Err("timeout".to_string())));
    assert_eq!(state.error_message.as_deref(), Some("Failed to send message: timeout"));
}

#[test]
fn test_loaded_messages() {
    let mut state = state_with_rooms();
    state.message_scroll_offset = 4;
    state.messages_loaded(Err("boom".to_string()));
    assert_eq!(state.error_message.as_deref(), Some("Failed to load messages: boom"));
    let msg = Message::new("$e".to_string(), "@a:m.org".to_string(), None, MessageContent::Text("x".to_string()), 0, false);
    state.messages_loaded(Ok(vec![msg]));
    assert_eq!(state.messages.len(), 1);
    assert_eq!(state.message_scroll_offset, 0);
    assert!(state.error_message.is_none());
    state.messages_reloaded(Err("gone".to_string()));
    assert_eq!(state.error_message.as_deref(), Some("Failed to reload messages: gone"));
}

#[test]
fn test_paging_messages() {
    let screen = ChatScreen::new();
    let mut state = state_with_rooms();
    screen.handle_key_event(key(KeyCode::PageDown), &mut state);
    assert_eq!(state.message_scroll_offset, 0);
    for i in 0..3 {
        state.messages.push(Message::new(format!("${}", i), "@a:m.org".to_string(), None, MessageContent::Unknown, 0, false));
    }
    screen.handle_key_event(key(KeyCode::PageDown), &mut state);
    screen.handle_key_event(key(KeyCode::PageDown), &mut state);
    screen.handle_key_event(key(KeyCode::PageDown), &mut state);
    assert_eq!(state.message_scroll_offset, 2);
    screen.handle_key_event(key(KeyCode::PageUp), &mut state);
    assert_eq!(state.message_scroll_offset, 1);
}

#[test]
fn test_room_lines_and_pane() {
    let screen = ChatScreen::new();
    let mut state = state_with_rooms();
    state.rooms[1].unread_count = 2;
    state.rooms[1].display_name = Some("Bee".to_string());
    let lines = screen.room_lines(&state);
    let texts: Vec<String> = lines.iter().map(|l| l.spans.iter().map(|s| s.text.as_str()).collect()).collect();
    assert_eq!(texts, vec!["> !a:m.org", "  Bee (2)"]);
    let pane = screen.message_pane(&state, 5);
    assert_eq!(pane.title, "Chat - !a:m.org");
    assert_eq!(pane.empty_notice, Some("No messages yet. Start chatting!"));
    for i in 0..4 {
        state.messages.push(Message::new(format!("${}", i), "@a:m.org".to_string(), Some("Ann".to_string()), MessageContent::Text(format!("m{}", i)), 0, i == 0));
    }
    state.message_scroll_offset = 1;
    let pane = screen.message_pane(&state, 2);
    assert_eq!(pane.lines.len(), 2);
    let line: String = pane.lines[0].spans.iter().map(|s| s.text.as_str()).collect();
    assert_eq!(line, "[00:00:00] Ann: m1");
    assert_eq!(pane.scrollbar, Some((2, 1)));
    let input = screen.message_input_box(&state);
    assert_eq!(input.title, "Message");
    assert!(input.is_focused);
}

#[test]
fn test_down_then_up_returns() {
    let mut state = state_with_rooms();
    state.rooms.push(Room::new("!c:m.org".to_string()));
    for start in 0..3 {
        state.selected_room_index = start;
        state.select_next_room();
        state.select_previous_room();
        assert_eq!(state.selected_room_index, start);
    }
}

#[test]
fn test_pane_clock_is_utc_time_of_day() {
    let screen = ChatScreen::new();
    let mut state = state_with_rooms();
    state.messages.push(Message::new("$x".to_string(), "@a:m.org".to_string(), None, MessageContent::Text("hi".to_string()), 3_723_000, false));
    state.messages.push(Message::new("$y".to_string(), "@a:m.org".to_string(), None, MessageContent::Text("yo".to_string()), -1_000, false));
    let pane = screen.message_pane(&state, 5);
    let line: String = pane.lines[0].spans.iter().map(|s| s.text.as_str()).collect();
    assert_eq!(line, "[01:02:03] @a:m.org: hi");
    let line: String = pane.lines[1].spans.iter().map(|s| s.text.as_str()).collect();
    assert_eq!(line, "[23:59:59] @a:m.org: yo");
}

#[test]
fn test_session_message_conversion() {
    let mut sender = User::new("@ann:m.org".to_string());
    sender.display_name = Some("Ann".to_string());
    let mut m = ServiceMessage::new_text("$1".to_string(), sender, "hello".to_string());
    m.timestamp = 42;
    let s = session_message(&m, Some("@ann:m.org"));
    assert_eq!(s.event_id, "$1");
    assert_eq!(s.sender, "@ann:m.org");
    assert_eq!(s.sender_display_name, Some("Ann".to_string()));
    assert_eq!(s.timestamp, 42);
    assert!(s.is_own_message);
    assert!(matches!(s.content, MessageContent::Text(ref b) if b == "hello"));
    m.content = ServiceContent::System { message: "joined".to_string() };
    let s = session_message(&m, Some("@bob:m.org"));
    assert!(!s.is_own_message);
    assert!(matches!(s.content, MessageContent::Notice(ref b) if b == "joined"));
    m.content = ServiceContent::Audio { body: "a".to_string(), url: "mxc://a".to_string(), duration: None };
    assert!(matches!(session_message(&m, None).content, MessageContent::Unknown));
}

#[test]
fn test_pane_clock_at_calendar_edges() {
    let screen = ChatScreen::new();
    let mut state = state_with_rooms();
    for (i, ts) in [8_210_266_876_799_999i64, 8_210_266_876_800_000, -8_334_601_228_800_000, -8_334_601_228_800_001].iter().enumerate() {
        state.messages.push(Message::new(format!("${}", i), "@a:m.org".to_string(), None, MessageContent::Text("t".to_string()), *ts, false));
    }
    let pane = screen.message_pane(&state, 10);
    let texts: Vec<String> = pane.lines.iter().map(|l| l.spans.iter().map(|s| s.text.as_str()).collect()).collect();
    assert_eq!(texts, vec!["[23:59:59] @a:m.org: t", "[] @a:m.org: t", "[00:00:00] @a:m.org: t", "[] @a:m.org: t"]);
}
