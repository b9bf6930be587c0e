use clitrix::screens::chat::ChatScreen;
use clitrix::app::AppState;
use clitrix::screens::Screen;
use clitrix::ui::keys::{KeyCode, KeyEvent, KeyModifiers};

#[test]
fn test_chat_screen_creation() {
    let chat = ChatScreen::default();
    assert!(!chat.is_composing);
    assert!(!chat.messages.is_empty());
    assert!(chat.message_input.is_empty());
}

#[test]
fn test_add_message() {
    let mut chat = ChatScreen::default();
    let initial_count = chat.messages.len();

    chat.add_message("Test User".to_string(), "Test message".to_string());
    assert_eq!(chat.messages.len(), initial_count + 1);

    let last_message = chat.messages.last().unwrap();
    assert_eq!(last_message.sender, "Test User");
    assert_eq!(last_message.content, "Test message");
}

#[test]
fn chat_test_send_message() {
    let mut chat = ChatScreen::default();
    chat.message_input.set_value("Hello world!".to_string());
    chat.is_composing = true;

    let initial_count = chat.messages.len();
    chat.send_current_message();

    assert_eq!(chat.messages.len(), initial_count + 1);
    assert!(chat.message_input.is_empty());
    assert!(!chat.is_composing);
}

#[test]
fn test_default_conversation() {
    let chat = ChatScreen::default();
    assert_eq!(chat.messages.len(), 3);
    assert_eq!(chat.messages[0].sender, "System");
    assert_eq!(chat.messages[1].sender, "Alice");
    assert_eq!(chat.messages[1].content, "Hello everyone! 👋");
    assert_eq!(chat.messages[2].content, "Hey Alice! How's it going?");
}

#[test]
fn test_demo_screen_views() {
    let mut chat = ChatScreen::default();
    let items = chat.message_items();
    assert_eq!(items.len(), 3);
    let first: String = items[1].spans.iter().map(|s| s.text.as_str()).collect();
    assert_eq!(first, "[12:01] Alice: Hello everyone! 👋");
    let status: String = chat.status_line().spans.iter().map(|s| s.text.as_str()).collect();
    assert_eq!(status, "Status: Ready to chat  |  Messages: 3");
    assert_eq!(chat.help_lines()[0], "💬 Chat Mode");
    assert_eq!(chat.input_box().placeholder, "Press Enter to start typing");
    let mut app = AppState::default();
    let esc = KeyEvent::new(KeyCode::Esc, KeyModifiers::none());
    assert_eq!(chat.handle_key_event(esc, &mut app), Some(Screen::Login));
    chat.is_composing = true;
    assert_eq!(chat.handle_key_event(esc, &mut app), Some(Screen::Chat));
    assert_eq!(chat.help_lines().len(), 9);
    assert!(chat.input_box().is_editing);
    let quit = KeyEvent::new(KeyCode::Char('q'), KeyModifiers::control());
    assert_eq!(chat.handle_key_event(quit, &mut app), None);
}

#[test]
fn test_message_stamps() {
    let mut chat = ChatScreen::default();
    let stamps: Vec<&str> = chat.messages.iter().map(|m| m.timestamp.as_str()).collect();
    assert_eq!(stamps, vec!["12:00", "12:01", "12:02"]);
    chat.add_message("Eve".to_string(), "hi".to_string());
    let t = chat.messages.last().unwrap().timestamp.clone();
    assert_eq!(t.len(), 5);
    assert_eq!(&t[2..3], ":");
    assert!(t[0..2].parse::<u32>().unwrap() < 24 && t[3..5].parse::<u32>().unwrap() < 60);
}
