use clitrix::ui::components::chat_input::ChatInput;
use clitrix::ui::input_handler::TextInputState;
use clitrix::ui::wrap::wrap_text;
use clitrix::ui::components::chat_input::ExtendedChatInput;

#[test]
fn chat_input_test_text_wrapping() {
    let input_state = TextInputState::default();
    let chat_input = ChatInput::new(&input_state);

    let wrapped = chat_input.wrap_text("This is a very long line that should be wrapped", 10);
    assert!(wrapped.len() > 1);

    for line in &wrapped {
        assert!(line.len() <= 10);
    }
}

#[test]
fn test_wrap_exact_lines() {
    assert_eq!(
        wrap_text("This is a very long line that should be wrapped", 10),
        vec!["This is a", "very long", "line that", "should be", "wrapped"]
    );
}

#[test]
fn test_wrap_keeps_short_lines_and_splits_at_newlines() {
    assert_eq!(wrap_text("ab\r\ncd\n\nef", 5), vec!["ab", "cd", "", "ef"]);
    assert_eq!(wrap_text("ab\n", 5), vec!["ab"]);
}

#[test]
fn test_wrap_edge_cases() {
    assert_eq!(wrap_text("", 5), vec![""]);
    assert_eq!(wrap_text("anything at all", 0), vec!["anything at all"]);
    assert_eq!(wrap_text("incomprehensibilities x", 5), vec!["incomprehensibilities", "x"]);
    assert_eq!(wrap_text("     ", 3), vec![""]);
}

#[test]
fn test_input_height_and_typing_notice() {
    let mut input_state = TextInputState::default();
    let chat_input = ChatInput::new(&input_state);
    assert_eq!(chat_input.calculate_input_height(40), 1);
    assert!(chat_input.format_typing_indicator().is_none());
    input_state.set_value("one two three four five six seven".to_string());
    let chat_input = ChatInput::new(&input_state).max_lines(3);
    assert_eq!(chat_input.calculate_input_height(14), 3);
    assert_eq!(chat_input.calculate_input_height(4), 1);
    let typing = vec!["Ann".to_string(), "Bo".to_string(), "Cy".to_string()];
    let chat_input = ChatInput::new(&input_state).typing_users(&typing);
    let notice = chat_input.format_typing_indicator().unwrap();
    assert_eq!(notice.text, "Ann, Bo and 1 others are typing...");
    assert!(notice.look.italic);
}

#[test]
fn test_composer_view_and_footer() {
    let mut input_state = TextInputState::default();
    let view = ChatInput::new(&input_state).composing(true).room_name(Some("Lobby")).layout_view(40);
    assert_eq!(view.input_height, 3);
    assert_eq!(view.typing_height, 0);
    assert_eq!(view.title, "Message to Lobby [Composing...]");
    let help: String = view.help.spans.iter().map(|s| s.text.as_str()).collect();
    assert_eq!(help, "Enter Send • Esc Cancel • Ctrl+U Clear • Ctrl+W Delete word");
    let footer = ExtendedChatInput::new(&input_state).footer_line().unwrap();
    let text: String = footer.spans.iter().map(|s| s.text.as_str()).collect();
    assert_eq!(text, "Enter message");
    input_state.set_value("hello".to_string());
    let ext = ExtendedChatInput::new(&input_state).show_character_count(true).max_characters(Some(3)).draft_indicator(true);
    let text: String = ext.footer_line().unwrap().spans.iter().map(|s| s.text.as_str()).collect();
    assert_eq!(text, "💾 Draft saved • 5/3 chars • Enter message");
    let none = ExtendedChatInput::new(&input_state).show_send_button(false);
    assert!(none.footer_line().is_none());
}
