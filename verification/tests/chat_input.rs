use clitrix::ui::components::chat_input::{ChatInput, ExtendedChatInput};
use clitrix::ui::input_handler::TextInputState;

#[test]
fn test_chat_input_creation() {
    let input_state = TextInputState::default();
    let chat_input = ChatInput::new(&input_state);

    assert!(!chat_input.is_focused);
    assert!(!chat_input.is_composing);
    assert_eq!(chat_input.max_lines, 5);
}

#[test]
fn test_extended_chat_input() {
    let input_state = TextInputState::default();
    let extended_input = ExtendedChatInput::new(&input_state)
        .show_character_count(true)
        .max_characters(Some(100))
        .draft_indicator(true);

    assert!(extended_input.show_character_count);
    assert_eq!(extended_input.max_characters, Some(100));
    assert!(extended_input.draft_indicator);
}

#[test]
fn test_character_count() {
    let mut input_state = TextInputState::default();
    input_state.set_value("Hello world".to_string());

    let extended_input = ExtendedChatInput::new(&input_state)
        .show_character_count(true)
        .max_characters(Some(20));

    let count_text = extended_input.get_character_count_text();
    assert_eq!(count_text, Some("11/20".to_string()));
    assert!(!extended_input.is_over_limit());
}

#[test]
fn test_over_limit() {
    let mut input_state = TextInputState::default();
    input_state.set_value("This is a very long message that exceeds the limit".to_string());

    let extended_input = ExtendedChatInput::new(&input_state).max_characters(Some(20));

    assert!(extended_input.is_over_limit());
}
