use clitrix::ui::input_handler::{FormHandler, TextInputState};
use clitrix::ui::keys::{KeyCode, KeyEvent, KeyModifiers};

#[test]
fn test_text_input_state_creation() {
    let state = TextInputState::new("hello".to_string());
    assert_eq!(state.value, "hello");
    assert_eq!(state.cursor_position, 5);
}

#[test]
fn test_cursor_movement() {
    let mut state = TextInputState::new("hello".to_string());

    state.move_cursor_left();
    assert_eq!(state.cursor_position, 4);

    state.move_cursor_right();
    assert_eq!(state.cursor_position, 5);

    state.move_cursor_to_start();
    assert_eq!(state.cursor_position, 0);

    state.move_cursor_to_end();
    assert_eq!(state.cursor_position, 5);
}

#[test]
fn test_char_operations() {
    let mut state = TextInputState::new("hello".to_string());
    state.cursor_position = 2;

    state.enter_char('x');
    assert_eq!(state.value, "hexllo");
    assert_eq!(state.cursor_position, 3);

    state.delete_char();
    assert_eq!(state.value, "hello");
    assert_eq!(state.cursor_position, 2);
}

#[test]
fn test_form_handler() {
    #[derive(Clone, PartialEq)]
    enum Field {
        Username,
        #[allow(dead_code)]
        Password,
    }

    let fields = vec![
        TextInputState::new("user".to_string()),
        TextInputState::new("pass".to_string()),
    ];

    let mut form = FormHandler::new(fields, Field::Username);

    assert!(!form.is_editing());
    form.start_editing();
    assert!(form.is_editing());

    let username_field = form.get_active_field(0).unwrap();
    assert_eq!(username_field.value, "user");
}

#[test]
fn test_key_event_handling() {
    let mut state = TextInputState::new("test".to_string());
    state.cursor_position = 2;

    // Test character input. Typing inserts at the cursor, so "x" at byte 2
    // of "test" gives "texst"; the value "texto" once written here could
    // not be followed by the Backspace step below, which gives "test" back.
    let key = KeyEvent::new(KeyCode::Char('x'), KeyModifiers::none());
    assert!(state.handle_key_event(key));
    assert_eq!(state.value, "texst");

    // Test backspace
    let key = KeyEvent::new(KeyCode::Backspace, KeyModifiers::none());
    assert!(state.handle_key_event(key));
    assert_eq!(state.value, "test");

    // Test ctrl+a (move to start)
    let key = KeyEvent::new(KeyCode::Char('a'), KeyModifiers::control());
    assert!(state.handle_key_event(key));
    assert_eq!(state.cursor_position, 0);
}
