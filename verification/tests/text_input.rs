use clitrix::ui::text_input::TextInput;

#[test]
fn test_text_input_creation() {
    let input = TextInput::new("test", 0, "Title", "Placeholder");
    assert_eq!(input.value, "test");
    assert_eq!(input.cursor_position, 0);
    assert_eq!(input.title, "Title");
    assert_eq!(input.placeholder, "Placeholder");
    assert!(!input.is_focused);
    assert!(!input.is_editing);
    assert!(!input.is_password);
}

#[test]
fn test_text_input_builder_pattern() {
    let input = TextInput::new("test", 0, "Title", "Placeholder")
        .focused(true)
        .editing(true)
        .password(true);

    assert!(input.is_focused);
    assert!(input.is_editing);
    assert!(input.is_password);
}

#[test]
fn test_password_field_utility() {
    let input = TextInput::password_field("secret", 6, "Password", "Enter password");
    assert!(input.is_focused);
    assert!(input.is_editing);
    assert!(input.is_password);
    assert_eq!(input.value, "secret");
    assert_eq!(input.cursor_position, 6);
}

#[test]
fn test_readonly_utility() {
    let input = TextInput::readonly("display_value", "Display");
    assert!(!input.is_focused);
    assert!(!input.is_editing);
    assert!(!input.is_password);
    assert_eq!(input.value, "display_value");
    assert_eq!(input.cursor_position, 0);
}

#[test]
fn test_editable_utility() {
    let input = TextInput::editable("content", 4, "Edit", "Placeholder");
    assert!(input.is_focused);
    assert!(input.is_editing);
    assert!(!input.is_password);
    assert_eq!(input.cursor_position, 4);
}
