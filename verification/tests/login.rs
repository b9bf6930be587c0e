use clitrix::app::{AppState, LoginForm};
use clitrix::screens::login::{LoginField, LoginScreen};
use clitrix::screens::Screen;
use clitrix::ui::keys::{KeyCode, KeyEvent, KeyModifiers};
use clitrix::ui::layout::Area;

fn key(code: KeyCode) -> KeyEvent {
    KeyEvent::new(code, KeyModifiers::none())
}

fn ctrl(c: char) -> KeyEvent {
    KeyEvent::new(KeyCode::Char(c), KeyModifiers::control())
}

fn type_text(screen: &LoginScreen, app: &mut AppState, text: &str) {
    for c in text.chars() {
        assert_eq!(screen.handle_key_event(key(KeyCode::Char(c)), app), Some(Screen::Login));
    }
}

#[test]
fn test_login_form_defaults() {
    let form = LoginForm::default();
    assert_eq!(form.homeserver, "matrix.org");
    assert_eq!(form.homeserver_cursor, 10);
    assert_eq!(form.active_field, 0);
    assert!(!form.is_valid());
}

#[test]
fn test_field_navigation_and_editing() {
    let mut form = LoginForm::default();
    form.enter_char('a');
    form.enter_char('b');
    assert_eq!(form.get_field_value(0), "ab");
    form.move_cursor_left();
    form.delete_char();
    assert_eq!(form.get_field_value(0), "b");
    assert_eq!(form.get_field_cursor(0), 0);
    form.next_field();
    form.next_field();
    assert_eq!(form.active_field, 2);
    form.next_field();
    assert_eq!(form.active_field, 0);
    form.previous_field();
    assert_eq!(form.active_field, 2);
    assert_eq!(form.get_field_value(7), "");
    form.clear();
    assert_eq!(form.get_field_value(0), "");
    assert_eq!(form.homeserver, "matrix.org");
}

#[test]
fn test_login_fields() {
    assert_eq!(LoginField::from_index(1), LoginField::Password);
    assert_eq!(LoginField::from_index(9), LoginField::Username);
    assert_eq!(LoginField::Homeserver.to_index(), 2);
    let screen = LoginScreen;
    assert_eq!(screen.get_field_title(&LoginField::Password), "Password");
    assert_eq!(screen.get_field_placeholder(&LoginField::Username), "@username");
}

#[test]
fn test_quit_keys() {
    let screen = LoginScreen;
    let mut app = AppState::default();
    assert_eq!(screen.handle_key_event(key(KeyCode::Char('q')), &mut app), None);
    assert_eq!(screen.handle_key_event(ctrl('c'), &mut app), None);
    app.login_form.editing = true;
    assert_eq!(screen.handle_key_event(key(KeyCode::Char('q')), &mut app), Some(Screen::Login));
    assert_eq!(app.login_form.username, "q");
    assert_eq!(screen.handle_key_event(ctrl('c'), &mut app), None);
}

#[test]
fn test_sign_in_from_form() {
    let screen = LoginScreen;
    let mut app = AppState::default();
    assert_eq!(screen.handle_key_event(key(KeyCode::Enter), &mut app), Some(Screen::Login));
    assert!(app.login_form.editing);
    type_text(&screen, &mut app, "alice");
    assert_eq!(screen.handle_key_event(key(KeyCode::Tab), &mut app), Some(Screen::Login));
    type_text(&screen, &mut app, "secret");
    assert_eq!(screen.handle_key_event(key(KeyCode::Enter), &mut app), Some(Screen::Chat));
    assert!(!app.login_form.editing);
    assert!(app.logged_in);
    assert_eq!(app.current_screen, Screen::Chat);
    assert_eq!(app.profile.username, "alice");
    assert_eq!(app.profile.homeserver, "matrix.org");
    let user = app.matrix_service.current_user.as_ref().unwrap();
    assert_eq!(user.user_id, "@alice:matrix.org");
    assert!(app.matrix_service.is_authenticated);
    assert_eq!(app.chat_state.current_user.as_ref().unwrap().user_id, "@alice:matrix.org");
}

#[test]
fn test_incomplete_form_stays() {
    let screen = LoginScreen;
    let mut app = AppState::default();
    assert_eq!(screen.handle_key_event(ctrl('l'), &mut app), Some(Screen::Login));
    assert!(!app.logged_in);
    app.login_form.username = "bob".to_string();
    app.login_form.password = "pw".to_string();
    assert_eq!(screen.handle_key_event(ctrl('l'), &mut app), Some(Screen::Chat));
    assert!(app.logged_in);
}

#[test]
fn test_shift_tab_goes_back() {
    let screen = LoginScreen;
    let mut app = AppState::default();
    let back = KeyEvent::new(KeyCode::Tab, KeyModifiers::shift());
    screen.handle_key_event(back, &mut app);
    assert_eq!(app.login_form.active_field, 2);
    screen.handle_key_event(key(KeyCode::Tab), &mut app);
    assert_eq!(app.login_form.active_field, 0);
}

#[test]
fn test_logout_resets_everything() {
    let screen = LoginScreen;
    let mut app = AppState::default();
    app.login_form.username = "bob".to_string();
    app.login_form.password = "pw".to_string();
    screen.handle_key_event(ctrl('l'), &mut app);
    app.logout();
    assert!(!app.logged_in);
    assert_eq!(app.current_screen, Screen::Login);
    assert_eq!(app.login_form.username, "");
    assert_eq!(app.profile.homeserver, "matrix.org");
    assert!(app.matrix_service.current_user.is_none());
    assert!(app.chat_state.current_user.is_none());
    app.set_screen(Screen::HomeserverSelect);
    assert_eq!(app.current_screen, Screen::HomeserverSelect);
}

#[test]
fn test_field_inputs_and_instructions() {
    let screen = LoginScreen;
    let mut app = AppState::default();
    app.login_form.password = "pw".to_string();
    let password = screen.field_input(&LoginField::Password, &app, true);
    assert!(password.is_password && password.is_focused && !password.is_editing);
    assert_eq!(password.value, "pw");
    app.login_form.editing = true;
    let server = screen.field_input(&LoginField::Homeserver, &app, true);
    assert!(server.is_editing);
    assert_eq!(server.cursor_position, 10);
    let user = screen.field_input(&LoginField::Username, &app, false);
    assert!(!user.is_focused && !user.is_editing);
    assert_eq!(screen.instructions(true)[0], "ESC - Stop editing");
    assert_eq!(screen.instructions(false)[2], "Ctrl+L - Submit login");
}

#[test]
fn test_center_rect() {
    let screen = LoginScreen;
    let r = screen.center_rect(50, 60, Area { x: 0, y: 0, width: 100, height: 50 });
    assert_eq!(r, Area { x: 25, y: 10, width: 50, height: 30 });
}

#[test]
fn test_form_typing_then_backspace_restores() {
    let mut form = LoginForm::default();
    form.next_field();
    form.next_field();
    form.move_cursor_left();
    let before = (form.username.clone(), form.password.clone(), form.homeserver.clone(), form.homeserver_cursor, form.active_field);
    form.enter_char('é');
    assert_eq!(form.homeserver, "matrix.orég");
    form.delete_char();
    let after = (form.username.clone(), form.password.clone(), form.homeserver.clone(), form.homeserver_cursor, form.active_field);
    assert_eq!(after, before);
}

#[test]
fn test_backspace_at_field_start_changes_nothing() {
    let mut form = LoginForm::default();
    form.next_field();
    form.next_field();
    form.homeserver_cursor = 0;
    form.delete_char();
    assert_eq!(form.homeserver, "matrix.org");
    assert_eq!(form.homeserver_cursor, 0);
    assert_eq!(form.active_field, 2);
}
