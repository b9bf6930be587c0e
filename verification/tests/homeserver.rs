use clitrix::matrix_service::{
    capabilities_error_verdict, homeserver_target, normalized_homeserver_url,
    prepare_homeserver_check, HomeserverError, MatrixService,
};
use clitrix::screens::homeserver_select::{HomeserverSelectScreen, HomeserverStep};
use clitrix::screens::Screen;
use clitrix::ui::keys::{KeyCode, KeyEvent, KeyModifiers};

fn key(code: KeyCode) -> KeyEvent {
    KeyEvent::new(code, KeyModifiers::none())
}

#[test]
fn test_homeserver_urls() {
    assert_eq!(normalized_homeserver_url("matrix.org"), "https://matrix.org");
    assert_eq!(normalized_homeserver_url("http://localhost:8008"), "http://localhost:8008");
    assert_eq!(normalized_homeserver_url("https://example.com"), "https://example.com");
    let mut service = MatrixService::new();
    service.set_homeserver("example.org");
    assert_eq!(service.homeserver_url.as_deref(), Some("https://example.org"));
    assert!(matches!(homeserver_target(""), Err(HomeserverError::Empty)));
}

#[test]
fn test_homeserver_offline_checks() {
    assert_eq!(prepare_homeserver_check("matrix.org").unwrap(), "https://matrix.org");
    assert_eq!(prepare_homeserver_check("localhost:8448").unwrap(), "https://localhost:8448");
    assert!(matches!(prepare_homeserver_check(""), Err(HomeserverError::Empty)));
    assert!(matches!(prepare_homeserver_check("http://"), Err(HomeserverError::InvalidUrl)));
    assert!(matches!(prepare_homeserver_check("bad_host"), Err(HomeserverError::InvalidServerName)));
}

#[test]
fn test_capabilities_verdicts() {
    assert!(capabilities_error_verdict("401 Unauthorized").is_ok());
    assert!(capabilities_error_verdict("M_MISSING_TOKEN: No access token").is_ok());
    assert!(matches!(capabilities_error_verdict("Connection refused"), Err(HomeserverError::Unreachable)));
    match capabilities_error_verdict("teapot") {
        Err(e) => assert_eq!(e.message(), "Homeserver validation failed: teapot"),
        Ok(()) => panic!("expected a refusal"),
    }
    assert_eq!(HomeserverError::Empty.message(), "Homeserver cannot be empty");
}

#[test]
fn test_homeserver_screen_keys() {
    let mut screen = HomeserverSelectScreen::default();
    assert_eq!(screen.value.value, "matrix.org");
    assert_eq!(screen.handle_key_event_with_deps(key(KeyCode::Enter)), HomeserverStep::Validate);
    assert_eq!(screen.validation_finished(false), Screen::HomeserverSelect);
    assert!(screen.invalid);
    assert_eq!(screen.handle_key_event_with_deps(key(KeyCode::Backspace)), HomeserverStep::Stay);
    assert!(!screen.invalid);
    assert_eq!(screen.value.value, "matrix.or");
    let ctrl_c = KeyEvent::new(KeyCode::Char('c'), KeyModifiers::control());
    assert_eq!(screen.handle_key_event_with_deps(ctrl_c), HomeserverStep::Quit);
    assert_eq!(screen.handle_key_event_with_deps(key(KeyCode::Esc)), HomeserverStep::Quit);
    assert_eq!(screen.validation_finished(true), Screen::Login);
    assert!(!screen.invalid);
}

#[test]
fn test_empty_homeserver_is_invalid() {
    let mut screen = HomeserverSelectScreen::default();
    let clear = KeyEvent::new(KeyCode::Char('u'), KeyModifiers::control());
    screen.handle_key_event_with_deps(clear);
    assert_eq!(screen.value.value, "");
    assert_eq!(screen.handle_key_event_with_deps(key(KeyCode::Enter)), HomeserverStep::Stay);
    assert!(screen.invalid);
}

#[test]
fn test_homeserver_input_box() {
    let screen = HomeserverSelectScreen::default();
    let input = screen.homeserver_input();
    assert_eq!(input.value, "matrix.org");
    assert_eq!(input.title, "Homeserver");
    assert!(input.is_editing);
}

#[test]
fn test_normalizing_twice_changes_nothing() {
    for h in ["matrix.org", "http://a.b", "https://c.d", "", "httpx://e"] {
        let once = normalized_homeserver_url(h);
        assert_eq!(normalized_homeserver_url(&once), once);
    }
}
