use clitrix::data::matrix_service::{dummy_event_id, dummy_sync_token, MatrixService};
use clitrix::data::models::{MatrixError, MessageContent, UserPresence};

fn signed_in() -> MatrixService {
    let mut service = MatrixService::new();
    service.login("testuser", "testpass", "matrix.org").unwrap();
    service
}

#[test]
fn test_login_success() {
    let mut service = MatrixService::new();
    let result = service.login("testuser", "testpass", "matrix.org");

    assert!(result.is_ok());
    assert!(service.is_authenticated());
    assert!(service.current_user().is_some());
}

#[test]
fn test_login_failure() {
    let mut service = MatrixService::new();
    let result = service.login("", "", "");

    assert!(result.is_err());
    assert!(!service.is_authenticated());
}

#[test]
fn test_get_rooms_unauthenticated() {
    let service = MatrixService::new();
    let result = service.get_rooms();

    assert!(result.is_err());
}

#[test]
fn matrix_service_test_send_message() {
    let service = signed_in();
    let result = service.send_message("!room:matrix.org", "Hello world!");

    assert!(result.is_ok());
}

#[test]
fn test_login_user_and_token() {
    let mut service = MatrixService::new();
    let user = service.login("alice", "pw", "example.org").unwrap();
    assert_eq!(user.user_id, "@alice:example.org");
    assert_eq!(user.display_name.as_deref(), Some("alice"));
    assert_eq!(user.presence, UserPresence::Online);
    assert_eq!(service.current_user_id(), Some("@alice:example.org"));
    assert_eq!(service.sync_token.as_deref(), Some("dummy_sync_token"));

    let mut other = MatrixService::new();
    let user = other.login("@bob:hs.org", "pw", "matrix.org").unwrap();
    assert_eq!(user.user_id, "@bob:hs.org");
}

#[test]
fn test_login_errors() {
    let mut service = MatrixService::new();
    match service.login("alice", "", "matrix.org") {
        Err(MatrixError::AuthenticationError(m)) => assert_eq!(m, "Username and password cannot be empty"),
        _ => panic!("expected an authentication error"),
    }
    match service.login("alice", "pw", "localhost") {
        Err(MatrixError::AuthenticationError(m)) => assert_eq!(m, "Invalid homeserver URL"),
        _ => panic!("expected an authentication error"),
    }
    assert!(service.current_user().is_none());
}

#[test]
fn test_dummy_rooms() {
    let rooms = signed_in().get_rooms().unwrap();
    assert_eq!(rooms.len(), 5);
    assert_eq!(rooms[0].room_id, "!direct1:matrix.org");
    assert_eq!(rooms[0].unread_count, 3);
    assert_eq!(rooms[2].display_name.as_deref(), Some("Rust Programming"));
    assert_eq!(rooms[2].member_count, 1247);
    assert_eq!(rooms[4].topic.as_deref(), Some("Top secret project discussion"));
    assert!(!rooms[2].is_encrypted);
}

#[test]
fn test_room_messages() {
    let service = signed_in();
    let direct = service.get_room_messages("!direct1:matrix.org").unwrap();
    assert_eq!(direct.len(), 5);
    assert_eq!(direct[1].sender.user_id, "@testuser:matrix.org");
    let rust = service.get_room_messages("!rust:matrix.org").unwrap();
    assert_eq!(rust.len(), 3);
    let other = service.get_room_messages("!elsewhere:matrix.org").unwrap();
    assert_eq!(other.len(), 2);
    match &other[1].content {
        MessageContent::System { message } => assert_eq!(message, "This is a dummy room: !elsewhere:matrix.org"),
        _ => panic!("expected a system message"),
    }
    assert!(MatrixService::new().get_room_messages("!rust:matrix.org").is_err());
}

#[test]
fn test_room_members() {
    let service = signed_in();
    let members = service.get_room_members("!rust:matrix.org").unwrap();
    assert_eq!(members.len(), 3);
    assert_eq!(members[0].user_id, "@testuser:matrix.org");
    assert_eq!(members[2].presence, UserPresence::Away);
}

#[test]
fn test_blank_message_is_refused() {
    let service = signed_in();
    match service.send_message("!room:matrix.org", "  \n ") {
        Err(MatrixError::MessageSendFailed(m)) => assert_eq!(m, "Message content cannot be empty"),
        _ => panic!("expected a send failure"),
    }
    match MatrixService::new().send_message("!room:matrix.org", "hi") {
        Err(MatrixError::AuthenticationError(m)) => assert_eq!(m, "Not authenticated"),
        _ => panic!("expected an authentication error"),
    }
}

#[test]
fn test_event_id_and_sync_token() {
    assert_eq!(dummy_event_id("!r:m.org", 1700000000), "$dummy_!r:m.org_1700000000");
    assert_eq!(dummy_event_id("!r:m.org", -5), "$dummy_!r:m.org_-5");
    assert_eq!(dummy_sync_token(42), "sync_token_42");
    let id = signed_in().send_message("!r:m.org", "hello").unwrap();
    assert!(id.starts_with("$dummy_!r:m.org_"));
}

#[test]
fn test_typing_sync_and_logout() {
    let mut service = signed_in();
    assert!(service.start_typing("!r:m.org").is_ok());
    assert!(service.stop_typing("!r:m.org").is_ok());
    assert!(service.sync().is_ok());
    assert!(service.sync_token.as_deref().unwrap().starts_with("sync_token_"));
    assert!(service.logout().is_ok());
    assert!(!service.is_authenticated());
    assert!(service.sync().is_err());
    assert!(service.start_typing("!r:m.org").is_err());
}
