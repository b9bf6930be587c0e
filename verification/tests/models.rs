use clitrix::models::message::{Message, MessageContent};
use clitrix::models::room::Room;

#[test]
fn test_session_message_texts() {
    let m = Message::new(
        "$1".to_string(),
        "@a:m.org".to_string(),
        None,
        MessageContent::Emote("waves".to_string()),
        0,
        false,
    );
    assert_eq!(m.get_sender_name(), "@a:m.org");
    assert_eq!(m.get_text_content(), "* waves");
    let m = Message::new(
        "$2".to_string(),
        "@a:m.org".to_string(),
        Some("Ann".to_string()),
        MessageContent::File { body: "notes".to_string(), url: "mxc://n".to_string() },
        0,
        true,
    );
    assert_eq!(m.get_sender_name(), "Ann");
    assert_eq!(m.get_text_content(), "[File: notes]");
    let unknown = Message::new("$3".to_string(), "@b:m.org".to_string(), None, MessageContent::Unknown, 0, false);
    assert_eq!(unknown.get_text_content(), "[Unknown message type]");
}

#[test]
fn test_session_room_names() {
    let mut room = Room::new("!r:m.org".to_string());
    assert_eq!(room.get_display_name(), "!r:m.org");
    room.display_name = Some("General".to_string());
    assert_eq!(room.get_display_name(), "General");
    assert_eq!(room.unread_count, 0);
}
