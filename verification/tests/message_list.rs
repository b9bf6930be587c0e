use clitrix::clock::TimePattern;
use clitrix::data::models::{Message, MessageContent, User, UserPresence};
use clitrix::ui::components::message_list::{choose_time_pattern, MessageList, StatefulMessageList};
use clitrix::ui::styled::Tone;

fn create_test_message(sender_id: &str, content: &str) -> Message {
    Message::new_text(
        format!("$event_{}", sender_id),
        User {
            user_id: sender_id.to_string(),
            display_name: Some(format!("User {}", sender_id)),
            avatar_url: None,
            presence: UserPresence::Online,
        },
        content.to_string(),
    )
}

fn texts(lines: &[clitrix::ui::styled::StyledLine]) -> Vec<String> {
    lines
        .iter()
        .map(|l| l.spans.iter().map(|s| s.text.as_str()).collect::<String>())
        .collect()
}

#[test]
fn test_message_list_creation() {
    let messages = vec![
        create_test_message("@alice:matrix.org", "Hello"),
        create_test_message("@bob:matrix.org", "Hi there!"),
    ];

    let message_list = MessageList::new(&messages);
    assert_eq!(message_list.messages.len(), 2);
    assert!(message_list.show_timestamps);
    assert!(message_list.show_reactions);
}

#[test]
fn message_list_test_text_wrapping() {
    let message_list = MessageList::new(&[]);
    let wrapped = message_list.wrap_text("This is a very long line that should be wrapped", 10);

    assert!(wrapped.len() > 1);
    for line in &wrapped {
        assert!(line.len() <= 10);
    }
}

#[test]
fn test_duration_formatting() {
    let message_list = MessageList::new(&[]);

    assert_eq!(message_list.format_duration(30), "0:30");
    assert_eq!(message_list.format_duration(90), "1:30");
    assert_eq!(message_list.format_duration(3661), "1:01:01");
}

#[test]
fn test_stateful_message_list() {
    let mut stateful_list = StatefulMessageList::new();
    let messages = vec![
        create_test_message("@user1:matrix.org", "Message 1"),
        create_test_message("@user2:matrix.org", "Message 2"),
        create_test_message("@user3:matrix.org", "Message 3"),
    ];

    assert_eq!(stateful_list.scroll_offset, 0);
    assert!(stateful_list.auto_scroll);

    stateful_list.scroll_down(&messages, 2);
    assert_eq!(stateful_list.scroll_offset, 1);

    stateful_list.scroll_to_top();
    assert_eq!(stateful_list.scroll_offset, 0);
    assert!(!stateful_list.auto_scroll);
}

#[test]
fn test_scroll_bottom_and_pages() {
    let mut list = StatefulMessageList::new();
    let messages: Vec<Message> = (0..10).map(|i| create_test_message("@u:m.org", &format!("m{}", i))).collect();
    list.scroll_to_bottom(&messages, 4);
    assert_eq!(list.scroll_offset, 6);
    list.page_up(5);
    assert_eq!(list.scroll_offset, 1);
    assert!(!list.auto_scroll);
    list.page_down(&messages, 4, 100);
    assert_eq!(list.scroll_offset, 6);
    assert!(list.auto_scroll);
}

#[test]
fn test_own_messages_are_green_and_named_you() {
    let messages = vec![create_test_message("@me:m.org", "hi")];
    let list = MessageList::new(&messages).current_user(Some("@me:m.org"));
    assert!(list.is_own_message(&messages[0]));
    assert_eq!(list.format_sender_name(&messages[0]), "You");
    assert_eq!(list.get_sender_color(&messages[0]), Tone::Green);
}

#[test]
fn test_sender_color_by_hash() {
    // "a" hashes to 97, and 97 % 6 == 1.
    let messages = vec![create_test_message("a", "hi")];
    let list = MessageList::new(&messages);
    assert_eq!(list.get_sender_color(&messages[0]), Tone::Magenta);
    assert_eq!(list.format_sender_name(&messages[0]), "User a");
}

#[test]
fn test_time_pattern_choice() {
    assert_eq!(choose_time_pattern(700, 700), TimePattern::HourMinute);
    assert_eq!(choose_time_pattern(700, 694), TimePattern::WeekdayHourMinute);
    assert_eq!(choose_time_pattern(700, 693), TimePattern::MonthDayHourMinute);
}

#[test]
fn test_text_content_wraps_to_area() {
    let messages = vec![create_test_message("@a:m.org", "one two three four")];
    let list = MessageList::new(&messages);
    let view = list.format_message_content(&messages[0], 18);
    assert_eq!(texts(&view.lines), vec!["one two three", "four"]);
    assert_eq!(view.file_size, None);
}

#[test]
fn test_file_content_leaves_size_to_renderer() {
    let mut msg = create_test_message("@a:m.org", "x");
    msg.content = MessageContent::File {
        body: "report".to_string(),
        filename: "report.pdf".to_string(),
        url: "mxc://x".to_string(),
        size: Some(2048),
        mimetype: None,
    };
    let list = MessageList::new(&[]);
    let view = list.format_message_content(&msg, 80);
    assert_eq!(texts(&view.lines), vec!["📎 report.pdf"]);
    assert_eq!(view.file_size, Some(2048));
}

#[test]
fn test_audio_content_shows_duration() {
    let mut msg = create_test_message("@a:m.org", "x");
    msg.content = MessageContent::Audio { body: "song".to_string(), url: "mxc://y".to_string(), duration: Some(75) };
    let list = MessageList::new(&[]);
    let view = list.format_message_content(&msg, 80);
    assert_eq!(texts(&view.lines), vec!["🎵 song (1:15)"]);
}

#[test]
fn test_message_item_layout() {
    let messages = vec![create_test_message("@a:m.org", "hello")];
    let list = MessageList::new(&messages).show_timestamps(false);
    let item = list.format_message_item(&messages[0], 80);
    let lines = texts(&item.lines);
    assert_eq!(lines, vec!["🟢 User @a:m.org", "  hello", ""]);
}

#[test]
fn test_system_message_item_is_body_only() {
    let msg = Message::new_system("$s".to_string(), "joined".to_string());
    let list = MessageList::new(&[]);
    let item = list.format_message_item(&msg, 80);
    assert_eq!(texts(&item.lines), vec!["🔧 joined"]);
}

#[test]
fn test_list_layout_titles() {
    let empty = MessageList::new(&[]);
    let view = empty.layout(40);
    assert_eq!(view.title, "Messages");
    assert_eq!(view.empty_notice, Some("No messages yet. Start the conversation!"));
    let messages = vec![create_test_message("@a:m.org", "hello"), create_test_message("@b:m.org", "yo")];
    let view = MessageList::new(&messages).layout(40);
    assert_eq!(view.title, "Messages (2)");
    assert_eq!(view.items.len(), 2);
}

fn hour_minute_shape(t: &str) -> bool {
    let b = t.as_bytes();
    b.len() == 5
        && b[2] == b':'
        && b.iter().enumerate().all(|(i, c)| i == 2 || c.is_ascii_digit())
        && (t[0..2].parse::<u32>().unwrap() < 24)
        && (t[3..5].parse::<u32>().unwrap() < 60)
}

#[test]
fn test_timestamp_shapes() {
    let list = MessageList::new(&[]);
    let mut msg = create_test_message("@a:m.org", "x");
    let today = list.format_timestamp(&msg);
    assert!(hour_minute_shape(&today), "{}", today);
    msg.timestamp -= 3 * 24 * 3600 * 1000;
    let this_week = list.format_timestamp(&msg);
    assert_eq!(this_week.len(), 9, "{}", this_week);
    assert!(["Sun", "Mon", "Tue", "Wed", "Thu", "Fri", "Sat"].contains(&&this_week[0..3]));
    assert!(hour_minute_shape(&this_week[4..]));
    msg.timestamp -= 30 * 24 * 3600 * 1000;
    let older = list.format_timestamp(&msg);
    assert_eq!(older.len(), 11, "{}", older);
    assert_eq!(&older[2..3], "/");
    assert!(hour_minute_shape(&older[6..]));
}
