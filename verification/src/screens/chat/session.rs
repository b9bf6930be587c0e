//! The room browser of a signed-in session: rooms with a selected index,
//! the selected room's messages and the composer. Loading and sending go
//! through the network, so a key press yields a command for the caller,
//! who reports the outcome back.
use vstd::prelude::*;

use crate::clock::{utc_clock_text, utc_representable, utc_time_of_day};
use crate::data::models::{opt_view, Message as ServiceMessage, MessageContent as ServiceContent};
use crate::models::message::{text_content, Message, MessageContent};
use crate::models::room::Room;
use crate::text::{
    copy_opt_string, copy_string, decimal, push_decimal, str_eq, str_trim, string_of, trimmed,
};
use crate::ui::styled::{
    bold_look, line_view, lines_view, plain_look, push_line, Look, StyledLine, StyledSpan, Tone,
};
use crate::ui::text_input::basic::TextInput;
use crate::ui::keys::{KeyCode, KeyEvent};
use crate::ui::text_input::input_handler::{basic_key_ok, basic_key_step, TextInputState};

verus! {

/// `c` is how the session screen holds the service content `s`: text,
/// emotes and notices keep their kind and body, a system message becomes a
/// notice, images and files keep their body and url, and audio and video,
/// which the session screen has no kind for, become `Unknown`.
pub open spec fn session_content(s: ServiceContent, c: MessageContent) -> bool {
    match s {
        ServiceContent::Text { body } => c matches MessageContent::Text(b) && b@ == body@,
        ServiceContent::Emote { body } => c matches MessageContent::Emote(b) && b@ == body@,
        ServiceContent::Notice { body } => c matches MessageContent::Notice(b) && b@ == body@,
        ServiceContent::System { message } => c matches MessageContent::Notice(b) && b@ == message@,
        ServiceContent::Image { body, url, .. } => c matches MessageContent::Image { body: b, url: u }
            && b@ == body@ && u@ == url@,
        ServiceContent::File { body, url, .. } => c matches MessageContent::File { body: b, url: u }
            && b@ == body@ && u@ == url@,
        ServiceContent::Audio { .. } => c is Unknown,
        ServiceContent::Video { .. } => c is Unknown,
    }
}

/// A service message as the session screen holds it: the same event,
/// sender, display name and time, the content as `session_content` says,
/// and marked as the user's own when `me` is the sender's id.
pub fn session_message(m: &ServiceMessage, me: Option<&str>) -> (r: Message)
    ensures
        r.event_id@ == m.event_id@,
        r.sender@ == m.sender.user_id@,
        opt_view(r.sender_display_name) == opt_view(m.sender.display_name),
        session_content(m.content, r.content),
        r.timestamp == m.timestamp,
        r.is_own_message == (me matches Some(id) && id@ == m.sender.user_id@),
{
    let content = match &m.content {
        ServiceContent::Text { body } => MessageContent::Text(copy_string(body)),
        ServiceContent::Emote { body } => MessageContent::Emote(copy_string(body)),
        ServiceContent::Notice { body } => MessageContent::Notice(copy_string(body)),
        ServiceContent::System { message } => MessageContent::Notice(copy_string(message)),
        ServiceContent::Image { body, url, .. } => MessageContent::Image {
            body: copy_string(body),
            url: copy_string(url),
        },
        ServiceContent::File { body, url, .. } => MessageContent::File {
            body: copy_string(body),
            url: copy_string(url),
        },
        ServiceContent::Audio { .. } => MessageContent::Unknown,
        ServiceContent::Video { .. } => MessageContent::Unknown,
    };
    let own = match me {
        Some(id) => str_eq(id, m.sender.user_id.as_str()),
        None => false,
    };
    Message::new(
        copy_string(&m.event_id),
        copy_string(&m.sender.user_id),
        copy_opt_string(&m.sender.display_name),
        content,
        m.timestamp,
        own,
    )
}

pub struct ChatScreen;

#[derive(Debug)]
pub struct ChatScreenState {
    pub rooms: Vec<Room>,
    pub selected_room_index: usize,
    pub messages: Vec<Message>,
    pub message_input: TextInputState,
    pub message_scroll_offset: usize,
    pub room_list_scroll_offset: usize,
    pub is_loading: bool,
    pub error_message: Option<String>,
    pub input_focused: bool,
}

/// What the caller is to do after a key press.
#[derive(Debug)]
pub enum ChatCommand {
    /// Leave the client.
    Quit,
    /// Nothing more; stay on the screen.
    Stay,
    /// Fetch the messages of the room with this id, and report them with
    /// `messages_loaded`.
    LoadMessages(String),
    /// Send `text` to the room `room_id`, report the outcome with
    /// `message_sent`, and on success fetch the room's messages again and
    /// report them with `messages_reloaded`.
    SendMessage { room_id: String, text: String },
}

/// Index after moving the selection down, wrapping to the first room.
pub open spec fn next_index(i: int, n: int) -> int {
    if n > 0 {
        (i + 1) % n
    } else {
        i
    }
}

/// Index after moving the selection up, wrapping to the last room.
pub open spec fn previous_index(i: int, n: int) -> int {
    if n > 0 {
        if i == 0 {
            n - 1
        } else {
            i - 1
        }
    } else {
        i
    }
}

/// Moving the selection down and then up returns to the room selected
/// before.
pub proof fn lemma_next_then_previous_room(i: int, n: int)
    requires
        0 <= i < n,
    ensures
        previous_index(next_index(i, n), n) == i,
{
    if i + 1 < n {
        vstd::arithmetic::div_mod::lemma_small_mod((i + 1) as nat, n as nat);
    } else {
        vstd::arithmetic::div_mod::lemma_mod_self_0(n);
    }
}

/// The keys the screen itself handles; the others go to the composer.
pub open spec fn is_screen_key(code: KeyCode) -> bool {
    ||| code == KeyCode::Esc
    ||| code == KeyCode::Tab
    ||| code == KeyCode::Up
    ||| code == KeyCode::Down
    ||| code == KeyCode::PageUp
    ||| code == KeyCode::PageDown
    ||| code == KeyCode::Enter
}

/// `prefix` followed by `detail`.
fn labelled(prefix: &str, detail: &String) -> (r: String)
    ensures
        r@ == prefix@ + detail@,
{
    let mut r = string_of(prefix);
    r.append(detail.as_str());
    r
}

impl ChatScreenState {
    pub fn default() -> (r: Self)
        ensures
            r.rooms@.len() == 0,
            r.selected_room_index == 0,
            r.messages@.len() == 0,
            r.message_input.value@ == Seq::<char>::empty(),
            r.message_input.cursor_position == 0,
            r.message_input.is_focused,
            r.message_scroll_offset == 0,
            r.room_list_scroll_offset == 0,
            !r.is_loading,
            r.error_message is None,
            r.input_focused,
    {
        Self {
            rooms: Vec::new(),
            selected_room_index: 0,
            messages: Vec::new(),
            message_input: TextInputState::new(String::new(), true),
            message_scroll_offset: 0,
            room_list_scroll_offset: 0,
            is_loading: false,
            error_message: None,
            input_focused: true,
        }
    }

    /// The room at the selected index, when there is one.
    pub open spec fn selected(&self) -> Option<Room> {
        if self.selected_room_index < self.rooms@.len() {
            Some(self.rooms@[self.selected_room_index as int])
        } else {
            None
        }
    }

    pub fn get_selected_room(&self) -> (r: Option<&Room>)
        ensures
            match self.selected() {
                Some(room) => r matches Some(x) && *x == room,
                None => r is None,
            },
    {
        if self.selected_room_index < self.rooms.len() {
            Some(&self.rooms[self.selected_room_index])
        } else {
            None
        }
    }

    /// Selects the next room, the first after the last.
    pub fn select_next_room(&mut self)
        requires
            old(self).rooms@.len() > 0 ==> old(self).selected_room_index < usize::MAX,
        ensures
            final(self).selected_room_index == next_index(
                old(self).selected_room_index as int,
                old(self).rooms@.len() as int,
            ),
            *final(self) == (Self {
                selected_room_index: final(self).selected_room_index,
                ..*old(self)
            }),
    {
        if self.rooms.len() > 0 {
            self.selected_room_index = (self.selected_room_index + 1) % self.rooms.len();
        }
    }

    /// Selects the previous room, the last before the first.
    pub fn select_previous_room(&mut self)
        ensures
            final(self).selected_room_index == previous_index(
                old(self).selected_room_index as int,
                old(self).rooms@.len() as int,
            ),
            *final(self) == (Self {
                selected_room_index: final(self).selected_room_index,
                ..*old(self)
            }),
    {
        if self.rooms.len() > 0 {
            if self.selected_room_index == 0 {
                self.selected_room_index = self.rooms.len() - 1;
            } else {
                self.selected_room_index -= 1;
            }
        }
    }

    pub fn scroll_messages_up(&mut self)
        ensures
            final(self).message_scroll_offset == if old(self).message_scroll_offset > 0 {
                old(self).message_scroll_offset - 1
            } else {
                0
            },
            *final(self) == (Self {
                message_scroll_offset: final(self).message_scroll_offset,
                ..*old(self)
            }),
    {
        if self.message_scroll_offset > 0 {
            self.message_scroll_offset -= 1;
        }
    }

    pub fn scroll_messages_down(&mut self, max_offset: usize)
        ensures
            final(self).message_scroll_offset == if old(self).message_scroll_offset < max_offset {
                old(self).message_scroll_offset + 1
            } else {
                old(self).message_scroll_offset as int
            },
            *final(self) == (Self {
                message_scroll_offset: final(self).message_scroll_offset,
                ..*old(self)
            }),
    {
        if self.message_scroll_offset < max_offset {
            self.message_scroll_offset += 1;
        }
    }

    /// The requested messages arrived (`Ok`), or the fetch failed with the
    /// given error text: the messages replace the old ones, scrolled to the
    /// top, and clear the error; a failure is shown as the error.
    pub fn messages_loaded(&mut self, result: Result<Vec<Message>, String>)
        ensures
            result matches Ok(msgs) ==> *final(self) == (Self {
                messages: msgs,
                message_scroll_offset: 0,
                error_message: None,
                ..*old(self)
            }),
            result matches Err(e) ==> {
                &&& final(self).error_message matches Some(m) && m@ == "Failed to load messages: "@
                    + e@
                &&& *final(self) == (Self { error_message: final(self).error_message, ..*old(self) })
            },
    {
        match result {
            Ok(messages) => {
                self.messages = messages;
                self.message_scroll_offset = 0;
                self.error_message = None;
            },
            Err(e) => {
                self.error_message = Some(labelled("Failed to load messages: ", &e));
            },
        }
    }

    /// A send finished: on success the composer is emptied and the error
    /// cleared, and the result asks for the messages to be fetched again;
    /// a failure is shown as the error.
    pub fn message_sent(&mut self, result: Result<(), String>) -> (reload: bool)
        ensures
            reload == result is Ok,
            result is Ok ==> {
                &&& final(self).message_input.value@ == Seq::<char>::empty()
                &&& final(self).message_input.cursor_position == 0
                &&& final(self).message_input.is_focused == old(self).message_input.is_focused
                &&& *final(self) == (Self {
                    message_input: final(self).message_input,
                    error_message: None,
                    ..*old(self)
                })
            },
            result matches Err(e) ==> {
                &&& final(self).error_message matches Some(m) && m@ == "Failed to send message: "@
                    + e@
                &&& *final(self) == (Self { error_message: final(self).error_message, ..*old(self) })
            },
    {
        match result {
            Ok(()) => {
                self.message_input.clear();
                self.error_message = None;
                true
            },
            Err(e) => {
                self.error_message = Some(labelled("Failed to send message: ", &e));
                false
            },
        }
    }

    /// The messages fetched again after a send arrived, or the fetch
    /// failed: they replace the old ones; a failure is shown as the error.
    pub fn messages_reloaded(&mut self, result: Result<Vec<Message>, String>)
        ensures
            result matches Ok(msgs) ==> *final(self) == (Self { messages: msgs, ..*old(self) }),
            result matches Err(e) ==> {
                &&& final(self).error_message matches Some(m) && m@
                    == "Failed to reload messages: "@ + e@
                &&& *final(self) == (Self { error_message: final(self).error_message, ..*old(self) })
            },
    {
        match result {
            Ok(messages) => {
                self.messages = messages;
            },
            Err(e) => {
                self.error_message = Some(labelled("Failed to reload messages: ", &e));
            },
        }
    }

    /// The command after a change of selection: fetch the selected room's
    /// messages, or nothing when no room is selected.
    fn load_selected(&self) -> (c: ChatCommand)
        ensures
            match self.selected() {
                Some(room) => c matches ChatCommand::LoadMessages(id) && id@ == room.room_id@,
                None => c is Stay,
            },
    {
        match self.get_selected_room() {
            Some(room) => ChatCommand::LoadMessages(copy_string(&room.room_id)),
            None => ChatCommand::Stay,
        }
    }
}

impl ChatScreen {
    pub fn new() -> (r: Self) {
        ChatScreen
    }

    /// What a key does: Esc quits; Tab moves the focus between the room
    /// list and the composer; Up and Down, with the room list focused,
    /// select another room and ask for its messages; PageUp and PageDown
    /// scroll the messages; Enter, with the composer focused, asks to send
    /// its trimmed text to the selected room; any other key goes to the
    /// composer when it has the focus.
    pub fn handle_key_event(&self, key: KeyEvent, state: &mut ChatScreenState) -> (r: ChatCommand)
        requires
            key.code == KeyCode::Down && !old(state).input_focused && old(state).rooms@.len() > 0
                ==> old(state).selected_room_index < usize::MAX,
            !is_screen_key(key.code) && old(state).input_focused ==> basic_key_ok(
                old(state).message_input.value@,
                old(state).message_input.cursor_position as int,
                key,
            ),
        ensures
            key.code == KeyCode::Esc ==> r is Quit && *final(state) == *old(state),
            key.code == KeyCode::Tab ==> {
                &&& r is Stay
                &&& final(state).input_focused == !old(state).input_focused
                &&& final(state).message_input.is_focused == !old(state).input_focused
                &&& final(state).message_input.value == old(state).message_input.value
                &&& final(state).message_input.cursor_position
                    == old(state).message_input.cursor_position
                &&& *final(state) == (ChatScreenState {
                    input_focused: final(state).input_focused,
                    message_input: final(state).message_input,
                    ..*old(state)
                })
            },
            (key.code == KeyCode::Up || key.code == KeyCode::Down) && old(state).input_focused
                ==> r is Stay && *final(state) == *old(state),
            (key.code == KeyCode::Up || key.code == KeyCode::Down) && !old(state).input_focused
                ==> {
                &&& final(state).selected_room_index == if key.code == KeyCode::Up {
                    previous_index(
                        old(state).selected_room_index as int,
                        old(state).rooms@.len() as int,
                    )
                } else {
                    next_index(
                        old(state).selected_room_index as int,
                        old(state).rooms@.len() as int,
                    )
                }
                &&& *final(state) == (ChatScreenState {
                    selected_room_index: final(state).selected_room_index,
                    ..*old(state)
                })
                &&& match final(state).selected() {
                    Some(room) => r matches ChatCommand::LoadMessages(id) && id@ == room.room_id@,
                    None => r is Stay,
                }
            },
            key.code == KeyCode::PageUp ==> r is Stay && *final(state) == (ChatScreenState {
                message_scroll_offset: if old(state).message_scroll_offset > 0 {
                    (old(state).message_scroll_offset - 1) as usize
                } else {
                    0
                },
                ..*old(state)
            }),
            key.code == KeyCode::PageDown ==> {
                let last: int = if old(state).messages@.len() > 0 {
                    old(state).messages@.len() - 1
                } else {
                    0
                };
                &&& r is Stay
                &&& final(state).message_scroll_offset == if old(state).message_scroll_offset
                    < last {
                    old(state).message_scroll_offset + 1
                } else {
                    old(state).message_scroll_offset as int
                }
                &&& *final(state) == (ChatScreenState {
                    message_scroll_offset: final(state).message_scroll_offset,
                    ..*old(state)
                })
            },
            key.code == KeyCode::Enter ==> {
                &&& *final(state) == *old(state)
                &&& if old(state).input_focused && trimmed(old(state).message_input.value@).len()
                    > 0 && old(state).selected() is Some {
                    r matches ChatCommand::SendMessage { room_id, text } && room_id@ == old(
                        state,
                    ).selected()->0.room_id@ && text@ == trimmed(old(state).message_input.value@)
                } else {
                    r is Stay
                }
            },
            !is_screen_key(key.code) ==> {
                &&& r is Stay
                &&& !old(state).input_focused ==> *final(state) == *old(state)
                &&& old(state).input_focused ==> {
                    &&& (final(state).message_input.value@,
                        final(state).message_input.cursor_position as int) == (basic_key_step(
                        old(state).message_input.value@,
                        old(state).message_input.cursor_position as int,
                        key,
                    ).0, basic_key_step(
                        old(state).message_input.value@,
                        old(state).message_input.cursor_position as int,
                        key,
                    ).1)
                    &&& final(state).message_input.is_focused
                        == old(state).message_input.is_focused
                    &&& *final(state) == (ChatScreenState {
                        message_input: final(state).message_input,
                        ..*old(state)
                    })
                }
            },
    {
        match key.code {
            KeyCode::Esc => ChatCommand::Quit,
            KeyCode::Tab => {
                state.input_focused = !state.input_focused;
                state.message_input.is_focused = state.input_focused;
                ChatCommand::Stay
            },
            KeyCode::Up => {
                if !state.input_focused {
                    state.select_previous_room();
                    state.load_selected()
                } else {
                    ChatCommand::Stay
                }
            },
            KeyCode::Down => {
                if !state.input_focused {
                    state.select_next_room();
                    state.load_selected()
                } else {
                    ChatCommand::Stay
                }
            },
            KeyCode::PageUp => {
                state.scroll_messages_up();
                ChatCommand::Stay
            },
            KeyCode::PageDown => {
                let max_offset = state.messages.len().saturating_sub(1);
                state.scroll_messages_down(max_offset);
                ChatCommand::Stay
            },
            KeyCode::Enter => {
                if state.input_focused {
                    let message = str_trim(state.message_input.value.as_str());
                    if !message.is_empty() {
                        if let Some(room) = state.get_selected_room() {
                            return ChatCommand::SendMessage {
                                room_id: copy_string(&room.room_id),
                                text: string_of(message),
                            };
                        }
                    }
                }
                ChatCommand::Stay
            },
            _ => {
                if state.input_focused {
                    state.message_input.handle_key_event(key);
                }
                ChatCommand::Stay
            },
        }
    }
}

/// What the message pane shows: its title, and either a notice (no
/// messages) or the visible lines, with a scrollbar `(content length,
/// position)` when the messages overflow the pane.
#[derive(Debug)]
pub struct MessagePaneView {
    pub title: String,
    pub empty_notice: Option<&'static str>,
    pub lines: Vec<StyledLine>,
    pub scrollbar: Option<(usize, usize)>,
}

/// A room's line in the list: `> ` and bold yellow for the selected room,
/// the name, and the unread count in red.
pub open spec fn room_entry(room: Room, selected: bool) -> Seq<(Seq<char>, Look)> {
    seq![
        (if selected { "> "@ } else { "  "@ }, plain_look(Tone::Plain)),
        (room.shown_name(), if selected { bold_look(Tone::Yellow) } else { plain_look(Tone::White) }),
        (
            if room.unread_count > 0 {
                " ("@ + decimal(room.unread_count as nat) + ")"@
            } else {
                Seq::empty()
            },
            plain_look(Tone::Red),
        ),
    ]
}

/// A message's line: `[time] ` (UTC `HH:MM:SS`, empty where chrono cannot
/// place the instant), the sender in bold (green for the user's own
/// messages, blue for others), the text.
pub open spec fn message_entry(m: Message) -> Seq<(Seq<char>, Look)> {
    let t = if utc_representable(m.timestamp as int) {
        utc_time_of_day(m.timestamp as int)
    } else {
        Seq::empty()
    };
    seq![
        ("["@ + t + "] "@, plain_look(Tone::DarkGray)),
        (m.sender_name() + ": "@, bold_look(if m.is_own_message { Tone::Green } else { Tone::Blue })),
        (text_content(m.content), plain_look(Tone::Plain)),
    ]
}

impl ChatScreen {
    /// One line per room (see `room_entry`).
    pub fn room_lines(&self, state: &ChatScreenState) -> (r: Vec<StyledLine>)
        ensures
            lines_view(r@).len() == state.rooms@.len(),
            forall|k: int|
                0 <= k < state.rooms@.len() ==> #[trigger] lines_view(r@)[k] == room_entry(
                    state.rooms@[k],
                    k == state.selected_room_index,
                ),
    {
        let mut items: Vec<StyledLine> = Vec::new();
        let mut idx: usize = 0;
        while idx < state.rooms.len()
            invariant
                idx <= state.rooms@.len(),
                lines_view(items@).len() == idx,
                forall|k: int|
                    0 <= k < idx ==> #[trigger] lines_view(items@)[k] == room_entry(
                        state.rooms@[k],
                        k == state.selected_room_index,
                    ),
            decreases state.rooms@.len() - idx,
        {
            let room = &state.rooms[idx];
            let is_selected = idx == state.selected_room_index;
            let style = if is_selected {
                Look::bold(Tone::Yellow)
            } else {
                Look::plain(Tone::White)
            };
            let prefix = if is_selected {
                "> "
            } else {
                "  "
            };
            let unread_indicator = if room.unread_count > 0 {
                let mut t = string_of(" (");
                push_decimal(&mut t, room.unread_count);
                t.append(")");
                t
            } else {
                String::new()
            };
            let mut line = StyledLine::single(StyledSpan::from_str(prefix, Look::plain(Tone::Plain)));
            line.push(StyledSpan::new(room.get_display_name(), style));
            line.push(StyledSpan::new(unread_indicator, Look::plain(Tone::Red)));
            assert(line_view(line) =~= room_entry(*room, is_selected));
            let ghost before = items@;
            push_line(&mut items, line);
            idx += 1;
        }
        items
    }

    /// The message pane for a pane `visible_height` lines high (see
    /// `MessagePaneView`): the messages from the scroll offset on that fit.
    pub fn message_pane(&self, state: &ChatScreenState, visible_height: usize) -> (r: MessagePaneView)
        requires
            state.messages@.len() > 0 ==> state.message_scroll_offset <= state.messages@.len(),
            state.message_scroll_offset + visible_height <= usize::MAX,
        ensures
            r.title@ == match state.selected() {
                Some(room) => "Chat - "@ + room.shown_name(),
                None => "Chat"@,
            },
            state.messages@.len() == 0 ==> {
                &&& r.empty_notice matches Some(t) && t@ == "No messages yet. Start chatting!"@
                &&& r.lines@.len() == 0
                &&& r.scrollbar is None
            },
            state.messages@.len() > 0 ==> {
                let start = state.message_scroll_offset as int;
                let total = state.messages@.len() as int;
                let end = if start + visible_height < total {
                    start + visible_height
                } else {
                    total
                };
                &&& r.empty_notice is None
                &&& lines_view(r.lines@) == state.messages@.subrange(start, end).map_values(
                    |m: Message| message_entry(m),
                )
                &&& r.scrollbar == if total > visible_height {
                    Some(((total - visible_height) as usize, state.message_scroll_offset))
                } else {
                    None
                }
            },
    {
        let title = match state.get_selected_room() {
            Some(room) => {
                let mut t = string_of("Chat - ");
                let name = room.get_display_name();
                t.append(name.as_str());
                t
            },
            None => string_of("Chat"),
        };
        let total_messages = state.messages.len();
        if total_messages == 0 {
            return MessagePaneView {
                title,
                empty_notice: Some("No messages yet. Start chatting!"),
                lines: Vec::new(),
                scrollbar: None,
            };
        }
        let scroll_offset = state.message_scroll_offset;
        let start_idx = scroll_offset;
        let end_idx = if scroll_offset + visible_height < total_messages {
            scroll_offset + visible_height
        } else {
            total_messages
        };
        let ghost shown = state.messages@.subrange(start_idx as int, end_idx as int);
        let mut lines: Vec<StyledLine> = Vec::new();
        let mut k: usize = start_idx;
        while k < end_idx
            invariant
                start_idx <= k <= end_idx,
                end_idx <= state.messages@.len(),
                shown == state.messages@.subrange(start_idx as int, end_idx as int),
                lines_view(lines@) == state.messages@.subrange(start_idx as int, k as int).map_values(
                    |m: Message| message_entry(m),
                ),
            decreases end_idx - k,
        {
            let message = &state.messages[k];
            let timestamp = match utc_clock_text(message.timestamp) {
                Some(t) => t,
                None => String::new(),
            };
            let mut stamp = string_of("[");
            stamp.append(timestamp.as_str());
            stamp.append("] ");
            let mut sender = message.get_sender_name();
            sender.append(": ");
            let tone = if message.is_own_message {
                Tone::Green
            } else {
                Tone::Blue
            };
            let mut line = StyledLine::single(StyledSpan::new(stamp, Look::plain(Tone::DarkGray)));
            line.push(StyledSpan::new(sender, Look::bold(tone)));
            line.push(StyledSpan::new(message.get_text_content(), Look::plain(Tone::Plain)));
            assert(line_view(line) =~= message_entry(*message));
            push_line(&mut lines, line);
            k += 1;
            assert(state.messages@.subrange(start_idx as int, k as int).map_values(
                |m: Message| message_entry(m),
            ) =~= state.messages@.subrange(start_idx as int, k - 1).map_values(
                |m: Message| message_entry(m),
            ).push(message_entry(state.messages@[k - 1])));
        }
        let scrollbar = if total_messages > visible_height {
            Some((total_messages - visible_height, scroll_offset))
        } else {
            None
        };
        MessagePaneView { title, empty_notice: None, lines, scrollbar }
    }

    /// The composer box: the draft, titled `Message`, focused with the
    /// composer.
    pub fn message_input_box<'a>(&self, state: &'a ChatScreenState) -> (r: TextInput<'a>)
        ensures
            r.value@ == state.message_input.value@,
            r.cursor_position == state.message_input.cursor_position,
            r.title@ == "Message"@,
            r.placeholder@ == "Type your message..."@,
            !r.mask_input,
            r.is_focused == state.input_focused,
    {
        TextInput::new(
            state.message_input.value.as_str(),
            state.message_input.cursor_position,
            "Message",
            "Type your message...",
            false,
            state.input_focused,
        )
    }
}

} // verus!
