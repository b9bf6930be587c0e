//! The demonstration chat screen: a message history and a composer.
use vstd::prelude::*;

use crate::app::AppState;
use crate::clock::{hour_minute_text, local_time_text, now_millis, TimePattern};
use crate::screens::Screen;
use crate::text::{copy_string, decimal, push_decimal, str_eq, string_of};
use crate::ui::input_handler::TextInputState;
use crate::ui::keys::{KeyCode, KeyEvent};
use crate::ui::styled::{
    bold_look, italic_look, line_view, lines_view, plain_look, push_line, Look, StyledLine,
    StyledSpan, Tone,
};
use crate::ui::text_input::TextInput;

pub mod chat_state;
pub mod room_chat_layout;
pub mod session;

verus! {

#[derive(Debug)]
pub struct ChatScreen {
    pub message_input: TextInputState,
    pub messages: Vec<ChatMessage>,
    pub is_composing: bool,
}

#[derive(Debug)]
pub struct ChatMessage {
    pub sender: String,
    pub content: String,
    pub timestamp: String,
}

/// `(sender, content, time)` of a message.
pub open spec fn chat_message_view(m: ChatMessage) -> (Seq<char>, Seq<char>, Seq<char>) {
    (m.sender@, m.content@, m.timestamp@)
}

/// A stamp as a new message gets it: the local hour and minute (`HH:MM`),
/// or nothing where chrono cannot place the current instant.
pub open spec fn stamp_ok(t: Seq<char>) -> bool {
    t.len() == 0 || hour_minute_text(t)
}

impl ChatScreen {
    /// A screen showing a welcome notice and two greetings, not composing.
    pub fn default() -> (r: Self)
        ensures
            r.message_input.value@ == Seq::<char>::empty(),
            r.message_input.cursor_position == 0,
            !r.is_composing,
            r.messages@.map_values(|m: ChatMessage| chat_message_view(m)) == seq![
                ("System"@, "Welcome to the Matrix chat! Type a message and press Enter to send."@, "12:00"@),
                ("Alice"@, "Hello everyone! 👋"@, "12:01"@),
                ("Bob"@, "Hey Alice! How's it going?"@, "12:02"@),
            ],
    {
        let mut messages: Vec<ChatMessage> = Vec::new();
        messages.push(
            ChatMessage {
                sender: string_of("System"),
                content: string_of(
                    "Welcome to the Matrix chat! Type a message and press Enter to send.",
                ),
                timestamp: string_of("12:00"),
            },
        );
        messages.push(
            ChatMessage {
                sender: string_of("Alice"),
                content: string_of("Hello everyone! 👋"),
                timestamp: string_of("12:01"),
            },
        );
        messages.push(
            ChatMessage {
                sender: string_of("Bob"),
                content: string_of("Hey Alice! How's it going?"),
                timestamp: string_of("12:02"),
            },
        );
        let r = ChatScreen { message_input: TextInputState::default(), messages, is_composing: false };
        assert(r.messages@.map_values(|m: ChatMessage| chat_message_view(m)) =~= seq![
            ("System"@, "Welcome to the Matrix chat! Type a message and press Enter to send."@, "12:00"@),
            ("Alice"@, "Hello everyone! 👋"@, "12:01"@),
            ("Bob"@, "Hey Alice! How's it going?"@, "12:02"@),
        ]);
        r
    }

    /// Appends a message stamped with the local hour and minute.
    pub fn add_message(&mut self, sender: String, content: String)
        ensures
            final(self).messages@.len() == old(self).messages@.len() + 1,
            final(self).messages@.take(old(self).messages@.len() as int) == old(self).messages@,
            final(self).messages@.last().sender@ == sender@,
            final(self).messages@.last().content@ == content@,
            stamp_ok(final(self).messages@.last().timestamp@),
            final(self).message_input == old(self).message_input,
            final(self).is_composing == old(self).is_composing,
    {
        let timestamp = match local_time_text(now_millis(), TimePattern::HourMinute) {
            Some(t) => t,
            None => String::new(),
        };
        self.messages.push(ChatMessage { sender, content, timestamp });
        assert(self.messages@.take(old(self).messages@.len() as int) =~= old(self).messages@);
    }

    /// Sends the draft as a message from "You", empties the composer and
    /// leaves composing; an empty draft changes nothing.
    pub fn send_current_message(&mut self)
        ensures
            old(self).message_input.value@.len() == 0 ==> *final(self) == *old(self),
            old(self).message_input.value@.len() > 0 ==> {
                &&& final(self).messages@.len() == old(self).messages@.len() + 1
                &&& final(self).messages@.take(old(self).messages@.len() as int)
                    == old(self).messages@
                &&& final(self).messages@.last().sender@ == "You"@
                &&& final(self).messages@.last().content@ == old(self).message_input.value@
                &&& stamp_ok(final(self).messages@.last().timestamp@)
                &&& final(self).message_input.value@ == Seq::<char>::empty()
                &&& final(self).message_input.cursor_position == 0
                &&& !final(self).is_composing
            },
    {
        if !self.message_input.is_empty() {
            let content = copy_string(&self.message_input.value);
            self.add_message(string_of("You"), content);
            self.message_input.clear();
            self.is_composing = false;
        }
    }
}

/// The look of a sender's name: system notices in yellow italics, the
/// user's own messages in bold green, others in bold cyan.
pub open spec fn sender_look(sender: Seq<char>) -> Look {
    if sender == "System"@ {
        italic_look(Tone::Yellow)
    } else if sender == "You"@ {
        bold_look(Tone::Green)
    } else {
        bold_look(Tone::Cyan)
    }
}

/// A message's line: `[time] sender: content`.
pub open spec fn message_line(m: ChatMessage) -> Seq<(Seq<char>, Look)> {
    seq![
        ("["@ + m.timestamp@ + "] "@, plain_look(Tone::DarkGray)),
        (m.sender@, sender_look(m.sender@)),
        (": "@, plain_look(Tone::Plain)),
        (m.content@, plain_look(Tone::White)),
    ]
}

impl ChatScreen {
    /// One line per message (see `message_line`).
    pub fn message_items(&self) -> (r: Vec<StyledLine>)
        ensures
            lines_view(r@) == self.messages@.map_values(|m: ChatMessage| message_line(m)),
    {
        let mut items: Vec<StyledLine> = Vec::new();
        let mut i: usize = 0;
        while i < self.messages.len()
            invariant
                i <= self.messages@.len(),
                lines_view(items@) == self.messages@.take(i as int).map_values(
                    |m: ChatMessage| message_line(m),
                ),
            decreases self.messages@.len() - i,
        {
            let msg = &self.messages[i];
            let mut stamp = string_of("[");
            stamp.append(msg.timestamp.as_str());
            stamp.append("] ");
            let look = if str_eq(msg.sender.as_str(), "System") {
                Look::italic(Tone::Yellow)
            } else if str_eq(msg.sender.as_str(), "You") {
                Look::bold(Tone::Green)
            } else {
                Look::bold(Tone::Cyan)
            };
            let mut line = StyledLine::single(StyledSpan::new(stamp, Look::plain(Tone::DarkGray)));
            line.push(StyledSpan::new(copy_string(&msg.sender), look));
            line.push(StyledSpan::from_str(": ", Look::plain(Tone::Plain)));
            line.push(StyledSpan::new(copy_string(&msg.content), Look::plain(Tone::White)));
            assert(line_view(line) =~= message_line(*msg));
            push_line(&mut items, line);
            i += 1;
            assert(self.messages@.take(i as int).map_values(|m: ChatMessage| message_line(m))
                =~= self.messages@.take(i - 1).map_values(|m: ChatMessage| message_line(m)).push(
                message_line(self.messages@[i - 1])));
        }
        assert(self.messages@.take(self.messages@.len() as int) =~= self.messages@);
        items
    }

    /// The composer box: editable while composing, else focused with a hint
    /// to start typing.
    pub fn input_box(&self) -> (r: TextInput<'_>)
        ensures
            r.value@ == self.message_input.value@,
            r.cursor_position == self.message_input.cursor_position,
            r.is_focused,
            r.is_editing == self.is_composing,
            !r.is_password,
            r.title@ == if self.is_composing {
                "Type your message (Enter to send, Esc to cancel)"@
            } else {
                "Press Enter to start typing, Esc to go back to login"@
            },
            r.placeholder@ == if self.is_composing {
                "Type your message here..."@
            } else {
                "Press Enter to start typing"@
            },
    {
        if self.is_composing {
            TextInput::editable(
                self.message_input.value.as_str(),
                self.message_input.cursor_position,
                "Type your message (Enter to send, Esc to cancel)",
                "Type your message here...",
            )
        } else {
            TextInput::new(
                self.message_input.value.as_str(),
                self.message_input.cursor_position,
                "Press Enter to start typing, Esc to go back to login",
                "Press Enter to start typing",
            ).focused(true)
        }
    }

    /// The help panel's lines, for composing or for browsing.
    pub fn help_lines(&self) -> (r: Vec<&'static str>)
        ensures
            r@.map_values(|t: &'static str| t@) == if self.is_composing {
                seq![
                    "🎯 Composing Mode"@,
                    Seq::empty(),
                    "• Enter - Send message"@,
                    "• Esc - Cancel message"@,
                    "• Ctrl+A - Move to start"@,
                    "• Ctrl+E - Move to end"@,
                    "• Ctrl+U - Clear to start"@,
                    "• Ctrl+K - Clear to end"@,
                    "• Ctrl+W - Delete word"@,
                ]
            } else {
                seq![
                    "💬 Chat Mode"@,
                    Seq::empty(),
                    "• Enter - Start typing"@,
                    "• Esc - Back to login"@,
                    "• Ctrl+C - Quit app"@,
                    Seq::empty(),
                    "This demonstrates reusable"@,
                    "text input components!"@,
                ]
            },
    {
        proof {
            reveal_strlit("");
        }
        if self.is_composing {
            let mut v: Vec<&'static str> = Vec::new();
            v.push("🎯 Composing Mode");
            v.push("");
            v.push("• Enter - Send message");
            v.push("• Esc - Cancel message");
            v.push("• Ctrl+A - Move to start");
            v.push("• Ctrl+E - Move to end");
            v.push("• Ctrl+U - Clear to start");
            v.push("• Ctrl+K - Clear to end");
            v.push("• Ctrl+W - Delete word");
            assert(v@.len() == 9);
            assert(v@[1]@ == Seq::<char>::empty());
            assert(v@.map_values(|t: &'static str| t@) =~= seq![
                "🎯 Composing Mode"@,
                Seq::empty(),
                "• Enter - Send message"@,
                "• Esc - Cancel message"@,
                "• Ctrl+A - Move to start"@,
                "• Ctrl+E - Move to end"@,
                "• Ctrl+U - Clear to start"@,
                "• Ctrl+K - Clear to end"@,
                "• Ctrl+W - Delete word"@,
            ]);
            v
        } else {
            let mut v: Vec<&'static str> = Vec::new();
            v.push("💬 Chat Mode");
            v.push("");
            v.push("• Enter - Start typing");
            v.push("• Esc - Back to login");
            v.push("• Ctrl+C - Quit app");
            v.push("");
            v.push("This demonstrates reusable");
            v.push("text input components!");
            assert(v@.len() == 8);
            assert(v@[1]@ == Seq::<char>::empty());
            assert(v@[5]@ == Seq::<char>::empty());
            assert(v@.map_values(|t: &'static str| t@) =~= seq![
                "💬 Chat Mode"@,
                Seq::empty(),
                "• Enter - Start typing"@,
                "• Esc - Back to login"@,
                "• Ctrl+C - Quit app"@,
                Seq::empty(),
                "This demonstrates reusable"@,
                "text input components!"@,
            ]);
            v
        }
    }

    /// The status line: composing or ready, and the message count.
    pub fn status_line(&self) -> (r: StyledLine)
        ensures
            line_view(r) == seq![
                ("Status: "@, plain_look(Tone::Yellow)),
                (
                    if self.is_composing {
                        "Composing message..."@
                    } else {
                        "Ready to chat"@
                    },
                    plain_look(Tone::White),
                ),
                ("  |  "@, plain_look(Tone::Plain)),
                ("Messages: "@ + decimal(self.messages@.len()), plain_look(Tone::Cyan)),
            ],
    {
        let status_text = if self.is_composing {
            "Composing message..."
        } else {
            "Ready to chat"
        };
        let mut count = string_of("Messages: ");
        push_decimal(&mut count, self.messages.len() as u64);
        let mut line = StyledLine::single(StyledSpan::from_str("Status: ", Look::plain(Tone::Yellow)));
        line.push(StyledSpan::from_str(status_text, Look::plain(Tone::White)));
        line.push(StyledSpan::from_str("  |  ", Look::plain(Tone::Plain)));
        line.push(StyledSpan::new(count, Look::plain(Tone::Cyan)));
        assert(line_view(line) =~= seq![
            ("Status: "@, plain_look(Tone::Yellow)),
            (
                if self.is_composing {
                    "Composing message..."@
                } else {
                    "Ready to chat"@
                },
                plain_look(Tone::White),
            ),
            ("  |  "@, plain_look(Tone::Plain)),
            ("Messages: "@ + decimal(self.messages@.len()), plain_look(Tone::Cyan)),
        ]);
        line
    }

    /// What a key does on this screen: Ctrl+Q quits; Esc returns to the
    /// login screen unless composing; any other key stays.
    pub fn handle_key_event(&self, key: KeyEvent, app_state: &mut AppState) -> (r: Option<Screen>)
        ensures
            *final(app_state) == *old(app_state),
            r == if key.code == KeyCode::Char('q') && key.modifiers.control {
                None
            } else if key.code == KeyCode::Esc && !self.is_composing {
                Some(Screen::Login)
            } else {
                Some(Screen::Chat)
            },
    {
        match key.code {
            KeyCode::Char('q') if key.modifiers.control => None,
            KeyCode::Esc => {
                if self.is_composing {
                    Some(Screen::Chat)
                } else {
                    Some(Screen::Login)
                }
            },
            _ => Some(Screen::Chat),
        }
    }
}

/// Access to the chat screen held by the application state.
pub trait ChatStateProvider {
    fn get_chat_screen_mut(&mut self) -> &mut ChatScreen;

    fn get_chat_screen(&self) -> &ChatScreen;
}

} // verus!
