//! The message composer: title, placeholder, height and wrapping of the
//! draft, and the extended footer with a character count.
use vstd::prelude::*;

use crate::text::{byte_len, decimal, push_decimal, string_of, str_byte_len, string_len};
use crate::text::{format_typing, typing_sentence};
use crate::ui::input_handler::TextInputState;
use crate::ui::styled::{italic_look, line_view, plain_look, span_view, Look, StyledLine, StyledSpan, Tone};
use crate::text::{is_blank, str_is_blank};
use crate::ui::wrap::{views, wrap_text, wrapped};

verus! {

pub struct ChatInput<'a> {
    pub input_state: &'a TextInputState,
    pub is_focused: bool,
    pub is_composing: bool,
    pub room_name: Option<&'a str>,
    pub typing_users: &'a [String],
    pub max_lines: usize,
}

impl<'a> ChatInput<'a> {
    /// The composer's title.
    pub open spec fn title(&self) -> Seq<char> {
        let base = match self.room_name {
            Some(room) => "Message to "@ + room@,
            None => "Compose Message"@,
        };
        if self.is_composing {
            base + " [Composing...]"@
        } else {
            base
        }
    }

    pub fn new(input_state: &'a TextInputState) -> (r: Self)
        ensures
            r.input_state == input_state,
            !r.is_focused,
            !r.is_composing,
            r.room_name is None,
            r.typing_users@.len() == 0,
            r.max_lines == 5,
    {
        ChatInput {
            input_state,
            is_focused: false,
            is_composing: false,
            room_name: None,
            typing_users: &[],
            max_lines: 5,
        }
    }

    pub fn focused(self, focused: bool) -> (r: Self)
        ensures
            r == (Self { is_focused: focused, ..self }),
    {
        let mut s = self;
        s.is_focused = focused;
        s
    }

    pub fn composing(self, composing: bool) -> (r: Self)
        ensures
            r == (Self { is_composing: composing, ..self }),
    {
        let mut s = self;
        s.is_composing = composing;
        s
    }

    pub fn room_name(self, room_name: Option<&'a str>) -> (r: Self)
        ensures
            r == (Self { room_name: room_name, ..self }),
    {
        let mut s = self;
        s.room_name = room_name;
        s
    }

    pub fn typing_users(self, typing_users: &'a [String]) -> (r: Self)
        ensures
            r == (Self { typing_users: typing_users, ..self }),
    {
        let mut s = self;
        s.typing_users = typing_users;
        s
    }

    pub fn max_lines(self, max_lines: usize) -> (r: Self)
        ensures
            r == (Self { max_lines: max_lines, ..self }),
    {
        let mut s = self;
        s.max_lines = max_lines;
        s
    }

    pub fn get_title(&self) -> (r: String)
        ensures
            r@ == self.title(),
    {
        let mut base_title = match self.room_name {
            Some(room) => {
                let mut t = string_of("Message to ");
                t.append(room);
                t
            },
            None => string_of("Compose Message"),
        };
        if self.is_composing {
            base_title.append(" [Composing...]");
        }
        base_title
    }

    pub fn get_placeholder(&self) -> (r: &'static str)
        ensures
            r@ == if self.is_composing {
                "Type your message (Enter to send, Esc to cancel)..."@
            } else {
                "Press Enter to start typing, Tab to switch focus"@
            },
    {
        if self.is_composing {
            "Type your message (Enter to send, Esc to cancel)..."
        } else {
            "Press Enter to start typing, Tab to switch focus"
        }
    }

    /// Height of the draft box for an area `area_width` columns wide: the
    /// number of wrapped lines (as a `u16`), at most `max_lines` (as a
    /// `u16`), at least 1; 1 for an empty draft or no room for text.
    pub open spec fn input_height(&self, area_width: u16) -> u16 {
        let w: int = if area_width >= 4 {
            area_width - 4
        } else {
            0
        };
        if self.input_state.value@.len() == 0 || w == 0 {
            1
        } else {
            let n = wrapped(self.input_state.value@, w).len() as u16;
            let m = self.max_lines as u16;
            let k = if n < m {
                n
            } else {
                m
            };
            if k > 1 {
                k
            } else {
                1
            }
        }
    }

    /// The typing notice: none when nobody types, else the sentence naming
    /// the typists, in yellow italics.
    pub fn format_typing_indicator(&self) -> (r: Option<StyledSpan>)
        ensures
            self.typing_users@.len() == 0 ==> r is None,
            self.typing_users@.len() > 0 ==> (r matches Some(s) && span_view(s) == (
                typing_sentence(self.typing_users@.map_values(|n: String| n@)),
                italic_look(Tone::Yellow),
            )),
    {
        if self.typing_users.len() == 0 {
            return None;
        }
        Some(StyledSpan::new(format_typing(self.typing_users), Look::italic(Tone::Yellow)))
    }

    pub fn calculate_input_height(&self, area_width: u16) -> (h: u16)
        ensures
            h == self.input_height(area_width),
    {
        if self.input_state.value.as_str().is_empty() {
            return 1;
        }
        let content_width = area_width.saturating_sub(4) as usize;  // Account for borders and padding
        if content_width == 0 {
            return 1;
        }
        let lines = self.wrap_text(self.input_state.value.as_str(), content_width);
        let n = lines.len() as u16;
        let m = self.max_lines as u16;
        let k = if n < m {
            n
        } else {
            m
        };
        if k > 1 {
            k
        } else {
            1
        }
    }

    /// `text` wrapped to `width` bytes (see `wrapped`).
    pub fn wrap_text(&self, text: &str, width: usize) -> (r: Vec<String>)
        ensures
            views(r@) == wrapped(text@, width as int),
    {
        wrap_text(text, width)
    }
}

/// What the composer shows for an area of a given width: the heights of
/// the draft box (at least 3) and of the typing notice, the box's title and
/// hint, the notice, and the help line.
#[derive(Debug)]
pub struct ChatInputView {
    pub input_height: u16,
    pub typing_height: u16,
    pub title: String,
    pub placeholder: &'static str,
    pub typing: Option<StyledSpan>,
    pub help: StyledLine,
}

/// The composer's help line: keys in yellow between their meanings.
pub open spec fn composer_help(composing: bool) -> Seq<(Seq<char>, Look)> {
    let key = plain_look(Tone::Yellow);
    let text = plain_look(Tone::Plain);
    if composing {
        seq![
            ("Enter"@, key),
            (" Send • "@, text),
            ("Esc"@, key),
            (" Cancel • "@, text),
            ("Ctrl+U"@, key),
            (" Clear • "@, text),
            ("Ctrl+W"@, key),
            (" Delete word"@, text),
        ]
    } else {
        seq![
            ("Enter"@, key),
            (" Start typing • "@, text),
            ("Tab"@, key),
            (" Switch focus • "@, text),
            ("Esc"@, key),
            (" Back to rooms"@, text),
        ]
    }
}

impl<'a> ChatInput<'a> {
    /// What the composer shows (see `ChatInputView`).
    pub fn layout_view(&self, area_width: u16) -> (r: ChatInputView)
        ensures
            r.input_height == if self.input_height(area_width) > 3 {
                self.input_height(area_width)
            } else {
                3
            },
            r.typing_height == if self.typing_users@.len() == 0 {
                0u16
            } else {
                1u16
            },
            r.title@ == self.title(),
            r.placeholder@ == if self.is_composing {
                "Type your message (Enter to send, Esc to cancel)..."@
            } else {
                "Press Enter to start typing, Tab to switch focus"@
            },
            self.typing_users@.len() == 0 ==> r.typing is None,
            self.typing_users@.len() > 0 ==> (r.typing matches Some(s) && span_view(s) == (
                typing_sentence(self.typing_users@.map_values(|n: String| n@)),
                italic_look(Tone::Yellow),
            )),
            line_view(r.help) == composer_help(self.is_composing),
    {
        let h = self.calculate_input_height(area_width);
        let input_height = if h > 3 {
            h
        } else {
            3
        };
        let typing_height: u16 = if self.typing_users.len() == 0 {
            0
        } else {
            1
        };
        let key = Look::plain(Tone::Yellow);
        let text = Look::plain(Tone::Plain);
        let mut help = StyledLine::single(StyledSpan::from_str("Enter", key));
        if self.is_composing {
            help.push(StyledSpan::from_str(" Send • ", text));
            help.push(StyledSpan::from_str("Esc", key));
            help.push(StyledSpan::from_str(" Cancel • ", text));
            help.push(StyledSpan::from_str("Ctrl+U", key));
            help.push(StyledSpan::from_str(" Clear • ", text));
            help.push(StyledSpan::from_str("Ctrl+W", key));
            help.push(StyledSpan::from_str(" Delete word", text));
        } else {
            help.push(StyledSpan::from_str(" Start typing • ", text));
            help.push(StyledSpan::from_str("Tab", key));
            help.push(StyledSpan::from_str(" Switch focus • ", text));
            help.push(StyledSpan::from_str("Esc", key));
            help.push(StyledSpan::from_str(" Back to rooms", text));
        }
        assert(line_view(help) =~= composer_help(self.is_composing));
        ChatInputView {
            input_height,
            typing_height,
            title: self.get_title(),
            placeholder: self.get_placeholder(),
            typing: self.format_typing_indicator(),
            help,
        }
    }
}

/// Extended chat input with additional features
pub struct ExtendedChatInput<'a> {
    pub base: ChatInput<'a>,
    pub show_character_count: bool,
    pub max_characters: Option<usize>,
    pub show_send_button: bool,
    pub draft_indicator: bool,
}

impl<'a> ExtendedChatInput<'a> {
    pub fn new(input_state: &'a TextInputState) -> (r: Self)
        ensures
            r.base.input_state == input_state,
            !r.base.is_focused,
            !r.base.is_composing,
            r.base.room_name is None,
            r.base.typing_users@.len() == 0,
            r.base.max_lines == 5,
            !r.show_character_count,
            r.max_characters is None,
            r.show_send_button,
            !r.draft_indicator,
    {
        ExtendedChatInput {
            base: ChatInput::new(input_state),
            show_character_count: false,
            max_characters: None,
            show_send_button: true,
            draft_indicator: false,
        }
    }

    pub fn focused(self, focused: bool) -> (r: Self)
        ensures
            r == (Self { base: ChatInput { is_focused: focused, ..self.base }, ..self }),
    {
        let mut s = self;
        s.base = s.base.focused(focused);
        s
    }

    pub fn composing(self, composing: bool) -> (r: Self)
        ensures
            r == (Self { base: ChatInput { is_composing: composing, ..self.base }, ..self }),
    {
        let mut s = self;
        s.base = s.base.composing(composing);
        s
    }

    pub fn room_name(self, room_name: Option<&'a str>) -> (r: Self)
        ensures
            r == (Self { base: ChatInput { room_name: room_name, ..self.base }, ..self }),
    {
        let mut s = self;
        s.base = s.base.room_name(room_name);
        s
    }

    pub fn typing_users(self, typing_users: &'a [String]) -> (r: Self)
        ensures
            r == (Self { base: ChatInput { typing_users: typing_users, ..self.base }, ..self }),
    {
        let mut s = self;
        s.base = s.base.typing_users(typing_users);
        s
    }

    pub fn show_character_count(self, show: bool) -> (r: Self)
        ensures
            r == (Self { show_character_count: show, ..self }),
    {
        let mut s = self;
        s.show_character_count = show;
        s
    }

    pub fn max_characters(self, max: Option<usize>) -> (r: Self)
        ensures
            r == (Self { max_characters: max, ..self }),
    {
        let mut s = self;
        s.max_characters = max;
        s
    }

    pub fn show_send_button(self, show: bool) -> (r: Self)
        ensures
            r == (Self { show_send_button: show, ..self }),
    {
        let mut s = self;
        s.show_send_button = show;
        s
    }

    pub fn draft_indicator(self, has_draft: bool) -> (r: Self)
        ensures
            r == (Self { draft_indicator: has_draft, ..self }),
    {
        let mut s = self;
        s.draft_indicator = has_draft;
        s
    }

    /// Bytes in the draft.
    pub open spec fn count(&self) -> nat {
        byte_len(self.base.input_state.value@) as nat
    }

    /// `"count/max"`, or the bare count without a maximum; nothing when the
    /// count is hidden.
    pub fn get_character_count_text(&self) -> (r: Option<String>)
        ensures
            !self.show_character_count ==> r is None,
            self.show_character_count ==> r is Some && r->0@ == match self.max_characters {
                Some(max) => decimal(self.count()) + "/"@ + decimal(max as nat),
                None => decimal(self.count()),
            },
    {
        if !self.show_character_count {
            return None;
        }
        let current_count = string_len(&self.base.input_state.value);
        let mut t = String::new();
        push_decimal(&mut t, current_count as u64);
        if let Some(max) = self.max_characters {
            t.append("/");
            push_decimal(&mut t, max as u64);
        }
        Some(t)
    }

    /// The footer: a draft notice, the character count (red over the
    /// limit), and whether the draft can be sent; `None` when it shows
    /// nothing.
    pub open spec fn footer_spans(&self) -> Seq<(Seq<char>, Look)> {
        let over = match self.max_characters {
            Some(max) => self.count() > max,
            None => false,
        };
        let draft = if self.draft_indicator {
            seq![("💾 Draft saved"@, plain_look(Tone::Green)), (" • "@, plain_look(Tone::Plain))]
        } else {
            Seq::empty()
        };
        let count = if self.show_character_count {
            seq![
                (
                    match self.max_characters {
                        Some(max) => decimal(self.count()) + "/"@ + decimal(max as nat),
                        None => decimal(self.count()),
                    },
                    plain_look(
                        if over {
                            Tone::Red
                        } else {
                            Tone::DarkGray
                        },
                    ),
                ),
                (" chars"@, plain_look(Tone::Plain)),
            ] + if self.show_send_button {
                seq![(" • "@, plain_look(Tone::Plain))]
            } else {
                Seq::empty()
            }
        } else {
            Seq::empty()
        };
        let can_send = !is_blank(self.base.input_state.value@) && !over;
        let button = if self.show_send_button {
            seq![
                if can_send {
                    ("Ready to send"@, plain_look(Tone::Green))
                } else {
                    ("Enter message"@, plain_look(Tone::DarkGray))
                },
            ]
        } else {
            Seq::empty()
        };
        draft + count + button
    }

    pub fn footer_line(&self) -> (r: Option<StyledLine>)
        ensures
            self.footer_spans().len() == 0 ==> r is None,
            self.footer_spans().len() > 0 ==> (r matches Some(l) && line_view(l)
                == self.footer_spans()),
    {
        let is_over_limit = self.is_over_limit();
        let mut footer = StyledLine { spans: Vec::new() };
        assert(line_view(footer) =~= Seq::<(Seq<char>, Look)>::empty());
        if self.draft_indicator {
            footer.push(StyledSpan::from_str("💾 Draft saved", Look::plain(Tone::Green)));
            footer.push(StyledSpan::from_str(" • ", Look::plain(Tone::Plain)));
        }
        if let Some(count_text) = self.get_character_count_text() {
            let count_color = if is_over_limit {
                Tone::Red
            } else {
                Tone::DarkGray
            };
            footer.push(StyledSpan::new(count_text, Look::plain(count_color)));
            footer.push(StyledSpan::from_str(" chars", Look::plain(Tone::Plain)));
            if self.show_send_button {
                footer.push(StyledSpan::from_str(" • ", Look::plain(Tone::Plain)));
            }
        }
        if self.show_send_button {
            let can_send = !str_is_blank(self.base.input_state.value.as_str()) && !is_over_limit;
            if can_send {
                footer.push(StyledSpan::from_str("Ready to send", Look::plain(Tone::Green)));
            } else {
                footer.push(StyledSpan::from_str("Enter message", Look::plain(Tone::DarkGray)));
            }
        }
        assert(line_view(footer) =~= self.footer_spans());
        if footer.spans.len() == 0 {
            None
        } else {
            Some(footer)
        }
    }

    /// The draft has more bytes than the maximum.
    pub fn is_over_limit(&self) -> (b: bool)
        ensures
            b == match self.max_characters {
                Some(max) => self.count() > max,
                None => false,
            },
    {
        if let Some(max) = self.max_characters {
            string_len(&self.base.input_state.value) > max
        } else {
            false
        }
    }
}

} // verus!
