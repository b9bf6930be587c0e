//! Layout settings of the room-and-chat screen.
use vstd::prelude::*;

use crate::screens::chat::chat_state::{total_unread, ChatFocus, ChatScreenState};
use crate::text::{decimal, push_decimal, string_of};
use crate::ui::components::chat_input::ChatInput;
use crate::ui::components::message_list::MessageList;
use crate::ui::components::room_list::RoomList;
use crate::ui::styled::{bold_look, line_view, plain_look, Look, StyledLine, StyledSpan, Tone};
use crate::ui::layout::{inside, split_area, split_part, Area, Axis, Extent};
use crate::ui::text_input::TextInput;

verus! {

pub struct RoomChatLayout {
    pub room_list_width: u16,
    pub show_room_filter: bool,
    pub show_status_bar: bool,
    pub show_help: bool,
}

/// `width` clamped to `lo..=hi` (`width.max(lo).min(hi)`).
pub open spec fn clamp(width: int, lo: int, hi: int) -> int {
    let m = if width > lo { width } else { lo };
    if m < hi {
        m
    } else {
        hi
    }
}

impl RoomChatLayout {
    pub fn default() -> (r: Self)
        ensures
            r.room_list_width == 30,
            !r.show_room_filter,
            r.show_status_bar,
            r.show_help,
    {
        RoomChatLayout {
            room_list_width: 30,
            show_room_filter: false,
            show_status_bar: true,
            show_help: true,
        }
    }

    pub fn new() -> (r: Self)
        ensures
            r.room_list_width == 30,
            !r.show_room_filter,
            r.show_status_bar,
            r.show_help,
    {
        Self::default()
    }

    /// Sets the room list width, kept between 20 and 50 columns.
    pub fn room_list_width(self, width: u16) -> (r: Self)
        ensures
            r.room_list_width == clamp(width as int, 20, 50),
            r.show_room_filter == self.show_room_filter,
            r.show_status_bar == self.show_status_bar,
            r.show_help == self.show_help,
    {
        let mut s = self;
        let w = if width > 20 {
            width
        } else {
            20
        };
        s.room_list_width = if w < 50 {
            w
        } else {
            50
        };
        s
    }

    pub fn show_room_filter(self, show: bool) -> (r: Self)
        ensures
            r.room_list_width == self.room_list_width,
            r.show_room_filter == show,
            r.show_status_bar == self.show_status_bar,
            r.show_help == self.show_help,
    {
        let mut s = self;
        s.show_room_filter = show;
        s
    }

    pub fn show_status_bar(self, show: bool) -> (r: Self)
        ensures
            r.room_list_width == self.room_list_width,
            r.show_room_filter == self.show_room_filter,
            r.show_status_bar == show,
            r.show_help == self.show_help,
    {
        let mut s = self;
        s.show_status_bar = show;
        s
    }

    pub fn show_help(self, show: bool) -> (r: Self)
        ensures
            r.room_list_width == self.room_list_width,
            r.show_room_filter == self.show_room_filter,
            r.show_status_bar == self.show_status_bar,
            r.show_help == show,
    {
        let mut s = self;
        s.show_help = show;
        s
    }
}

/// The room list width always ends up between 20 and 50 columns.
pub proof fn lemma_width_within_bounds(width: int)
    ensures
        20 <= clamp(width, 20, 50) <= 50,
        20 <= width <= 50 ==> clamp(width, 20, 50) == width,
{
}

/// The name of a focus in the status bar.
pub open spec fn focus_label(f: ChatFocus) -> Seq<char> {
    match f {
        ChatFocus::RoomList => "ROOMS"@,
        ChatFocus::MessageList => "MESSAGES"@,
        ChatFocus::MessageInput => "INPUT"@,
        ChatFocus::RoomFilter => "FILTER"@,
    }
}

/// The help line for a focus.
pub open spec fn focus_help(f: ChatFocus) -> Seq<char> {
    match f {
        ChatFocus::RoomList => "Room List: ↑/↓ Navigate • Enter Select • / Filter • u Unread • Tab Switch"@,
        ChatFocus::MessageList => "Messages: ↑/↓ Scroll • PgUp/PgDn Page • Home/End • Enter Type • Tab Switch"@,
        ChatFocus::MessageInput => "Input: Type message • Enter Send • Esc Cancel • Ctrl+U Clear • Tab Switch"@,
        ChatFocus::RoomFilter => "Filter: Type to filter • Enter Apply • Esc Cancel • Tab Switch"@,
    }
}

/// The status bar: the room count, the unread total when there is one,
/// the status text and the focus.
pub open spec fn status_bar(state: ChatScreenState) -> Seq<(Seq<char>, Look)> {
    let unread = total_unread(state.rooms@);
    seq![("Rooms: "@ + decimal(state.rooms@.len()) + " "@, plain_look(Tone::Cyan))] + (if unread > 0 {
        seq![
            ("• "@, plain_look(Tone::Plain)),
            ("Unread: "@ + decimal(unread as nat) + " "@, bold_look(Tone::Red)),
        ]
    } else {
        Seq::empty()
    }) + seq![
        ("• "@, plain_look(Tone::Plain)),
        (state.status_text(), plain_look(Tone::White)),
        (" ["@, plain_look(Tone::Plain)),
        (focus_label(state.focus), bold_look(Tone::Yellow)),
        ("]"@, plain_look(Tone::Plain)),
    ]
}

impl RoomChatLayout {
    /// The status bar's line (see `status_bar`).
    pub fn status_line(&self, state: &ChatScreenState) -> (r: StyledLine)
        requires
            total_unread(state.rooms@) <= usize::MAX,
        ensures
            line_view(r) == status_bar(*state),
    {
        let status_text = state.get_status_text();
        let unread_count = state.unread_message_count();
        let mut rooms = string_of("Rooms: ");
        push_decimal(&mut rooms, state.rooms.len() as u64);
        rooms.append(" ");
        let mut line = StyledLine::single(StyledSpan::new(rooms, Look::plain(Tone::Cyan)));
        if unread_count > 0 {
            let mut unread = string_of("Unread: ");
            push_decimal(&mut unread, unread_count as u64);
            unread.append(" ");
            line.push(StyledSpan::from_str("• ", Look::plain(Tone::Plain)));
            line.push(StyledSpan::new(unread, Look::bold(Tone::Red)));
        }
        line.push(StyledSpan::from_str("• ", Look::plain(Tone::Plain)));
        line.push(StyledSpan::new(status_text, Look::plain(Tone::White)));
        let focus_indicator = match state.focus {
            ChatFocus::RoomList => "ROOMS",
            ChatFocus::MessageList => "MESSAGES",
            ChatFocus::MessageInput => "INPUT",
            ChatFocus::RoomFilter => "FILTER",
        };
        line.push(StyledSpan::from_str(" [", Look::plain(Tone::Plain)));
        line.push(StyledSpan::from_str(focus_indicator, Look::bold(Tone::Yellow)));
        line.push(StyledSpan::from_str("]", Look::plain(Tone::Plain)));
        assert(line_view(line) =~= status_bar(*state));
        line
    }

    /// The help line for the focused panel.
    pub fn help_line(&self, state: &ChatScreenState) -> (r: &'static str)
        ensures
            r@ == focus_help(state.focus),
    {
        match state.focus {
            ChatFocus::RoomList => "Room List: ↑/↓ Navigate • Enter Select • / Filter • u Unread • Tab Switch",
            ChatFocus::MessageList => "Messages: ↑/↓ Scroll • PgUp/PgDn Page • Home/End • Enter Type • Tab Switch",
            ChatFocus::MessageInput => "Input: Type message • Enter Send • Esc Cancel • Ctrl+U Clear • Tab Switch",
            ChatFocus::RoomFilter => "Filter: Type to filter • Enter Apply • Esc Cancel • Tab Switch",
        }
    }

    /// The room list of the room section: the state's rooms, selection,
    /// unread-only switch and filter.
    pub fn room_list<'a>(&self, state: &'a ChatScreenState) -> (r: RoomList<'a>)
        ensures
            r.rooms@ == state.rooms@,
            r.selected_index == state.room_list.state.selected,
            r.show_unread_only == state.room_list.show_unread_only,
            r.filter_text matches Some(f) && f@ == state.room_list.filter_text@,
    {
        RoomList::new(state.rooms.as_slice()).selected(state.room_list.selected_room_index()).show_unread_only(
            state.room_list.show_unread_only,
        ).filter(Some(state.room_list.filter_text.as_str()))
    }

    /// The room filter box, focused and edited while the filter has focus.
    pub fn filter_input<'a>(&self, state: &'a ChatScreenState) -> (r: TextInput<'a>)
        ensures
            r.value@ == state.filter_input.value@,
            r.cursor_position == state.filter_input.cursor_position,
            r.title@ == "Filter Rooms"@,
            r.placeholder@ == "Type to filter rooms..."@,
            r.is_focused == (state.focus == ChatFocus::RoomFilter),
            r.is_editing == (state.focus == ChatFocus::RoomFilter),
            !r.is_password,
    {
        let is_focused = state.focus == ChatFocus::RoomFilter;
        TextInput::new(
            state.filter_input.value.as_str(),
            state.filter_input.cursor_position,
            "Filter Rooms",
            "Type to filter rooms...",
        ).focused(is_focused).editing(is_focused)
    }

    /// The message list of the chat section, and the title of its frame.
    pub fn message_list<'a>(&self, state: &'a ChatScreenState) -> (r: (MessageList<'a>, &'static str))
        ensures
            r.0.messages@ == state.messages@,
            match state.current_user {
                Some(u) => r.0.current_user_id matches Some(id) && id@ == u.user_id@,
                None => r.0.current_user_id is None,
            },
            r.0.show_timestamps == state.show_timestamps,
            r.0.show_reactions,
            r.0.auto_scroll == state.auto_scroll,
            r.1@ == if state.focus == ChatFocus::MessageList {
                "Messages [Focused]"@
            } else {
                "Messages"@
            },
    {
        let list = MessageList::new(state.messages.as_slice()).current_user(state.current_user_id()).show_timestamps(
            state.show_timestamps,
        ).show_reactions(true).auto_scroll(state.auto_scroll);
        let title = if state.focus == ChatFocus::MessageList {
            "Messages [Focused]"
        } else {
            "Messages"
        };
        (list, title)
    }

    /// The composer of the chat section, focused and composing while the
    /// input has focus, addressed to the selected room.
    pub fn chat_input<'a>(&self, state: &'a ChatScreenState) -> (r: ChatInput<'a>)
        ensures
            r.input_state == &state.message_input,
            r.is_focused == (state.focus == ChatFocus::MessageInput),
            r.is_composing == (state.focus == ChatFocus::MessageInput),
            match state.selected() {
                Some(room) => r.room_name matches Some(n) && n@ == room.shown_name(),
                None => r.room_name is None,
            },
            r.typing_users@ == state.typing_users@,
            r.max_lines == 5,
    {
        let is_focused = state.focus == ChatFocus::MessageInput;
        let room_name = match state.selected_room() {
            Some(r) => Some(r.display_name()),
            None => None,
        };
        ChatInput::new(&state.message_input).focused(is_focused).composing(is_focused).room_name(
            room_name,
        ).typing_users(state.typing_users.as_slice())
    }
}

/// The areas of the room-and-chat screen.
#[derive(Clone, Copy, Debug)]
pub struct MainLayoutAreas {
    pub room_section: Area,
    pub chat_section: Area,
    pub status_bar: Option<Area>,
    pub help_section: Option<Area>,
}

impl RoomChatLayout {
    /// The screen's areas: rows for the main content (at least 10), the
    /// status bar (1) and the help section (3), the last two when shown;
    /// and the main row
    /// split into the room list, `room_list_width` wide, and the chat
    /// (at least 40). Where the layout solver puts them is its own: every
    /// section lies inside the area, the room list and the chat share the
    /// main row's height, and the status bar and help section, present as
    /// the layout asks, span the area's width.
    pub fn create_main_layout(&self, area: Area) -> (r: MainLayoutAreas)
        ensures
            inside(r.room_section, area),
            inside(r.chat_section, area),
            r.room_section.y == r.chat_section.y,
            r.room_section.height == r.chat_section.height,
            r.status_bar is Some == self.show_status_bar,
            r.status_bar matches Some(s) ==> split_part(s, area, Axis::Vertical),
            r.help_section is Some == self.show_help,
            r.help_section matches Some(h) ==> split_part(h, area, Axis::Vertical),
    {
        let mut constraints: Vec<Extent> = Vec::new();
        constraints.push(Extent::Min(10));  // Main content
        if self.show_status_bar {
            constraints.push(Extent::Length(1));  // Status bar
        }
        if self.show_help {
            constraints.push(Extent::Length(3));  // Help section
        }
        let vertical_chunks = split_area(area, Axis::Vertical, &constraints);
        let main_content = vertical_chunks[0];
        let status_bar = if self.show_status_bar {
            Some(vertical_chunks[1])
        } else {
            None
        };
        let help_section = if self.show_help {
            Some(vertical_chunks[if self.show_status_bar { 2 } else { 1 }])
        } else {
            None
        };
        let mut columns: Vec<Extent> = Vec::new();
        columns.push(Extent::Length(self.room_list_width));
        columns.push(Extent::Min(40));
        let horizontal_chunks = split_area(main_content, Axis::Horizontal, &columns);
        MainLayoutAreas {
            room_section: horizontal_chunks[0],
            chat_section: horizontal_chunks[1],
            status_bar,
            help_section,
        }
    }
}

} // verus!
