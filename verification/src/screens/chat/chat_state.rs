//! State of the room-and-chat screen: rooms and their order, the loaded
//! messages, focus, typing users, and the message sending flow.
use vstd::prelude::*;

use crate::data::models::{Message, Room, User};
use crate::text::{
    copy_string, decimal, is_blank, push_decimal, str_eq, str_is_blank, string_of, typing_sentence,
    format_typing,
};
use crate::ui::components::message_list::{max_scroll, StatefulMessageList};
use crate::ui::components::room_list::StatefulRoomList;
use crate::ui::input_handler::TextInputState;

verus! {

#[derive(Debug, Clone, Copy, PartialEq, Eq, Structural)]
pub enum ChatFocus {
    RoomList,
    MessageList,
    MessageInput,
    RoomFilter,
}

impl ChatFocus {
    pub fn default() -> (f: ChatFocus)
        ensures
            f == ChatFocus::RoomList,
    {
        ChatFocus::RoomList
    }
}

/// Focus after Tab: rooms, messages, input, and back to rooms; the filter
/// returns to the rooms.
pub open spec fn next_focus(f: ChatFocus) -> ChatFocus {
    match f {
        ChatFocus::RoomList => ChatFocus::MessageList,
        ChatFocus::MessageList => ChatFocus::MessageInput,
        ChatFocus::MessageInput => ChatFocus::RoomList,
        ChatFocus::RoomFilter => ChatFocus::RoomList,
    }
}

#[derive(Debug)]
pub struct ChatScreenState {
    // Data
    pub rooms: Vec<Room>,
    pub messages: Vec<Message>,
    pub current_user: Option<User>,
    pub selected_room_id: Option<String>,
    // UI State
    pub room_list: StatefulRoomList,
    pub message_list: StatefulMessageList,
    pub message_input: TextInputState,
    pub filter_input: TextInputState,
    pub focus: ChatFocus,
    // Interaction state
    pub typing_users: Vec<String>,
    pub is_loading_messages: bool,
    pub is_sending_message: bool,
    pub pending_send: bool,
    pub error_message: Option<String>,
    // Settings
    pub show_timestamps: bool,
    pub show_presence: bool,
    pub auto_scroll: bool,
    pub room_list_width: u16,
}

/// Sum of the unread counts of the rooms.
pub open spec fn total_unread(rooms: Seq<Room>) -> int
    decreases rooms.len(),
{
    if rooms.len() == 0 {
        0
    } else {
        total_unread(rooms.drop_last()) + rooms.last().unread_count
    }
}

/// User ids as text.
pub open spec fn id_texts(v: Seq<String>) -> Seq<Seq<char>> {
    v.map_values(|s: String| s@)
}

impl ChatScreenState {
    /// The selected room: the list's selection when it is within the rooms.
    pub open spec fn selected(&self) -> Option<Room> {
        match self.room_list.state.selected {
            Some(i) => if i < self.rooms@.len() {
                Some(self.rooms@[i as int])
            } else {
                None
            },
            None => None,
        }
    }

    /// The status line.
    pub open spec fn status_text(&self) -> Seq<char> {
        if self.error_message is Some {
            "Error: "@ + self.error_message->0@
        } else if self.is_sending_message {
            "Sending message..."@
        } else if self.is_loading_messages {
            "Loading messages..."@
        } else if self.selected() is Some {
            let room = self.selected()->0;
            if self.typing_users@.len() == 0 {
                "In "@ + room.shown_name() + " • "@ + decimal(room.member_count as nat) + " members"@
            } else {
                typing_sentence(id_texts(self.typing_users@))
            }
        } else {
            "Select a room to start chatting"@
        }
    }

    /// The state a fresh screen starts in.
    pub open spec fn is_fresh(&self) -> bool {
        &&& self.rooms@.len() == 0
        &&& self.messages@.len() == 0
        &&& self.selected_room_id is None
        &&& self.room_list.state.selected is None
        &&& self.room_list.state.offset == 0
        &&& !self.room_list.show_unread_only
        &&& self.room_list.filter_text@.len() == 0
        &&& self.message_list.scroll_offset == 0
        &&& self.message_list.auto_scroll
        &&& self.message_input.value@.len() == 0
        &&& self.message_input.cursor_position == 0
        &&& self.filter_input.value@.len() == 0
        &&& self.filter_input.cursor_position == 0
        &&& self.focus == ChatFocus::RoomList
        &&& self.typing_users@.len() == 0
        &&& !self.is_loading_messages
        &&& !self.is_sending_message
        &&& !self.pending_send
        &&& self.error_message is None
        &&& self.show_timestamps
        &&& self.show_presence
        &&& self.auto_scroll
        &&& self.room_list_width == 30
    }

    pub fn default() -> (r: Self)
        ensures
            r.is_fresh(),
            r.current_user is None,
    {
        ChatScreenState {
            rooms: Vec::new(),
            messages: Vec::new(),
            current_user: None,
            selected_room_id: None,
            room_list: StatefulRoomList::new(),
            message_list: StatefulMessageList::new(),
            message_input: TextInputState::default(),
            filter_input: TextInputState::default(),
            focus: ChatFocus::default(),
            typing_users: Vec::new(),
            is_loading_messages: false,
            is_sending_message: false,
            pending_send: false,
            error_message: None,
            show_timestamps: true,
            show_presence: true,
            auto_scroll: true,
            room_list_width: 30,
        }
    }

    pub fn new() -> (r: Self)
        ensures
            r.is_fresh(),
            r.current_user is None,
    {
        Self::default()
    }

    /// The same state, signed in as `user`.
    pub fn with_user(self, user: User) -> (r: Self)
        ensures
            r == (Self { current_user: Some(user), ..self }),
    {
        let mut s = self;
        s.current_user = Some(user);
        s
    }

    pub fn cycle_focus(&mut self)
        ensures
            final(self).focus == next_focus(old(self).focus),
            *final(self) == (Self { focus: final(self).focus, ..*old(self) }),
    {
        self.focus = match self.focus {
            ChatFocus::RoomList => ChatFocus::MessageList,
            ChatFocus::MessageList => ChatFocus::MessageInput,
            ChatFocus::MessageInput => ChatFocus::RoomList,
            ChatFocus::RoomFilter => ChatFocus::RoomList,
        };
    }

    pub fn set_focus(&mut self, focus: ChatFocus)
        ensures
            *final(self) == (Self { focus: focus, ..*old(self) }),
    {
        self.focus = focus;
    }

    pub fn selected_room(&self) -> (r: Option<&Room>)
        ensures
            match r {
                Some(room) => self.selected() == Some(*room),
                None => self.selected() is None,
            },
    {
        self.room_list.selected_room(self.rooms.as_slice())
    }

    /// The selected room, for changing in place.
    pub fn selected_room_mut(&mut self) -> (r: Option<&mut Room>)
        ensures
            old(self).selected() is Some <==> r is Some,
            r matches Some(room) ==> {
                let i = old(self).room_list.state.selected->0 as int;
                &&& *room == old(self).rooms@[i]
                &&& final(self).rooms@ == old(self).rooms@.update(i, *final(room))
                &&& *final(self) == (Self { rooms: final(self).rooms, ..*old(self) })
            },
            r is None ==> *final(self) == *old(self),
    {
        if let Some(index) = self.room_list.selected_room_index() {
            if index < self.rooms.len() {
                Some(&mut self.rooms[index])
            } else {
                None
            }
        } else {
            None
        }
    }

    pub fn current_user_id(&self) -> (r: Option<&str>)
        ensures
            match r {
                Some(id) => self.current_user is Some && id@ == self.current_user->0.user_id@,
                None => self.current_user is None,
            },
    {
        match &self.current_user {
            Some(u) => Some(u.user_id.as_str()),
            None => None,
        }
    }

    /// Appends a message; with automatic scrolling on, scrolls to the bottom
    /// of a ten-line view.
    pub fn add_message(&mut self, message: Message)
        ensures
            final(self).messages@ == old(self).messages@.push(message),
            old(self).auto_scroll ==> final(self).message_list.scroll_offset == max_scroll(
                final(self).messages@.len() as int,
                10,
            ) && final(self).message_list.auto_scroll,
            !old(self).auto_scroll ==> final(self).message_list == old(self).message_list,
            *final(self) == (Self {
                messages: final(self).messages,
                message_list: final(self).message_list,
                ..*old(self)
            }),
    {
        self.messages.push(message);
        // Auto-scroll if enabled
        if self.auto_scroll {
            self.message_list.scroll_to_bottom(self.messages.as_slice(), 10);
        }
    }

    pub fn set_loading_messages(&mut self, loading: bool)
        ensures
            *final(self) == (Self { is_loading_messages: loading, ..*old(self) }),
    {
        self.is_loading_messages = loading;
    }

    pub fn set_sending_message(&mut self, sending: bool)
        ensures
            *final(self) == (Self { is_sending_message: sending, ..*old(self) }),
    {
        self.is_sending_message = sending;
    }

    pub fn set_error(&mut self, error: Option<String>)
        ensures
            *final(self) == (Self { error_message: error, ..*old(self) }),
    {
        self.error_message = error;
    }

    pub fn clear_error(&mut self)
        ensures
            *final(self) == (Self { error_message: None, ..*old(self) }),
    {
        self.error_message = None;
    }

    /// Adds a typing user unless already listed.
    pub fn add_typing_user(&mut self, user_id: String)
        ensures
            id_texts(old(self).typing_users@).contains(user_id@) ==> final(self).typing_users
                == old(self).typing_users,
            !id_texts(old(self).typing_users@).contains(user_id@) ==> final(self).typing_users@
                == old(self).typing_users@.push(user_id),
            *final(self) == (Self { typing_users: final(self).typing_users, ..*old(self) }),
    {
        let ghost ids = id_texts(self.typing_users@);
        let mut i: usize = 0;
        while i < self.typing_users.len()
            invariant
                i <= self.typing_users@.len(),
                ids == id_texts(self.typing_users@),
                forall|j: int| 0 <= j < i ==> ids[j] != user_id@,
            decreases self.typing_users@.len() - i,
        {
            if str_eq(self.typing_users[i].as_str(), user_id.as_str()) {
                proof {
                    assert(ids[i as int] == user_id@);
                }
                return;
            }
            i += 1;
        }
        self.typing_users.push(user_id);
    }

    /// Drops `user_id` from the typing users.
    pub fn remove_typing_user(&mut self, user_id: &str)
        ensures
            final(self).typing_users@ == old(self).typing_users@.filter(
                |id: String| id@ != user_id@,
            ),
            *final(self) == (Self { typing_users: final(self).typing_users, ..*old(self) }),
    {
        let ghost old_ids = self.typing_users@;
        let ghost mut j: int = 0;
        let mut i: usize = 0;
        while i < self.typing_users.len()
            invariant
                0 <= i <= self.typing_users@.len(),
                0 <= j <= old_ids.len(),
                self.typing_users@.take(i as int) == old_ids.take(j).filter(
                    |id: String| id@ != user_id@,
                ),
                self.typing_users@.skip(i as int) == old_ids.skip(j),
                *self == (Self { typing_users: self.typing_users, ..*old(self) }),
            decreases self.typing_users@.len() - i,
        {
            proof {
                assert(self.typing_users@.skip(i as int).len() == self.typing_users@.len() - i);
                assert(j < old_ids.len());
                assert(old_ids.take(j + 1).drop_last() =~= old_ids.take(j));
                assert(old_ids.skip(j)[0] == old_ids[j]);
                reveal_with_fuel(Seq::filter, 1);
            }
            if str_eq(self.typing_users[i].as_str(), user_id) {
                let ghost before = self.typing_users@;
                self.typing_users.remove(i);
                proof {
                    assert(self.typing_users@.take(i as int) =~= before.take(i as int));
                    assert(self.typing_users@.skip(i as int) =~= before.skip(i + 1));
                    assert(old_ids.skip(j + 1) =~= old_ids.skip(j).skip(1));
                    j = j + 1;
                }
            } else {
                let ghost before = self.typing_users@;
                proof {
                    assert(before.take(i + 1) =~= before.take(i as int).push(before[i as int]));
                    assert(before.skip(i + 1) =~= before.skip(i as int).skip(1));
                    assert(old_ids.skip(j + 1) =~= old_ids.skip(j).skip(1));
                    j = j + 1;
                }
                i += 1;
            }
        }
        proof {
            assert(old_ids.skip(j).len() == 0);
            assert(old_ids.take(j) =~= old_ids);
            assert(self.typing_users@.take(i as int) =~= self.typing_users@);
        }
    }

    pub fn clear_typing_users(&mut self)
        ensures
            final(self).typing_users@.len() == 0,
            *final(self) == (Self { typing_users: final(self).typing_users, ..*old(self) }),
    {
        self.typing_users.clear();
    }

    /// Marks a non-blank draft as pending and sending.
    pub fn prepare_message_send(&mut self)
        ensures
            !is_blank(old(self).message_input.value@) ==> *final(self) == (Self {
                pending_send: true,
                is_sending_message: true,
                ..*old(self)
            }),
            is_blank(old(self).message_input.value@) ==> *final(self) == *old(self),
    {
        if !str_is_blank(self.message_input.value.as_str()) {
            self.pending_send = true;
            self.is_sending_message = true;
        }
    }

    /// The draft went out: empty it and move the focus to the messages.
    pub fn complete_message_send(&mut self)
        ensures
            final(self).message_input.value@.len() == 0,
            final(self).message_input.cursor_position == 0,
            *final(self) == (Self {
                message_input: final(self).message_input,
                pending_send: false,
                is_sending_message: false,
                focus: ChatFocus::MessageList,
                ..*old(self)
            }),
    {
        self.message_input.clear();
        self.pending_send = false;
        self.is_sending_message = false;
        self.focus = ChatFocus::MessageList;
    }

    pub fn cancel_message_send(&mut self)
        ensures
            *final(self) == (Self { pending_send: false, is_sending_message: false, ..*old(self) }),
    {
        self.pending_send = false;
        self.is_sending_message = false;
    }

    /// Flips automatic scrolling, here and in the message list.
    pub fn toggle_auto_scroll(&mut self)
        ensures
            final(self).auto_scroll == !old(self).auto_scroll,
            final(self).message_list.auto_scroll == !old(self).message_list.auto_scroll,
            final(self).message_list.scroll_offset == old(self).message_list.scroll_offset,
            *final(self) == (Self {
                auto_scroll: final(self).auto_scroll,
                message_list: final(self).message_list,
                ..*old(self)
            }),
    {
        self.auto_scroll = !self.auto_scroll;
        self.message_list.toggle_auto_scroll();
    }

    pub fn toggle_timestamps(&mut self)
        ensures
            *final(self) == (Self { show_timestamps: !old(self).show_timestamps, ..*old(self) }),
    {
        self.show_timestamps = !self.show_timestamps;
    }

    pub fn toggle_presence(&mut self)
        ensures
            *final(self) == (Self { show_presence: !old(self).show_presence, ..*old(self) }),
    {
        self.show_presence = !self.show_presence;
    }

    /// Sets the room list width, kept between 20 and 60 columns.
    pub fn set_room_list_width(&mut self, width: u16)
        ensures
            final(self).room_list_width == if width < 20 {
                20
            } else if width > 60 {
                60
            } else {
                width
            },
            *final(self) == (Self { room_list_width: final(self).room_list_width, ..*old(self) }),
    {
        let w = if width > 20 {
            width
        } else {
            20
        };
        self.room_list_width = if w < 60 {
            w
        } else {
            60
        };
    }

    pub fn get_status_text(&self) -> (r: String)
        ensures
            r@ == self.status_text(),
    {
        if let Some(error) = &self.error_message {
            let mut t = string_of("Error: ");
            t.append(error.as_str());
            t
        } else if self.is_sending_message {
            string_of("Sending message...")
        } else if self.is_loading_messages {
            string_of("Loading messages...")
        } else if let Some(room) = self.selected_room() {
            if self.typing_users.len() == 0 {
                let mut t = string_of("In ");
                t.append(room.display_name());
                t.append(" • ");
                push_decimal(&mut t, room.member_count as u64);
                t.append(" members");
                t
            } else {
                format_typing(self.typing_users.as_slice())
            }
        } else {
            string_of("Select a room to start chatting")
        }
    }

    pub fn get_input_placeholder(&self) -> (r: &'static str)
        ensures
            r@ == match self.focus {
                ChatFocus::MessageInput => if self.selected() is Some {
                    "Type your message... (Enter to send, Esc to cancel)"@
                } else {
                    "Select a room first"@
                },
                ChatFocus::RoomFilter => "Filter rooms... (Enter to apply, Esc to cancel)"@,
                _ => ""@,
            },
    {
        match self.focus {
            ChatFocus::MessageInput => {
                if self.selected_room().is_some() {
                    "Type your message... (Enter to send, Esc to cancel)"
                } else {
                    "Select a room first"
                }
            },
            ChatFocus::RoomFilter => "Filter rooms... (Enter to apply, Esc to cancel)",
            _ => "",
        }
    }

    /// A non-blank draft and no send under way; the room it goes to is
    /// the one selected when it is sent.
    pub fn can_send_message(&self) -> (b: bool)
        ensures
            b == (!is_blank(self.message_input.value@) && !self.is_sending_message),
    {
        !str_is_blank(self.message_input.value.as_str()) && !self.is_sending_message
    }

    /// Unread messages over all rooms.
    pub fn unread_message_count(&self) -> (n: usize)
        requires
            total_unread(self.rooms@) <= usize::MAX,
        ensures
            n == total_unread(self.rooms@),
    {
        sum_unread(self.rooms.as_slice())
    }

    /// Number of rooms (the list is not narrowed here).
    pub fn filtered_room_count(&self) -> (n: usize)
        ensures
            n == self.rooms@.len(),
    {
        self.rooms.len()  // This would be calculated based on current filter
    }
}

/// Lexicographic order of texts by code point (the order of `str`).
pub open spec fn lex_less(a: Seq<char>, b: Seq<char>) -> bool
    decreases a.len(),
{
    if a.len() == 0 {
        b.len() > 0
    } else if b.len() == 0 {
        false
    } else if a[0] != b[0] {
        (a[0] as u32) < (b[0] as u32)
    } else {
        lex_less(a.drop_first(), b.drop_first())
    }
}

proof fn lemma_lex_irreflexive(a: Seq<char>)
    ensures
        !lex_less(a, a),
    decreases a.len(),
{
    if a.len() > 0 {
        lemma_lex_irreflexive(a.drop_first());
    }
}

proof fn lemma_lex_transitive(a: Seq<char>, b: Seq<char>, c: Seq<char>)
    requires
        lex_less(a, b),
        lex_less(b, c),
    ensures
        lex_less(a, c),
    decreases a.len(),
{
    if a.len() > 0 && b.len() > 0 && c.len() > 0 && a[0] == b[0] && b[0] == c[0] {
        lemma_lex_transitive(a.drop_first(), b.drop_first(), c.drop_first());
    }
}

proof fn lemma_lex_total(a: Seq<char>, b: Seq<char>)
    ensures
        a != b ==> lex_less(a, b) || lex_less(b, a),
    decreases a.len(),
{
    if a.len() == 0 && b.len() == 0 {
        assert(a =~= b);
    } else if a.len() > 0 && b.len() > 0 && a[0] == b[0] {
        lemma_lex_total(a.drop_first(), b.drop_first());
        if a.drop_first() == b.drop_first() {
            assert(a =~= seq![a[0]] + a.drop_first());
            assert(b =~= seq![b[0]] + b.drop_first());
        }
    } else if a.len() > 0 && b.len() > 0 {
        crate::text::lemma_char_ne_u32(a[0], b[0]);
    }
}

/// Order of rooms in the list: more unread messages first; among equals,
/// rooms with a last message before rooms without, the newer message
/// first; rooms without messages by name.
pub open spec fn room_before(a: Room, b: Room) -> bool {
    if a.unread_count != b.unread_count {
        a.unread_count > b.unread_count
    } else {
        match (a.last_message, b.last_message) {
            (Some(am), Some(bm)) => am.timestamp > bm.timestamp,
            (Some(_), None) => true,
            (None, Some(_)) => false,
            (None, None) => lex_less(a.shown_name(), b.shown_name()),
        }
    }
}

/// Neither room sorts before the other.
pub open spec fn room_tied(a: Room, b: Room) -> bool {
    !room_before(a, b) && !room_before(b, a)
}

proof fn lemma_room_order(a: Room, b: Room, c: Room)
    ensures
        !room_before(a, a),
        room_before(a, b) && room_before(b, c) ==> room_before(a, c),
        room_tied(a, b) && room_before(a, c) ==> room_before(b, c),
        room_tied(a, b) && room_before(c, a) ==> room_before(c, b),
{
    lemma_lex_irreflexive(a.shown_name());
    if room_before(a, b) && room_before(b, c) {
        if a.last_message is None && b.last_message is None && c.last_message is None {
            if lex_less(a.shown_name(), b.shown_name()) && lex_less(b.shown_name(), c.shown_name()) {
                lemma_lex_transitive(a.shown_name(), b.shown_name(), c.shown_name());
            }
        }
    }
    lemma_lex_total(a.shown_name(), b.shown_name());
}

/// `out` is `inp` rearranged by `p` (`out[k] == inp[p[k]]`), in room
/// order, with tied rooms kept in their original order.
pub open spec fn stable_arrangement(out: Seq<Room>, inp: Seq<Room>, p: Seq<int>) -> bool {
    &&& out.len() == inp.len()
    &&& p.len() == inp.len()
    &&& forall|k: int| 0 <= k < p.len() ==> 0 <= #[trigger] p[k] < inp.len()
    &&& forall|k: int, l: int| 0 <= k < l < p.len() ==> p[k] != p[l]
    &&& forall|k: int| 0 <= k < out.len() ==> #[trigger] out[k] == inp[p[k]]
    &&& forall|k: int, l: int| 0 <= k < l < out.len() ==> !room_before(out[l], out[k])
    &&& forall|k: int, l: int|
        0 <= k < l < out.len() && room_tied(out[k], out[l]) ==> p[k] < p[l]
}

/// `out` is the stable sort of `inp` in room order.
pub open spec fn stably_sorted(out: Seq<Room>, inp: Seq<Room>) -> bool {
    exists|p: Seq<int>| stable_arrangement(out, inp, p)
}

/// In the rooms as sorted: the unread counts never rise along the list;
/// among rooms with as many unread messages, rooms with a last message
/// come before rooms without, of two last messages the newer one's room
/// comes first, and rooms without messages go by name in code point
/// order; every room is one of the rooms given.
pub proof fn lemma_sorted_rooms_order(out: Seq<Room>, inp: Seq<Room>)
    requires
        stably_sorted(out, inp),
    ensures
        out.len() == inp.len(),
        forall|k: int, l: int|
            #![trigger out[k], out[l]]
            0 <= k < l < out.len() ==> out[k].unread_count >= out[l].unread_count,
        forall|k: int, l: int|
            #![trigger out[k], out[l]]
            0 <= k < l < out.len() && out[k].unread_count == out[l].unread_count
                && out[l].last_message is Some ==> out[k].last_message is Some,
        forall|k: int, l: int|
            #![trigger out[k], out[l]]
            0 <= k < l < out.len() && out[k].unread_count == out[l].unread_count
                && out[k].last_message is Some && out[l].last_message is Some
                ==> out[k].last_message->0.timestamp >= out[l].last_message->0.timestamp,
        forall|k: int, l: int|
            #![trigger out[k], out[l]]
            0 <= k < l < out.len() && out[k].unread_count == out[l].unread_count
                && out[k].last_message is None && out[l].last_message is None
                ==> !lex_less(out[l].shown_name(), out[k].shown_name()),
        forall|k: int| 0 <= k < out.len() ==> inp.contains(#[trigger] out[k]),
{
    let p = choose|p: Seq<int>| stable_arrangement(out, inp, p);
    assert forall|k: int, l: int| #![trigger out[k], out[l]] 0 <= k < l < out.len() implies out[k].unread_count
        >= out[l].unread_count by {
        assert(!room_before(out[l], out[k]));
    }
    assert forall|k: int, l: int|
        #![trigger out[k], out[l]]
        0 <= k < l < out.len() && out[k].unread_count == out[l].unread_count
            && out[l].last_message is Some implies out[k].last_message is Some by {
        assert(!room_before(out[l], out[k]));
    }
    assert forall|k: int, l: int|
        #![trigger out[k], out[l]]
        0 <= k < l < out.len() && out[k].unread_count == out[l].unread_count
            && out[k].last_message is Some && out[l].last_message is Some
            implies out[k].last_message->0.timestamp >= out[l].last_message->0.timestamp by {
        assert(!room_before(out[l], out[k]));
    }
    assert forall|k: int, l: int|
        #![trigger out[k], out[l]]
        0 <= k < l < out.len() && out[k].unread_count == out[l].unread_count
            && out[k].last_message is None && out[l].last_message is None
            implies !lex_less(out[l].shown_name(), out[k].shown_name()) by {
        assert(!room_before(out[l], out[k]));
    }
    assert forall|k: int| 0 <= k < out.len() implies inp.contains(#[trigger] out[k]) by {
        assert(out[k] == inp[p[k]]);
    }
}

/// Whether `a` sorts before `b`.
fn room_sorts_before(a: &Room, b: &Room) -> (r: bool)
    ensures
        r == room_before(*a, *b),
{
    if a.unread_count != b.unread_count {
        return a.unread_count > b.unread_count;
    }
    match (&a.last_message, &b.last_message) {
        (Some(am), Some(bm)) => am.timestamp > bm.timestamp,
        (Some(_), None) => true,
        (None, Some(_)) => false,
        (None, None) => name_less(a.display_name(), b.display_name()),
    }
}

/// Whether `a` comes before `b` in code point order.
fn name_less(a: &str, b: &str) -> (r: bool)
    ensures
        r == lex_less(a@, b@),
{
    let x = crate::text::chars_of(a);
    let y = crate::text::chars_of(b);
    let mut i: usize = 0;
    proof {
        assert(a@.skip(0) =~= a@);
        assert(b@.skip(0) =~= b@);
    }
    while i < x.len() && i < y.len()
        invariant
            x@ == a@,
            y@ == b@,
            i <= x@.len(),
            i <= y@.len(),
            lex_less(a@, b@) == lex_less(a@.skip(i as int), b@.skip(i as int)),
        decreases x@.len() - i,
    {
        let (cx, cy) = (x[i], y[i]);
        if cx != cy {
            proof {
                assert(a@.skip(i as int)[0] == cx);
                assert(b@.skip(i as int)[0] == cy);
            }
            return (cx as u32) < (cy as u32);
        }
        proof {
            assert(a@.skip(i as int).drop_first() =~= a@.skip(i + 1));
            assert(b@.skip(i as int).drop_first() =~= b@.skip(i + 1));
        }
        i += 1;
    }
    i < y.len()
}

impl ChatScreenState {
    /// Puts the rooms in room order (a stable sort).
    pub fn sort_rooms(&mut self)
        ensures
            stably_sorted(final(self).rooms@, old(self).rooms@),
            *final(self) == (Self { rooms: final(self).rooms, ..*old(self) }),
    {
        let ghost orig = self.rooms@;
        let mut input: Vec<Room> = Vec::new();
        std::mem::swap(&mut input, &mut self.rooms);
        let mut out: Vec<Room> = Vec::new();
        let ghost mut p: Seq<int> = Seq::empty();
        let ghost mut i: int = 0;
        while input.len() > 0
            invariant
                0 <= i <= orig.len(),
                input@ == orig.skip(i),
                out@.len() == i,
                p.len() == i,
                forall|k: int| 0 <= k < p.len() ==> 0 <= #[trigger] p[k] < i,
                forall|k: int, l: int| 0 <= k < l < p.len() ==> p[k] != p[l],
                forall|k: int| 0 <= k < out@.len() ==> #[trigger] out@[k] == orig[p[k]],
                forall|k: int, l: int| 0 <= k < l < out@.len() ==> !room_before(out@[l], out@[k]),
                forall|k: int, l: int|
                    0 <= k < l < out@.len() && room_tied(out@[k], out@[l]) ==> p[k] < p[l],
                self.rooms@.len() == 0,
                *self == (Self { rooms: self.rooms, ..*old(self) }),
            decreases input@.len(),
        {
            proof {
                assert(input@.len() == orig.len() - i);
            }
            let x = input.remove(0);
            proof {
                assert(x == orig[i]);
                assert(input@ =~= orig.skip(i + 1));
            }
            let mut j: usize = 0;
            while j < out.len()
                invariant
                    j <= out@.len(),
                    forall|q: int| 0 <= q < j ==> !room_before(x, #[trigger] out@[q]),
                ensures
                    j <= out@.len(),
                    forall|q: int| 0 <= q < j ==> !room_before(x, #[trigger] out@[q]),
                    j < out@.len() ==> room_before(x, out@[j as int]),
                decreases out@.len() - j,
            {
                if room_sorts_before(&x, &out[j]) {
                    break;
                }
                j += 1;
            }
            let ghost old_out = out@;
            let ghost old_p = p;
            out.insert(j, x);
            proof {
                p = old_p.insert(j as int, i);
                assert forall|k: int| 0 <= k < j implies #[trigger] out@[k] == old_out[k] && p[k]
                    == old_p[k] by {}
                assert(out@[j as int] == x && p[j as int] == i);
                assert forall|k: int| j < k < out@.len() implies #[trigger] out@[k] == old_out[k
                    - 1] && p[k] == old_p[k - 1] by {}
                assert forall|k: int, l: int| 0 <= k < l < out@.len() implies !room_before(
                    out@[l],
                    out@[k],
                ) by {
                    if l < j {
                        assert(out@[l] == old_out[l] && out@[k] == old_out[k]);
                    } else if l == j {
                        assert(out@[k] == old_out[k]);
                    } else if k == j {
                        let m = l - 1;
                        assert(out@[l] == old_out[m]);
                        assert(j < old_out.len());
                        lemma_room_order(old_out[m], x, old_out[j as int]);
                        lemma_room_order(old_out[j as int], x, old_out[j as int]);
                    } else if k < j {
                        assert(out@[l] == old_out[l - 1] && out@[k] == old_out[k]);
                    } else {
                        assert(out@[l] == old_out[l - 1] && out@[k] == old_out[k - 1]);
                    }
                }
                assert forall|k: int, l: int|
                    0 <= k < l < out@.len() && room_tied(out@[k], out@[l]) implies p[k] < p[l] by {
                    if l < j {
                        assert(out@[l] == old_out[l] && out@[k] == old_out[k]);
                    } else if l == j {
                        assert(p[k] == old_p[k]);
                    } else if k == j {
                        let m = l - 1;
                        assert(out@[l] == old_out[m]);
                        lemma_room_order(x, old_out[m], old_out[j as int]);
                        lemma_room_order(old_out[j as int], old_out[j as int], old_out[j as int]);
                    } else if k < j {
                        assert(out@[l] == old_out[l - 1] && out@[k] == old_out[k]);
                    } else {
                        assert(out@[l] == old_out[l - 1] && out@[k] == old_out[k - 1]);
                    }
                }
                assert forall|k: int| 0 <= k < out@.len() implies #[trigger] out@[k] == orig[p[k]] by {
                    if k < j {
                        assert(out@[k] == old_out[k]);
                    } else if k > j {
                        assert(out@[k] == old_out[k - 1]);
                    }
                }
                assert forall|k: int, l: int| 0 <= k < l < p.len() implies p[k] != p[l] by {
                    if k < j && l > j {
                        assert(p[l] == old_p[l - 1]);
                    } else if k > j {
                        assert(p[l] == old_p[l - 1] && p[k] == old_p[k - 1]);
                    }
                }
                i = i + 1;
            }
        }
        proof {
            assert(stable_arrangement(out@, orig, p));
        }
        self.rooms = out;
    }

    /// Adds a room and puts the rooms back in order.
    pub fn handle_new_room(&mut self, room: Room)
        ensures
            stably_sorted(final(self).rooms@, old(self).rooms@.push(room)),
            *final(self) == (Self { rooms: final(self).rooms, ..*old(self) }),
    {
        // Add room and sort by last message time or name
        self.rooms.push(room);
        self.sort_rooms();
    }

    /// Replaces the first room with id `room_id` and puts the rooms back in
    /// order; without such a room nothing changes.
    pub fn handle_room_update(&mut self, room_id: &str, room: Room)
        ensures
            match room_position(old(self).rooms@, room_id@) {
                Some(i) => stably_sorted(final(self).rooms@, old(self).rooms@.update(i, room)),
                None => final(self).rooms == old(self).rooms,
            },
            *final(self) == (Self { rooms: final(self).rooms, ..*old(self) }),
    {
        let mut i: usize = 0;
        while i < self.rooms.len()
            invariant
                i <= self.rooms@.len(),
                *self == *old(self),
                forall|q: int| 0 <= q < i ==> self.rooms@[q].room_id@ != room_id@,
            decreases self.rooms@.len() - i,
        {
            if str_eq(self.rooms[i].room_id.as_str(), room_id) {
                proof {
                    lemma_room_position(self.rooms@, room_id@, i as int);
                }
                self.rooms.set(i, room);
                self.sort_rooms();
                return;
            }
            i += 1;
        }
        proof {
            lemma_room_position(self.rooms@, room_id@, i as int);
        }
    }

    /// Removes every room with id `room_id`. When that room was the
    /// selected one, the first remaining room becomes selected, or, with no
    /// room left, the selection and the messages are dropped.
    pub fn handle_room_removal(&mut self, room_id: &str)
        ensures
            final(self).rooms@ == old(self).rooms@.filter(|r: Room| r.room_id@ != room_id@),
            ({
                let was_selected = old(self).selected_room_id matches Some(id) && id@ == room_id@;
                &&& !was_selected ==> *final(self) == (Self { rooms: final(self).rooms, ..*old(self) })
                &&& (was_selected && final(self).rooms@.len() > 0) ==> {
                    &&& final(self).room_list.state.selected == Some(0usize)
                    &&& final(self).selected_room_id matches Some(id) && id@
                        == final(self).rooms@[0].room_id@
                    &&& final(self).messages == old(self).messages
                }
                &&& (was_selected && final(self).rooms@.len() == 0) ==> {
                    &&& final(self).selected_room_id is None
                    &&& final(self).messages@.len() == 0
                    &&& final(self).room_list == old(self).room_list
                }
            }),
            final(self).focus == old(self).focus,
            final(self).typing_users == old(self).typing_users,
            final(self).message_input == old(self).message_input,
    {
        let ghost old_rooms = self.rooms@;
        let ghost mut j: int = 0;
        let mut i: usize = 0;
        while i < self.rooms.len()
            invariant
                0 <= i <= self.rooms@.len(),
                0 <= j <= old_rooms.len(),
                self.rooms@.take(i as int) == old_rooms.take(j).filter(
                    |r: Room| r.room_id@ != room_id@,
                ),
                self.rooms@.skip(i as int) == old_rooms.skip(j),
                *self == (Self { rooms: self.rooms, ..*old(self) }),
            decreases self.rooms@.len() - i,
        {
            proof {
                assert(self.rooms@.skip(i as int).len() == self.rooms@.len() - i);
                assert(j < old_rooms.len());
                assert(old_rooms.take(j + 1).drop_last() =~= old_rooms.take(j));
                assert(old_rooms.skip(j)[0] == old_rooms[j]);
                reveal_with_fuel(Seq::filter, 1);
            }
            if str_eq(self.rooms[i].room_id.as_str(), room_id) {
                let ghost before = self.rooms@;
                self.rooms.remove(i);
                proof {
                    assert(self.rooms@.take(i as int) =~= before.take(i as int));
                    assert(self.rooms@.skip(i as int) =~= before.skip(i + 1));
                    assert(old_rooms.skip(j + 1) =~= old_rooms.skip(j).skip(1));
                    j = j + 1;
                }
            } else {
                let ghost before = self.rooms@;
                proof {
                    assert(before.take(i + 1) =~= before.take(i as int).push(before[i as int]));
                    assert(before.skip(i + 1) =~= before.skip(i as int).skip(1));
                    assert(old_rooms.skip(j + 1) =~= old_rooms.skip(j).skip(1));
                    j = j + 1;
                }
                i += 1;
            }
        }
        proof {
            assert(old_rooms.skip(j).len() == 0);
            assert(old_rooms.take(j) =~= old_rooms);
            assert(self.rooms@.take(i as int) =~= self.rooms@);
        }
        // If the removed room was selected, select another one
        let was_selected = match &self.selected_room_id {
            Some(id) => str_eq(id.as_str(), room_id),
            None => false,
        };
        if was_selected {
            if self.rooms.len() > 0 {
                self.room_list.select_first(self.rooms.as_slice());
                self.selected_room_id = match self.selected_room() {
                    Some(r) => Some(copy_string(&r.room_id)),
                    None => None,
                };
            } else {
                self.selected_room_id = None;
                self.messages.clear();
            }
        }
    }
}

/// Position of the first room with id `id`.
pub open spec fn room_position(rooms: Seq<Room>, id: Seq<char>) -> Option<int>
    decreases rooms.len(),
{
    if rooms.len() == 0 {
        None
    } else if rooms[0].room_id@ == id {
        Some(0)
    } else {
        match room_position(rooms.drop_first(), id) {
            Some(k) => Some(k + 1),
            None => None,
        }
    }
}

proof fn lemma_room_position(rooms: Seq<Room>, id: Seq<char>, j: int)
    requires
        0 <= j <= rooms.len(),
        forall|q: int| 0 <= q < j ==> rooms[q].room_id@ != id,
    ensures
        j < rooms.len() && rooms[j].room_id@ == id ==> room_position(rooms, id) == Some(j),
        j == rooms.len() ==> room_position(rooms, id) is None,
    decreases j,
{
    if j > 0 {
        lemma_room_position(rooms.drop_first(), id, j - 1);
    }
}

/// Sum of the unread counts of `rooms`.
pub fn sum_unread(rooms: &[Room]) -> (n: usize)
    requires
        total_unread(rooms@) <= usize::MAX,
    ensures
        n == total_unread(rooms@),
{
    let mut total: usize = 0;
    let mut i: usize = 0;
    while i < rooms.len()
        invariant
            i <= rooms@.len(),
            total == total_unread(rooms@.take(i as int)),
            total_unread(rooms@) <= usize::MAX,
        decreases rooms@.len() - i,
    {
        proof {
            assert(rooms@.take(i + 1).drop_last() =~= rooms@.take(i as int));
            lemma_total_unread_prefix(rooms@, i + 1);
        }
        total = total + rooms[i].unread_count;
        i += 1;
    }
    assert(rooms@.take(i as int) =~= rooms@);
    total
}

/// A prefix never has more unread messages than the whole list.
proof fn lemma_total_unread_prefix(rooms: Seq<Room>, k: int)
    requires
        0 <= k <= rooms.len(),
    ensures
        total_unread(rooms.take(k)) <= total_unread(rooms),
    decreases rooms.len(),
{
    if k < rooms.len() {
        assert(rooms.drop_last().take(k) =~= rooms.take(k));
        lemma_total_unread_prefix(rooms.drop_last(), k);
    } else {
        assert(rooms.take(k) =~= rooms);
    }
}

/// Tab from the room list comes back to the room list after three presses.
pub proof fn lemma_focus_cycle(f: ChatFocus)
    requires
        f != ChatFocus::RoomFilter,
    ensures
        next_focus(next_focus(next_focus(f))) == f,
{
}

} // verus!

verus! {

impl ChatScreenState {
    /// Replaces the first room with id `room_id`, if any, by what `updater`
    /// makes of it.
    pub fn update_room<F: FnOnce(Room) -> Room>(&mut self, room_id: &str, updater: F)
        requires
            forall|r: Room| call_requires(updater, (r,)),
        ensures
            room_position(old(self).rooms@, room_id@) is None ==> final(self).rooms == old(self).rooms,
            room_position(old(self).rooms@, room_id@) matches Some(i) ==> {
                &&& final(self).rooms@ == old(self).rooms@.update(i, final(self).rooms@[i])
                &&& call_ensures(updater, (old(self).rooms@[i],), final(self).rooms@[i])
            },
            *final(self) == (Self { rooms: final(self).rooms, ..*old(self) }),
    {
        if let Some(i) = find_room(&self.rooms, room_id) {
            let room = self.rooms.remove(i);
            let after = updater(room);
            self.rooms.insert(i, after);
            assert(self.rooms@ =~= old(self).rooms@.update(i as int, after));
        }
    }
}

/// Index of the first room with id `room_id`.
fn find_room(rooms: &Vec<Room>, room_id: &str) -> (r: Option<usize>)
    ensures
        match r {
            Some(i) => room_position(rooms@, room_id@) == Some(i as int) && i < rooms@.len(),
            None => room_position(rooms@, room_id@) is None,
        },
{
    let mut i: usize = 0;
    while i < rooms.len()
        invariant
            i <= rooms@.len(),
            forall|q: int| 0 <= q < i ==> rooms@[q].room_id@ != room_id@,
        decreases rooms@.len() - i,
    {
        if str_eq(rooms[i].room_id.as_str(), room_id) {
            proof {
                lemma_room_position(rooms@, room_id@, i as int);
            }
            return Some(i);
        }
        i += 1;
    }
    proof {
        lemma_room_position(rooms@, room_id@, i as int);
    }
    None
}

} // verus!
