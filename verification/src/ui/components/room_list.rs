//! The room list: which rooms a filter lets through, and moving the
//! selection among them.
use vstd::prelude::*;

use crate::data::models::{room_type_icon, Room, RoomType};
use crate::screens::chat::chat_state::{sum_unread, total_unread};
use crate::text::{
    byte_len, char_index_at, contains_seq, decimal, lowercase, on_boundary, push_decimal,
    str_byte_len, str_contains, str_slice, string_clear, string_of, to_lowercase,
};
use crate::ui::styled::{
    bold_look, italic_look, line_view, lines_view, plain_look, push_line, Look, StyledLine,
    StyledSpan, Tone,
};

verus! {

/// Selection of a list widget: the selected row, if any, and the first row
/// shown.
#[derive(Debug, Clone, Copy, PartialEq, Eq, Structural)]
pub struct ListState {
    pub offset: usize,
    pub selected: Option<usize>,
}

impl ListState {
    pub fn default() -> (r: Self)
        ensures
            r.offset == 0,
            r.selected is None,
    {
        ListState { offset: 0, selected: None }
    }

    pub fn selected(&self) -> (r: Option<usize>)
        ensures
            r == self.selected,
    {
        self.selected
    }

    /// Selects `index`; selecting nothing also scrolls back to the top.
    pub fn select(&mut self, index: Option<usize>)
        ensures
            final(self).selected == index,
            index is Some ==> final(self).offset == old(self).offset,
            index is None ==> final(self).offset == 0,
    {
        self.selected = index;
        if index.is_none() {
            self.offset = 0;
        }
    }
}

/// The room's name, id or topic contains `filter` once lowercased.
pub open spec fn room_matches(room: Room, filter: Seq<char>) -> bool {
    ||| contains_seq(lowercase(room.shown_name()), filter)
    ||| contains_seq(lowercase(room.room_id@), filter)
    ||| (room.topic matches Some(t) && contains_seq(lowercase(t@), filter))
}

/// A room passes the unread-only switch and the filter text.
pub open spec fn room_passes(room: Room, unread_only: bool, filter: Seq<char>) -> bool {
    &&& !(unread_only && room.unread_count == 0)
    &&& (filter.len() == 0 || room_matches(room, lowercase(filter)))
}

/// Indices of the rooms that pass, in list order.
pub open spec fn passing_indices(rooms: Seq<Room>, unread_only: bool, filter: Seq<char>) -> Seq<int> {
    Seq::new(rooms.len(), |i: int| i).filter(
        |i: int| 0 <= i < rooms.len() && room_passes(rooms[i], unread_only, filter),
    )
}

/// Whether the room passes (`should_show_room`).
pub fn room_passes_filter(room: &Room, unread_only: bool, filter: &str) -> (b: bool)
    ensures
        b == room_passes(*room, unread_only, filter@),
{
    // Filter by unread status
    if unread_only && room.unread_count == 0 {
        return false;
    }
    // Filter by search text
    if !filter.is_empty() {
        let filter_lower = to_lowercase(filter);
        let name_matches = str_contains(
            to_lowercase(room.display_name()).as_str(),
            filter_lower.as_str(),
        );
        let id_matches = str_contains(
            to_lowercase(room.room_id.as_str()).as_str(),
            filter_lower.as_str(),
        );
        let topic_matches = match &room.topic {
            Some(t) => str_contains(to_lowercase(t.as_str()).as_str(), filter_lower.as_str()),
            None => false,
        };
        if !name_matches && !id_matches && !topic_matches {
            return false;
        }
    }
    true
}

/// Indices of the passing rooms (`get_filtered_room_indices`).
pub fn passing_room_indices(rooms: &[Room], unread_only: bool, filter: &str) -> (r: Vec<usize>)
    ensures
        r@.map_values(|i: usize| i as int) == passing_indices(rooms@, unread_only, filter@),
{
    let ghost pred = |i: int| 0 <= i < rooms@.len() && room_passes(rooms@[i], unread_only, filter@);
    let ghost ids = Seq::new(rooms@.len(), |i: int| i);
    let mut r: Vec<usize> = Vec::new();
    let mut i: usize = 0;
    while i < rooms.len()
        invariant
            i <= rooms@.len(),
            ids == Seq::new(rooms@.len(), |i: int| i),
            pred == (|i: int| 0 <= i < rooms@.len() && room_passes(rooms@[i], unread_only, filter@)),
            r@.map_values(|i: usize| i as int) == ids.take(i as int).filter(pred),
        decreases rooms@.len() - i,
    {
        proof {
            assert(ids.take(i + 1).drop_last() =~= ids.take(i as int));
            reveal_with_fuel(Seq::filter, 1);
        }
        let ghost before = r@;
        if room_passes_filter(&rooms[i], unread_only, filter) {
            r.push(i);
            assert(r@.map_values(|i: usize| i as int) =~= before.map_values(|i: usize| i as int).push(i as int));
        }
        i += 1;
    }
    assert(ids.take(rooms@.len() as int) =~= ids);
    r
}

/// The list's title: how many rooms show out of how many, the unread
/// total when there is one, and the active unread-only switch and filter.
pub open spec fn rooms_title(
    shown: nat,
    total: nat,
    unread: nat,
    unread_only: bool,
    filter: Seq<char>,
) -> Seq<char> {
    "Rooms ("@ + decimal(shown) + "/"@ + decimal(total) + ")"@ + (if unread > 0 {
        " • "@ + decimal(unread) + " unread"@
    } else {
        Seq::empty()
    }) + (if unread_only {
        " [Unread Only]"@
    } else {
        Seq::empty()
    }) + (if filter.len() > 0 {
        " [Filter: "@ + filter + "]"@
    } else {
        Seq::empty()
    })
}

/// The title text (see `rooms_title`).
fn rooms_title_text(shown: usize, total: usize, unread: usize, unread_only: bool, filter: &str) -> (r:
    String)
    ensures
        r@ == rooms_title(shown as nat, total as nat, unread as nat, unread_only, filter@),
{
    let mut title = string_of("Rooms (");
    push_decimal(&mut title, shown as u64);
    title.append("/");
    push_decimal(&mut title, total as u64);
    title.append(")");
    let ghost head = title@;
    if unread > 0 {
        title.append(" • ");
        push_decimal(&mut title, unread as u64);
        title.append(" unread");
    }
    let ghost with_unread = title@;
    if unread_only {
        title.append(" [Unread Only]");
    }
    let ghost with_switch = title@;
    if !filter.is_empty() {
        title.append(" [Filter: ");
        title.append(filter);
        title.append("]");
    }
    proof {
        let u: Seq<char> = if unread > 0 {
            " • "@ + decimal(unread as nat) + " unread"@
        } else {
            Seq::empty()
        };
        let o: Seq<char> = if unread_only {
            " [Unread Only]"@
        } else {
            Seq::empty()
        };
        let f: Seq<char> = if filter@.len() > 0 {
            " [Filter: "@ + filter@ + "]"@
        } else {
            Seq::empty()
        };
        assert(with_unread =~= head + u);
        assert(with_switch =~= head + u + o);
        assert(title@ =~= head + u + o + f);
    }
    title
}

/// Colour of a room kind's icon.
pub open spec fn type_tone(t: RoomType) -> Tone {
    match t {
        RoomType::DirectMessage => Tone::Green,
        RoomType::PublicRoom => Tone::Cyan,
        RoomType::PrivateRoom => Tone::Magenta,
        RoomType::Space => Tone::Blue,
    }
}

/// `prefix` and `text`, the text cut to its first 57 bytes and `...` when
/// it is longer than 60 bytes.
pub open spec fn clipped(prefix: Seq<char>, text: Seq<char>) -> Seq<char> {
    if byte_len(text) > 60 {
        prefix + text.take(char_index_at(text, 57)->0) + "..."@
    } else {
        prefix + text
    }
}

/// The 57-byte cut of a long text falls on a character boundary.
pub open spec fn clip_ok(text: Seq<char>) -> bool {
    byte_len(text) > 60 ==> on_boundary(text, 57)
}

/// The text (see `clipped`).
fn clipped_text(prefix: &str, text: &str) -> (r: String)
    requires
        clip_ok(text@),
    ensures
        r@ == clipped(prefix@, text@),
{
    let mut t = string_of(prefix);
    if str_byte_len(text) > 60 {
        proof {
            crate::text::lemma_start_index(text@);
        }
        let head = str_slice(text, 0, 57);
        t.append(head);
        t.append("...");
        assert(head@ =~= text@.take(char_index_at(text@, 57)->0));
    } else {
        t.append(text);
    }
    t
}

/// The first line of a room's entry: kind icon, padlock when encrypted,
/// name, unread count, and the member count of rooms that are not direct
/// chats. The selected room is yellow; otherwise the icon takes the
/// kind's colour and the name is bold white with unread messages, gray
/// without.
pub open spec fn room_line(room: Room, selected: bool) -> Seq<(Seq<char>, Look)> {
    let name_look = if selected {
        bold_look(Tone::Yellow)
    } else if room.unread_count > 0 {
        bold_look(Tone::White)
    } else {
        plain_look(Tone::Gray)
    };
    let icon_look = if selected {
        plain_look(Tone::Yellow)
    } else {
        plain_look(type_tone(room.room_type))
    };
    seq![(room_type_icon(room.room_type), icon_look), (" "@, plain_look(Tone::Plain))] + (
    if room.is_encrypted {
        seq![("🔐"@, plain_look(Tone::Green)), (" "@, plain_look(Tone::Plain))]
    } else {
        Seq::empty()
    }) + seq![(room.shown_name(), name_look)] + (if room.unread_count > 0 {
        seq![(room.unread_text(), bold_look(Tone::Red))]
    } else {
        Seq::empty()
    }) + (if room.room_type != RoomType::DirectMessage && room.member_count > 0 {
        seq![(" ["@ + decimal(room.member_count as nat) + "]"@, plain_look(Tone::DarkGray))]
    } else {
        Seq::empty()
    })
}

/// A room's entry, its last message's time written `time`: the first line,
/// and for the selected room its topic and a preview of its last message.
pub open spec fn room_item(room: Room, selected: bool, time: Seq<char>) -> Seq<Seq<(Seq<char>, Look)>> {
    seq![room_line(room, selected)] + (if selected && room.topic is Some {
        seq![seq![(clipped("  💬 "@, room.topic->0@), italic_look(Tone::DarkGray))]]
    } else {
        Seq::empty()
    }) + (if selected && room.last_message is Some {
        seq![seq![(clipped("  📝 "@, room.preview(time)), plain_look(Tone::DarkGray))]]
    } else {
        Seq::empty()
    })
}

/// `lines` is the entry of `room` for some time of its last message.
pub open spec fn is_room_entry(lines: Seq<Seq<(Seq<char>, Look)>>, room: Room, selected: bool) -> bool {
    exists|t: Seq<char>| lines == #[trigger] room_item(room, selected, t)
}

/// A room's entry can be made with `time` as its last message's time:
/// every cut falls on a character boundary.
pub open spec fn room_item_ok(room: Room, selected: bool, time: Seq<char>) -> bool {
    &&& room.previewable()
    &&& (selected && room.topic is Some ==> clip_ok(room.topic->0@))
    &&& (selected && room.last_message is Some ==> clip_ok(room.preview(time)))
}

/// A room's line in the compact list: kind icon in cyan, padlock, name
/// (bold yellow when selected, white otherwise) and unread count.
pub open spec fn compact_room_line(room: Room, selected: bool) -> Seq<(Seq<char>, Look)> {
    seq![(room_type_icon(room.room_type), plain_look(Tone::Cyan)), (" "@, plain_look(Tone::Plain))]
        + (if room.is_encrypted {
        seq![("🔐"@, plain_look(Tone::Green)), (" "@, plain_look(Tone::Plain))]
    } else {
        Seq::empty()
    }) + seq![
        (
            room.shown_name(),
            if selected {
                bold_look(Tone::Yellow)
            } else {
                plain_look(Tone::White)
            },
        ),
    ] + (if room.unread_count > 0 {
        seq![(room.unread_text(), bold_look(Tone::Red))]
    } else {
        Seq::empty()
    })
}

/// The entry of `room` with `time` as its last message's time.
pub fn room_item_at(room: &Room, is_selected: bool, time: &str) -> (r: Vec<StyledLine>)
    requires
        room_item_ok(*room, is_selected, time@),
    ensures
        lines_view(r@) == room_item(*room, is_selected, time@),
{
    let (name_style, icon_style) = if is_selected {
        (Look::bold(Tone::Yellow), Look::plain(Tone::Yellow))
    } else {
        let color = match room.room_type {
            RoomType::DirectMessage => Tone::Green,
            RoomType::PublicRoom => Tone::Cyan,
            RoomType::PrivateRoom => Tone::Magenta,
            RoomType::Space => Tone::Blue,
        };
        let name_style = if room.unread_count > 0 {
            Look::bold(Tone::White)
        } else {
            Look::plain(Tone::Gray)
        };
        (name_style, Look::plain(color))
    };
    let mut line = StyledLine::single(StyledSpan::from_str(room.type_icon(), icon_style));
    line.push(StyledSpan::from_str(" ", Look::plain(Tone::Plain)));
    let ghost l1 = line_view(line);
    if room.is_encrypted {
        line.push(StyledSpan::from_str(room.encryption_icon(), Look::plain(Tone::Green)));
        line.push(StyledSpan::from_str(" ", Look::plain(Tone::Plain)));
    }
    let ghost l2 = line_view(line);
    line.push(StyledSpan::from_str(room.display_name(), name_style));
    let ghost l3 = line_view(line);
    if room.unread_count > 0 {
        line.push(StyledSpan::new(room.unread_indicator(), Look::bold(Tone::Red)));
    }
    let ghost l4 = line_view(line);
    if room.room_type != RoomType::DirectMessage && room.member_count > 0 {
        let mut t = string_of(" [");
        push_decimal(&mut t, room.member_count as u64);
        t.append("]");
        line.push(StyledSpan::new(t, Look::plain(Tone::DarkGray)));
    }
    proof {
        assert(l1 =~= seq![(room_type_icon(room.room_type), icon_style), (" "@, plain_look(Tone::Plain))]);
        assert(line_view(line) =~= room_line(*room, is_selected));
    }
    let mut lines: Vec<StyledLine> = Vec::new();
    push_line(&mut lines, line);
    let ghost first = lines_view(lines@);
    if is_selected {
        if let Some(topic) = &room.topic {
            let text = clipped_text("  💬 ", topic.as_str());
            push_line(&mut lines, StyledLine::single(StyledSpan::new(text, Look::italic(Tone::DarkGray))));
        }
    }
    let ghost with_topic = lines_view(lines@);
    if is_selected && room.last_message.is_some() {
        let preview = room.preview_at(time);
        let text = clipped_text("  📝 ", preview.as_str());
        push_line(&mut lines, StyledLine::single(StyledSpan::new(text, Look::plain(Tone::DarkGray))));
    }
    proof {
        assert(lines_view(lines@) =~= room_item(*room, is_selected, time@));
    }
    lines
}

/// The selected room's preview could be cut inside a character for one of
/// the times the clock may give its last message.
pub open spec fn preview_may_split(room: Room) -> bool {
    &&& room.last_message is Some
    &&& exists|t: Seq<char>| room.preview_time_fits(t) && !clip_ok(#[trigger] room.preview(t))
}

/// The time of a room's last message as the preview writes it: the local
/// hour and minute, empty when the clock cannot place it or there is no
/// last message.
fn preview_time(room: &Room) -> (r: String)
    ensures
        room.preview_time_fits(r@),
        room.last_message is None ==> r@.len() == 0,
{
    match &room.last_message {
        Some(m) => match crate::clock::local_time_text(m.timestamp, crate::clock::TimePattern::HourMinute) {
            Some(t) => t,
            None => String::new(),
        },
        None => String::new(),
    }
}

/// Whether the 57-byte cut of `text` falls on a character boundary.
fn clips_cleanly(text: &str) -> (b: bool)
    ensures
        b == clip_ok(text@),
{
    if str_byte_len(text) <= 60 {
        return true;
    }
    let b = text.is_char_boundary(57);
    proof {
        crate::text::lemma_char_boundary_bytes(text@, 57);
    }
    b
}

/// What a room list shows: its title and its lines.
#[derive(Debug)]
pub struct RoomListView {
    pub title: String,
    pub items: Vec<StyledLine>,
}

/// What the room list widget shows: its title and the entry of each room
/// shown.
#[derive(Debug)]
pub struct RoomEntriesView {
    pub title: String,
    pub entries: Vec<Vec<StyledLine>>,
}

pub struct RoomList<'a> {
    pub rooms: &'a [Room],
    pub selected_index: Option<usize>,
    pub show_unread_only: bool,
    pub filter_text: Option<&'a str>,
}

impl<'a> RoomList<'a> {
    pub fn new(rooms: &'a [Room]) -> (r: Self)
        ensures
            r.rooms == rooms,
            r.selected_index is None,
            !r.show_unread_only,
            r.filter_text is None,
    {
        RoomList { rooms, selected_index: None, show_unread_only: false, filter_text: None }
    }

    pub fn selected(self, index: Option<usize>) -> (r: Self)
        ensures
            r == (Self { selected_index: index, ..self }),
    {
        let mut s = self;
        s.selected_index = index;
        s
    }

    pub fn show_unread_only(self, show_unread: bool) -> (r: Self)
        ensures
            r == (Self { show_unread_only: show_unread, ..self }),
    {
        let mut s = self;
        s.show_unread_only = show_unread;
        s
    }

    pub fn filter(self, filter_text: Option<&'a str>) -> (r: Self)
        ensures
            r == (Self { filter_text: filter_text, ..self }),
    {
        let mut s = self;
        s.filter_text = filter_text;
        s
    }

    /// The filter text in force (none counts as empty).
    pub open spec fn filter_seq(&self) -> Seq<char> {
        match self.filter_text {
            Some(f) => f@,
            None => Seq::empty(),
        }
    }

    /// Indices of the rooms shown, in order.
    pub open spec fn shown(&self) -> Seq<int> {
        passing_indices(self.rooms@, self.show_unread_only, self.filter_seq())
    }

    pub fn should_show_room(&self, room: &Room) -> (b: bool)
        ensures
            b == room_passes(*room, self.show_unread_only, self.filter_seq()),
    {
        match self.filter_text {
            Some(f) => room_passes_filter(room, self.show_unread_only, f),
            None => {
                proof {
                    reveal_strlit("");
                }
                room_passes_filter(room, self.show_unread_only, "")
            },
        }
    }

    /// The rooms shown, with their indices in the list.
    pub fn get_filtered_rooms(&self) -> (r: Vec<(usize, &'a Room)>)
        ensures
            r@.len() == self.shown().len(),
            forall|k: int|
                0 <= k < r@.len() ==> #[trigger] r@[k].0 == self.shown()[k] && *r@[k].1
                    == self.rooms@[self.shown()[k]],
    {
        let f = match self.filter_text {
            Some(f) => f,
            None => {
                proof {
                    reveal_strlit("");
                }
                ""
            },
        };
        assert(f@ == self.filter_seq());
        let idx = passing_room_indices(self.rooms, self.show_unread_only, f);
        let ghost sh = idx@.map_values(|i: usize| i as int);
        assert(sh == self.shown());
        proof {
            lemma_listed_rooms(self.rooms@, self.show_unread_only, self.filter_seq());
        }
        let mut r: Vec<(usize, &'a Room)> = Vec::new();
        let mut k: usize = 0;
        while k < idx.len()
            invariant
                sh == idx@.map_values(|i: usize| i as int),
                sh == self.shown(),
                forall|q: int| 0 <= q < sh.len() ==> 0 <= #[trigger] sh[q] < self.rooms@.len(),
                k <= idx@.len(),
                r@.len() == k,
                forall|q: int|
                    0 <= q < k ==> #[trigger] r@[q].0 == sh[q] && *r@[q].1 == self.rooms@[sh[q]],
            decreases idx@.len() - k,
        {
            let i = idx[k];
            assert(sh[k as int] == i as int);
            r.push((i, &self.rooms[i]));
            k += 1;
        }
        r
    }

    /// The list's title (see `rooms_title`).
    pub fn get_title(&self) -> (r: String)
        requires
            total_unread(self.rooms@) <= usize::MAX,
        ensures
            r@ == rooms_title(
                self.shown().len(),
                self.rooms@.len(),
                total_unread(self.rooms@) as nat,
                self.show_unread_only,
                self.filter_seq(),
            ),
    {
        let total_rooms = self.rooms.len();
        let filtered_rooms = self.get_filtered_rooms().len();
        let unread_count = sum_unread(self.rooms);
        match self.filter_text {
            Some(f) => rooms_title_text(filtered_rooms, total_rooms, unread_count, self.show_unread_only, f),
            None => {
                proof {
                    reveal_strlit("");
                }
                rooms_title_text(filtered_rooms, total_rooms, unread_count, self.show_unread_only, "")
            },
        }
    }

    /// The room at list index `i` is the selected one.
    pub open spec fn is_selected_index(&self, i: int) -> bool {
        self.selected_index matches Some(s) && s as int == i
    }

    /// What the list shows: its title and an entry for each room shown;
    /// `None` only when the selected room is shown and the cut of its
    /// preview, for some time the clock may give its last message, would
    /// split a character (see `format_room_item`).
    pub fn list_view(&self) -> (r: Option<RoomEntriesView>)
        requires
            total_unread(self.rooms@) <= usize::MAX,
            forall|i: int|
                0 <= i < self.rooms@.len() ==> (#[trigger] self.rooms@[i]).previewable() && (
                self.is_selected_index(i) && self.rooms@[i].topic is Some ==> clip_ok(
                    self.rooms@[i].topic->0@,
                )),
        ensures
            r matches Some(v) ==> {
                &&& v.title@ == rooms_title(
                    self.shown().len(),
                    self.rooms@.len(),
                    total_unread(self.rooms@) as nat,
                    self.show_unread_only,
                    self.filter_seq(),
                )
                &&& v.entries@.len() == self.shown().len()
                &&& forall|k: int|
                    0 <= k < v.entries@.len() ==> is_room_entry(
                        lines_view(#[trigger] v.entries@[k]@),
                        self.rooms@[self.shown()[k]],
                        self.is_selected_index(self.shown()[k]),
                    )
            },
            r is None ==> exists|q: int|
                0 <= q < self.shown().len() && self.is_selected_index(self.shown()[q])
                    && preview_may_split(#[trigger] self.rooms@[self.shown()[q]]),
    {
        let filtered = self.get_filtered_rooms();
        proof {
            lemma_listed_rooms(self.rooms@, self.show_unread_only, self.filter_seq());
            assert(filtered@.len() == self.shown().len());
            assert forall|q: int| 0 <= q < filtered@.len() implies #[trigger] filtered@[q].0
                == self.shown()[q] by {}
            assert forall|q: int| 0 <= q < filtered@.len() implies *(#[trigger] filtered@[q]).1
                == self.rooms@[self.shown()[q]] by {
                assert(filtered@[q].0 == self.shown()[q]);
            }
        }
        let mut entries: Vec<Vec<StyledLine>> = Vec::new();
        let mut k: usize = 0;
        while k < filtered.len()
            invariant
                filtered@.len() == self.shown().len(),
                forall|q: int|
                    0 <= q < filtered@.len() ==> #[trigger] filtered@[q].0 == self.shown()[q]
                        && *filtered@[q].1 == self.rooms@[self.shown()[q]],
                forall|q: int|
                    0 <= q < self.shown().len() ==> 0 <= #[trigger] self.shown()[q] < self.rooms@.len(),
                forall|i: int|
                    0 <= i < self.rooms@.len() ==> (#[trigger] self.rooms@[i]).previewable() && (
                    self.is_selected_index(i) && self.rooms@[i].topic is Some ==> clip_ok(
                        self.rooms@[i].topic->0@,
                    )),
                k <= filtered@.len(),
                entries@.len() == k,
                forall|q: int|
                    0 <= q < k ==> is_room_entry(
                        lines_view(#[trigger] entries@[q]@),
                        self.rooms@[self.shown()[q]],
                        self.is_selected_index(self.shown()[q]),
                    ),
            decreases filtered@.len() - k,
        {
            let (original_index, room) = filtered[k];
            let is_selected = match self.selected_index {
                Some(selected) => selected == original_index,
                None => false,
            };
            assert(self.rooms@[self.shown()[k as int]] == *room);
            assert(is_selected == self.is_selected_index(self.shown()[k as int]));
            match self.format_room_item(room, is_selected) {
                Some(lines) => {
                    proof {
                        let t = choose|t: Seq<char>|
                            room_item_ok(*room, is_selected, t) && lines_view(lines@)
                                == #[trigger] room_item(*room, is_selected, t);
                        assert(is_room_entry(lines_view(lines@), *room, is_selected));
                    }
                    entries.push(lines);
                },
                None => {
                    assert(preview_may_split(self.rooms@[self.shown()[k as int]]));
                    return None;
                },
            }
            k += 1;
        }
        Some(RoomEntriesView { title: self.get_title(), entries })
    }

    /// A room's entry; `None` when the cut of its preview, whose time
    /// comes from the clock, would split a character.
    pub fn format_room_item(&self, room: &Room, is_selected: bool) -> (r: Option<Vec<StyledLine>>)
        requires
            room.previewable(),
            is_selected && room.topic is Some ==> clip_ok(room.topic->0@),
        ensures
            r matches Some(lines) ==> exists|t: Seq<char>|
                room.preview_time_fits(t) && room_item_ok(*room, is_selected, t) && lines_view(lines@)
                    == #[trigger] room_item(*room, is_selected, t),
            r is None ==> is_selected && preview_may_split(*room),
    {
        let time = preview_time(room);
        if is_selected && room.last_message.is_some() {
            let preview = room.preview_at(time.as_str());
            if !clips_cleanly(preview.as_str()) {
                assert(room.preview_time_fits(time@) && !clip_ok(room.preview(time@)));
                return None;
            }
        }
        Some(room_item_at(room, is_selected, time.as_str()))
    }
}

/// Position of the first occurrence of `x` in `f`.
pub open spec fn first_position(f: Seq<int>, x: int) -> Option<int>
    decreases f.len(),
{
    if f.len() == 0 {
        None
    } else if f[0] == x {
        Some(0)
    } else {
        match first_position(f.drop_first(), x) {
            Some(k) => Some(k + 1),
            None => None,
        }
    }
}

proof fn lemma_first_position(f: Seq<int>, x: int, j: int)
    requires
        0 <= j <= f.len(),
        forall|q: int| 0 <= q < j ==> f[q] != x,
    ensures
        j < f.len() && f[j] == x ==> first_position(f, x) == Some(j),
        j == f.len() ==> first_position(f, x) is None,
    decreases j,
{
    if j > 0 {
        lemma_first_position(f.drop_first(), x, j - 1);
    } else if f.len() > 0 && f[0] != x {
        lemma_first_position_none_or(f, x);
    }
}

proof fn lemma_first_position_none_or(f: Seq<int>, x: int)
    ensures
        first_position(f, x) matches Some(k) ==> 0 <= k < f.len() && f[k] == x,
    decreases f.len(),
{
    if f.len() > 0 && f[0] != x {
        lemma_first_position_none_or(f.drop_first(), x);
    }
}

/// The selection after moving down among the listed rooms `f`: the next
/// listed room after the selected one, wrapping around; the first listed
/// room when nothing listed was selected.
pub open spec fn next_selection(f: Seq<int>, sel: Option<usize>) -> int {
    match sel {
        Some(i) => match first_position(f, i as int) {
            Some(pos) => f[(pos + 1) % f.len() as int],
            None => f[0],
        },
        None => f[0],
    }
}

/// The selection after moving up among the listed rooms `f`: the listed
/// room before the selected one, wrapping around; the last listed room when
/// the selection is not listed; the first when nothing was selected.
pub open spec fn previous_selection(f: Seq<int>, sel: Option<usize>) -> int {
    match sel {
        Some(i) => match first_position(f, i as int) {
            Some(pos) => if pos == 0 {
                f[f.len() - 1]
            } else {
                f[pos - 1]
            },
            None => f[f.len() - 1],
        },
        None => f[0],
    }
}

/// Stateful wrapper for RoomList that manages selection
#[derive(Debug)]
pub struct StatefulRoomList {
    pub state: ListState,
    pub show_unread_only: bool,
    pub filter_text: String,
}

impl StatefulRoomList {
    /// Indices of the rooms this list shows.
    pub open spec fn listed(&self, rooms: Seq<Room>) -> Seq<int> {
        passing_indices(rooms, self.show_unread_only, self.filter_text@)
    }

    /// The list's title (see `rooms_title`).
    pub fn get_title(&self, rooms: &[Room]) -> (r: String)
        requires
            total_unread(rooms@) <= usize::MAX,
        ensures
            r@ == rooms_title(
                self.listed(rooms@).len(),
                rooms@.len(),
                total_unread(rooms@) as nat,
                self.show_unread_only,
                self.filter_text@,
            ),
    {
        let total_rooms = rooms.len();
        let filtered_rooms = self.get_filtered_room_indices(rooms);
        let ghost f = filtered_rooms@.map_values(|i: usize| i as int);
        assert(f.len() == filtered_rooms@.len());
        let unread_count = sum_unread(rooms);
        rooms_title_text(
            filtered_rooms.len(),
            total_rooms,
            unread_count,
            self.show_unread_only,
            self.filter_text.as_str(),
        )
    }

    /// What the list shows: its title, and a line for each room shown, the
    /// selected one highlighted.
    pub fn list_view(&self, rooms: &[Room]) -> (r: RoomListView)
        requires
            total_unread(rooms@) <= usize::MAX,
        ensures
            r.title@ == rooms_title(
                self.listed(rooms@).len(),
                rooms@.len(),
                total_unread(rooms@) as nat,
                self.show_unread_only,
                self.filter_text@,
            ),
            lines_view(r.items@) == self.listed(rooms@).map_values(
                |i: int| compact_room_line(rooms@[i], self.state.selected == Some(i as usize)),
            ),
    {
        let filtered_rooms = self.get_filtered_room_indices(rooms);
        let ghost f = filtered_rooms@.map_values(|i: usize| i as int);
        proof {
            lemma_listed_rooms(rooms@, self.show_unread_only, self.filter_text@);
        }
        let mut items: Vec<StyledLine> = Vec::new();
        let mut k: usize = 0;
        while k < filtered_rooms.len()
            invariant
                f == filtered_rooms@.map_values(|i: usize| i as int),
                f == self.listed(rooms@),
                forall|q: int| 0 <= q < f.len() ==> 0 <= #[trigger] f[q] < rooms@.len(),
                k <= filtered_rooms@.len(),
                lines_view(items@) == f.take(k as int).map_values(
                    |i: int| compact_room_line(rooms@[i], self.state.selected == Some(i as usize)),
                ),
            decreases filtered_rooms@.len() - k,
        {
            let room_index = filtered_rooms[k];
            assert(f[k as int] == room_index as int);
            let room = &rooms[room_index];
            let is_selected = match self.state.selected() {
                Some(selected) => selected == room_index,
                None => false,
            };
            let mut line = StyledLine::single(StyledSpan::from_str(room.type_icon(), Look::plain(Tone::Cyan)));
            line.push(StyledSpan::from_str(" ", Look::plain(Tone::Plain)));
            if room.is_encrypted {
                line.push(StyledSpan::from_str(room.encryption_icon(), Look::plain(Tone::Green)));
                line.push(StyledSpan::from_str(" ", Look::plain(Tone::Plain)));
            }
            let name_style = if is_selected {
                Look::bold(Tone::Yellow)
            } else {
                Look::plain(Tone::White)
            };
            line.push(StyledSpan::from_str(room.display_name(), name_style));
            if room.unread_count > 0 {
                line.push(StyledSpan::new(room.unread_indicator(), Look::bold(Tone::Red)));
            }
            proof {
                assert(line_view(line) =~= compact_room_line(*room, is_selected));
            }
            push_line(&mut items, line);
            k += 1;
            proof {
                assert(f.take(k as int).map_values(
                    |i: int| compact_room_line(rooms@[i], self.state.selected == Some(i as usize)),
                ) =~= f.take(k - 1).map_values(
                    |i: int| compact_room_line(rooms@[i], self.state.selected == Some(i as usize)),
                ).push(compact_room_line(rooms@[f[k - 1]], self.state.selected == Some(room_index))));
            }
        }
        assert(f.take(filtered_rooms@.len() as int) =~= f);
        let title = self.get_title(rooms);
        RoomListView { title, items }
    }

    pub fn default() -> (r: Self)
        ensures
            r.state.selected is None,
            r.state.offset == 0,
            !r.show_unread_only,
            r.filter_text@ == Seq::<char>::empty(),
    {
        StatefulRoomList { state: ListState::default(), show_unread_only: false, filter_text: String::new() }
    }

    pub fn new() -> (r: Self)
        ensures
            r.state.selected is None,
            r.state.offset == 0,
            !r.show_unread_only,
            r.filter_text@ == Seq::<char>::empty(),
    {
        Self::default()
    }

    /// Selects the first room, if there is any.
    pub fn select_first(&mut self, rooms: &[Room])
        ensures
            rooms@.len() > 0 ==> final(self).state.selected == Some(0usize) && final(self).state.offset
                == old(self).state.offset,
            rooms@.len() == 0 ==> final(self).state == old(self).state,
            final(self).show_unread_only == old(self).show_unread_only,
            final(self).filter_text == old(self).filter_text,
    {
        if rooms.len() > 0 {
            self.state.select(Some(0));
        }
    }

    /// Moves the selection down among the listed rooms, wrapping around.
    pub fn select_next(&mut self, rooms: &[Room])
        ensures
            ({
                let f = old(self).listed(rooms@);
                &&& f.len() == 0 ==> final(self).state == old(self).state
                &&& f.len() > 0 ==> final(self).state.selected == Some(
                    next_selection(f, old(self).state.selected) as usize,
                ) && final(self).state.offset == old(self).state.offset
            }),
            final(self).show_unread_only == old(self).show_unread_only,
            final(self).filter_text == old(self).filter_text,
    {
        let filtered_rooms = self.get_filtered_room_indices(rooms);
        let ghost f = filtered_rooms@.map_values(|i: usize| i as int);
        let n = filtered_rooms.len();
        if n == 0 {
            return;
        }
        let selected = match self.state.selected() {
            Some(i) => {
                // Find current position in filtered list
                match position_in(&filtered_rooms, i) {
                    Some(pos) => filtered_rooms[(pos + 1) % n],
                    None => filtered_rooms[0],
                }
            },
            None => filtered_rooms[0],
        };
        self.state.select(Some(selected));
    }

    /// Moves the selection up among the listed rooms, wrapping around.
    pub fn select_previous(&mut self, rooms: &[Room])
        ensures
            ({
                let f = old(self).listed(rooms@);
                &&& f.len() == 0 ==> final(self).state == old(self).state
                &&& f.len() > 0 ==> final(self).state.selected == Some(
                    previous_selection(f, old(self).state.selected) as usize,
                ) && final(self).state.offset == old(self).state.offset
            }),
            final(self).show_unread_only == old(self).show_unread_only,
            final(self).filter_text == old(self).filter_text,
    {
        let filtered_rooms = self.get_filtered_room_indices(rooms);
        let n = filtered_rooms.len();
        if n == 0 {
            return;
        }
        let selected = match self.state.selected() {
            Some(i) => {
                match position_in(&filtered_rooms, i) {
                    Some(pos) => if pos == 0 {
                        filtered_rooms[n - 1]
                    } else {
                        filtered_rooms[pos - 1]
                    },
                    None => filtered_rooms[n - 1],
                }
            },
            None => filtered_rooms[0],
        };
        self.state.select(Some(selected));
    }

    pub fn selected_room_index(&self) -> (r: Option<usize>)
        ensures
            r == self.state.selected,
    {
        self.state.selected()
    }

    /// The selected room, when the selection is within `rooms`.
    pub fn selected_room<'a>(&self, rooms: &'a [Room]) -> (r: Option<&'a Room>)
        ensures
            r == match self.state.selected {
                Some(i) => if i < rooms@.len() {
                    Some(&rooms@[i as int])
                } else {
                    None
                },
                None => None,
            },
    {
        match self.state.selected() {
            Some(i) => if i < rooms.len() {
                Some(&rooms[i])
            } else {
                None
            },
            None => None,
        }
    }

    pub fn toggle_unread_filter(&mut self)
        ensures
            final(self).show_unread_only == !old(self).show_unread_only,
            final(self).state == old(self).state,
            final(self).filter_text == old(self).filter_text,
    {
        self.show_unread_only = !self.show_unread_only;
    }

    pub fn set_filter(&mut self, filter: String)
        ensures
            final(self).filter_text@ == filter@,
            final(self).state == old(self).state,
            final(self).show_unread_only == old(self).show_unread_only,
    {
        self.filter_text = filter;
    }

    pub fn clear_filter(&mut self)
        ensures
            final(self).filter_text@ == Seq::<char>::empty(),
            final(self).state == old(self).state,
            final(self).show_unread_only == old(self).show_unread_only,
    {
        string_clear(&mut self.filter_text);
    }

    /// Whether this list shows `room`.
    pub fn should_show_room(&self, room: &Room) -> (b: bool)
        ensures
            b == room_passes(*room, self.show_unread_only, self.filter_text@),
    {
        room_passes_filter(room, self.show_unread_only, self.filter_text.as_str())
    }

    /// Indices of the rooms this list shows, in order.
    pub fn get_filtered_room_indices(&self, rooms: &[Room]) -> (r: Vec<usize>)
        ensures
            r@.map_values(|i: usize| i as int) == self.listed(rooms@),
    {
        passing_room_indices(rooms, self.show_unread_only, self.filter_text.as_str())
    }
}

/// Position of the first occurrence of `x` in `v`.
fn position_in(v: &Vec<usize>, x: usize) -> (r: Option<usize>)
    ensures
        first_position(v@.map_values(|i: usize| i as int), x as int) == match r {
            Some(p) => Some(p as int),
            None => None::<int>,
        },
        r matches Some(p) ==> p < v@.len(),
{
    let ghost f = v@.map_values(|i: usize| i as int);
    let mut j: usize = 0;
    while j < v.len()
        invariant
            j <= v@.len(),
            f == v@.map_values(|i: usize| i as int),
            forall|q: int| 0 <= q < j ==> f[q] != x as int,
        decreases v@.len() - j,
    {
        if v[j] == x {
            proof {
                lemma_first_position(f, x as int, j as int);
            }
            return Some(j);
        }
        j += 1;
    }
    proof {
        lemma_first_position(f, x as int, j as int);
    }
    None
}

/// Every index a list shows names a room of the list and passes its filter.
pub proof fn lemma_listed_rooms(rooms: Seq<Room>, unread_only: bool, filter: Seq<char>)
    ensures
        forall|k: int|
            0 <= k < passing_indices(rooms, unread_only, filter).len() ==> {
                let i = #[trigger] passing_indices(rooms, unread_only, filter)[k];
                0 <= i < rooms.len() && room_passes(rooms[i], unread_only, filter)
            },
{
    Seq::new(rooms.len(), |i: int| i).filter_lemma(
        |i: int| 0 <= i < rooms.len() && room_passes(rooms[i], unread_only, filter),
    );
}

/// Moving the selection up or down keeps it on a listed room.
pub proof fn lemma_selection_stays_listed(f: Seq<int>, sel: Option<usize>)
    requires
        f.len() > 0,
    ensures
        f.contains(next_selection(f, sel)),
        f.contains(previous_selection(f, sel)),
{
    if let Some(i) = sel {
        lemma_first_position_none_or(f, i as int);
    }
    let n = next_selection(f, sel);
    let p = previous_selection(f, sel);
    match sel {
        Some(i) => match first_position(f, i as int) {
            Some(pos) => {
                assert(f[(pos + 1) % f.len() as int] == n);
                if pos == 0 {
                    assert(f[f.len() - 1] == p);
                } else {
                    assert(f[pos - 1] == p);
                }
            },
            None => {
                assert(f[0] == n);
                assert(f[f.len() - 1] == p);
            },
        },
        None => {
            assert(f[0] == n);
            assert(f[0] == p);
        },
    }
}

/// Keeping some items of a rising sequence keeps it rising, and bounded by
/// its last item.
proof fn lemma_filter_rising(s: Seq<int>, pred: spec_fn(int) -> bool)
    requires
        forall|a: int, b: int| 0 <= a < b < s.len() ==> s[a] < s[b],
    ensures
        forall|a: int, b: int|
            #![trigger s.filter(pred)[a], s.filter(pred)[b]]
            0 <= a < b < s.filter(pred).len() ==> s.filter(pred)[a] < s.filter(pred)[b],
        s.len() > 0 ==> forall|a: int|
            0 <= a < s.filter(pred).len() ==> #[trigger] s.filter(pred)[a] <= s.last(),
    decreases s.len(),
{
    reveal_with_fuel(Seq::filter, 1);
    if s.len() > 0 {
        let d = s.drop_last();
        lemma_filter_rising(d, pred);
        let sub = d.filter(pred);
        if d.len() > 0 {
            assert(d.last() < s.last());
        } else {
            assert(sub.len() == 0);
        }
    }
}

/// The listed rooms are in the order of the room list, each once.
pub proof fn lemma_listed_rising(rooms: Seq<Room>, unread_only: bool, filter: Seq<char>)
    ensures
        forall|a: int, b: int|
            #![trigger passing_indices(rooms, unread_only, filter)[a], passing_indices(rooms, unread_only, filter)[b]]
            0 <= a < b < passing_indices(rooms, unread_only, filter).len()
                ==> passing_indices(rooms, unread_only, filter)[a] < passing_indices(
                rooms,
                unread_only,
                filter,
            )[b],
{
    lemma_filter_rising(
        Seq::new(rooms.len(), |i: int| i),
        |i: int| 0 <= i < rooms.len() && room_passes(rooms[i], unread_only, filter),
    );
}

/// From the listed room at position `pos`, moving down selects the listed
/// room at the next position, the first after the last; moving up selects
/// the one at the previous position, the last before the first. With two
/// or more listed rooms either move changes the selection.
pub proof fn lemma_selection_steps(f: Seq<int>, pos: int)
    requires
        0 <= pos < f.len(),
        forall|a: int, b: int| 0 <= a < b < f.len() ==> f[a] != f[b],
        0 <= f[pos] <= usize::MAX,
    ensures
        next_selection(f, Some(f[pos] as usize)) == f[(pos + 1) % (f.len() as int)],
        previous_selection(f, Some(f[pos] as usize)) == f[if pos == 0 {
            f.len() - 1
        } else {
            pos - 1
        }],
        f.len() >= 2 ==> next_selection(f, Some(f[pos] as usize)) != f[pos]
            && previous_selection(f, Some(f[pos] as usize)) != f[pos],
{
    lemma_first_position(f, f[pos], pos);
    if f.len() >= 2 {
        let len = f.len() as int;
        let n = (pos + 1) % len;
        assert(n != pos) by (nonlinear_arith)
            requires
                n == (pos + 1) % len,
                0 <= pos < len,
                len >= 2,
        {
            if pos + 1 < len {
                assert((pos + 1) % len == pos + 1);
            } else {
                assert((pos + 1) % len == 0);
            }
        }
        assert(f[n] != f[pos]);
        let p = if pos == 0 { f.len() - 1 } else { pos - 1 };
        assert(f[p] != f[pos]);
    }
}

/// `select_next` on a room list moves from the listed room at position
/// `pos` to the listed room at the next position (the first after the
/// last), and `select_previous` to the one at the previous position (the
/// last before the first), so with two or more listed rooms either move
/// changes the selection.
pub proof fn lemma_select_next_listed(list: StatefulRoomList, rooms: Seq<Room>, pos: int)
    requires
        rooms.len() <= usize::MAX,
        0 <= pos < list.listed(rooms).len(),
    ensures
        ({
            let f = list.listed(rooms);
            &&& next_selection(f, Some(f[pos] as usize)) == f[(pos + 1) % (f.len() as int)]
            &&& previous_selection(f, Some(f[pos] as usize)) == f[if pos == 0 {
                f.len() - 1
            } else {
                pos - 1
            }]
            &&& f.len() >= 2 ==> next_selection(f, Some(f[pos] as usize)) != f[pos]
                && previous_selection(f, Some(f[pos] as usize)) != f[pos]
        }),
{
    let f = list.listed(rooms);
    lemma_listed_rooms(rooms, list.show_unread_only, list.filter_text@);
    lemma_listed_rising(rooms, list.show_unread_only, list.filter_text@);
    assert(0 <= f[pos] < rooms.len());
    assert forall|a: int, b: int| 0 <= a < b < f.len() implies f[a] != f[b] by {
        assert(f[a] < f[b]);
    }
    lemma_selection_steps(f, pos);
}

} // verus!
