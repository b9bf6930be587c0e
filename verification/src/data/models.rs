//! Users, rooms, messages and typing state of the chat client.
//!
//! A message's time is a count of milliseconds since the Unix epoch.
use vstd::prelude::*;

use crate::clock::{hour_minute_text, in_clock_range, local_time_text, now_millis, TimePattern};
use crate::text::{string_len, 
    byte_len, char_index_at, copy_opt_string, copy_string, decimal, ellipsize, on_boundary,
    push_decimal, str_byte_len, str_eq, str_slice, string_of, typing_sentence,
};

verus! {

#[derive(Debug)]
pub struct User {
    pub user_id: String,
    pub display_name: Option<String>,
    pub avatar_url: Option<String>,
    pub presence: UserPresence,
}

#[derive(Debug, Clone, Copy, PartialEq, Eq, Structural)]
pub enum UserPresence {
    Online,
    Offline,
    Away,
    Busy,
    Unknown,
}

/// The view of an optional string.
pub open spec fn opt_view(o: Option<String>) -> Option<Seq<char>> {
    match o {
        Some(s) => Some(s@),
        None => None,
    }
}

/// Icon shown for a presence.
pub open spec fn presence_icon_text(p: UserPresence) -> Seq<char> {
    match p {
        UserPresence::Online => "🟢"@,
        UserPresence::Away => "🟡"@,
        UserPresence::Busy => "🔴"@,
        UserPresence::Offline => "⚫"@,
        UserPresence::Unknown => "⚪"@,
    }
}

impl User {
    /// The user's name as shown: the display name, else the user id.
    pub open spec fn shown_name(&self) -> Seq<char> {
        match self.display_name {
            Some(n) => n@,
            None => self.user_id@,
        }
    }

    /// `other` has the same user id, names, avatar and presence.
    pub open spec fn same_as(&self, other: &User) -> bool {
        &&& self.user_id@ == other.user_id@
        &&& opt_view(self.display_name) == opt_view(other.display_name)
        &&& opt_view(self.avatar_url) == opt_view(other.avatar_url)
        &&& self.presence == other.presence
    }

    pub fn new(user_id: String) -> (r: Self)
        ensures
            r.user_id@ == user_id@,
            r.display_name is None,
            r.avatar_url is None,
            r.presence == UserPresence::Unknown,
    {
        User { user_id, display_name: None, avatar_url: None, presence: UserPresence::Unknown }
    }

    pub fn display_name(&self) -> (r: &str)
        ensures
            r@ == self.shown_name(),
    {
        match &self.display_name {
            Some(n) => n.as_str(),
            None => self.user_id.as_str(),
        }
    }

    pub fn presence_icon(&self) -> (r: &'static str)
        ensures
            r@ == presence_icon_text(self.presence),
    {
        match self.presence {
            UserPresence::Online => "🟢",
            UserPresence::Away => "🟡",
            UserPresence::Busy => "🔴",
            UserPresence::Offline => "⚫",
            UserPresence::Unknown => "⚪",
        }
    }

    /// A copy of the user.
    pub fn duplicate(&self) -> (r: User)
        ensures
            r.same_as(self),
    {
        User {
            user_id: copy_string(&self.user_id),
            display_name: copy_opt_string(&self.display_name),
            avatar_url: copy_opt_string(&self.avatar_url),
            presence: self.presence,
        }
    }
}

#[derive(Debug, Clone, Copy, PartialEq, Eq, Structural)]
pub enum RoomType {
    DirectMessage,
    PublicRoom,
    PrivateRoom,
    Space,
}

/// Icon shown for a room type.
pub open spec fn room_type_icon(t: RoomType) -> Seq<char> {
    match t {
        RoomType::DirectMessage => "💬"@,
        RoomType::PublicRoom => "🏛️"@,
        RoomType::PrivateRoom => "🔒"@,
        RoomType::Space => "🌌"@,
    }
}

#[derive(Debug)]
pub struct Room {
    pub room_id: String,
    pub display_name: Option<String>,
    pub topic: Option<String>,
    pub avatar_url: Option<String>,
    pub member_count: usize,
    pub unread_count: usize,
    pub last_message: Option<Message>,
    pub room_type: RoomType,
    pub is_encrypted: bool,
    pub is_direct: bool,
}

impl Room {
    /// The room's name as shown: the display name, else the room id.
    pub open spec fn shown_name(&self) -> Seq<char> {
        match self.display_name {
            Some(n) => n@,
            None => self.room_id@,
        }
    }

    pub fn new(room_id: String, room_type: RoomType) -> (r: Self)
        ensures
            r.room_id@ == room_id@,
            r.display_name is None,
            r.topic is None,
            r.avatar_url is None,
            r.member_count == 0,
            r.unread_count == 0,
            r.last_message is None,
            !r.is_encrypted,
            r.is_direct == (room_type == RoomType::DirectMessage),
            r.room_type == room_type,
    {
        Room {
            room_id,
            display_name: None,
            topic: None,
            avatar_url: None,
            member_count: 0,
            unread_count: 0,
            last_message: None,
            is_encrypted: false,
            is_direct: room_type == RoomType::DirectMessage,
            room_type,
        }
    }

    pub fn display_name(&self) -> (r: &str)
        ensures
            r@ == self.shown_name(),
    {
        match &self.display_name {
            Some(n) => n.as_str(),
            None => self.room_id.as_str(),
        }
    }

    pub fn type_icon(&self) -> (r: &'static str)
        ensures
            r@ == room_type_icon(self.room_type),
    {
        match self.room_type {
            RoomType::DirectMessage => "💬",
            RoomType::PublicRoom => "🏛️",
            RoomType::PrivateRoom => "🔒",
            RoomType::Space => "🌌",
        }
    }

    pub fn encryption_icon(&self) -> (r: &'static str)
        ensures
            r@ == if self.is_encrypted {
                "🔐"@
            } else {
                ""@
            },
    {
        if self.is_encrypted {
            "🔐"
        } else {
            ""
        }
    }

    /// `" (N)"` for N unread messages, nothing when there are none.
    pub open spec fn unread_text(&self) -> Seq<char> {
        if self.unread_count > 0 {
            " ("@ + decimal(self.unread_count as nat) + ")"@
        } else {
            Seq::empty()
        }
    }

    pub fn unread_indicator(&self) -> (r: String)
        ensures
            r@ == self.unread_text(),
    {
        if self.unread_count > 0 {
            let mut t = string_of(" (");
            push_decimal(&mut t, self.unread_count as u64);
            t.append(")");
            t
        } else {
            String::new()
        }
    }

    /// `"sender: content (time)"` for the last message, with the time of
    /// day written as `time`; `"No messages"` without one.
    pub open spec fn preview(&self, time: Seq<char>) -> Seq<char> {
        match self.last_message {
            Some(msg) => msg.sender.shown_name() + ": "@ + preview_content(msg.content) + " ("@
                + time + ")"@,
            None => "No messages"@,
        }
    }

    /// A long text body is cut at a character boundary.
    pub open spec fn previewable(&self) -> bool {
        self.last_message matches Some(msg) ==> preview_cut_ok(msg.content)
    }

    /// `t` can be the time the preview gives the last message: the local
    /// hour and minute (`HH:MM`), or nothing where chrono cannot place the
    /// instant, which never happens inside `in_clock_range`.
    pub open spec fn preview_time_fits(&self, t: Seq<char>) -> bool {
        &&& t.len() == 0 || hour_minute_text(t)
        &&& (self.last_message matches Some(m) && in_clock_range(m.timestamp as int)) ==> t.len() > 0
    }

    /// The preview of the last message, its time written as the local
    /// hour and minute.
    pub fn last_message_preview(&self) -> (r: String)
        requires
            self.previewable(),
        ensures
            exists|t: Seq<char>| self.preview_time_fits(t) && r@ == #[trigger] self.preview(t),
    {
        match &self.last_message {
            Some(msg) => {
                let time = match local_time_text(msg.timestamp, TimePattern::HourMinute) {
                    Some(t) => t,
                    None => String::new(),
                };
                let r = self.preview_at(time.as_str());
                assert(self.preview_time_fits(time@) && r@ == self.preview(time@));
                r
            },
            None => {
                let r = string_of("No messages");
                assert(self.preview_time_fits(Seq::empty()) && r@ == self.preview(Seq::empty()));
                r
            },
        }
    }

    /// The preview of the last message with `time` as its time of day.
    pub fn preview_at(&self, time: &str) -> (r: String)
        requires
            self.previewable(),
        ensures
            r@ == self.preview(time@),
    {
        match &self.last_message {
            Some(msg) => {
                let mut t = string_of(msg.sender.display_name());
                t.append(": ");
                let content = preview_content_text(&msg.content);
                t.append(content.as_str());
                t.append(" (");
                t.append(time);
                t.append(")");
                t
            },
            None => string_of("No messages"),
        }
    }

    /// A copy of the room.
    pub fn duplicate(&self) -> (r: Room)
        ensures
            r.same_as(self),
    {
        Room {
            room_id: copy_string(&self.room_id),
            display_name: copy_opt_string(&self.display_name),
            topic: copy_opt_string(&self.topic),
            avatar_url: copy_opt_string(&self.avatar_url),
            member_count: self.member_count,
            unread_count: self.unread_count,
            last_message: match &self.last_message {
                Some(m) => Some(m.duplicate()),
                None => None,
            },
            room_type: self.room_type,
            is_encrypted: self.is_encrypted,
            is_direct: self.is_direct,
        }
    }

    /// `other` holds the same data as `self`.
    pub open spec fn same_as(&self, other: &Room) -> bool {
        &&& self.room_id@ == other.room_id@
        &&& opt_view(self.display_name) == opt_view(other.display_name)
        &&& opt_view(self.topic) == opt_view(other.topic)
        &&& opt_view(self.avatar_url) == opt_view(other.avatar_url)
        &&& self.member_count == other.member_count
        &&& self.unread_count == other.unread_count
        &&& (self.last_message is Some <==> other.last_message is Some)
        &&& (self.last_message is Some ==> self.last_message->0.same_as(
            &other.last_message->0,
        ))
        &&& self.room_type == other.room_type
        &&& self.is_encrypted == other.is_encrypted
        &&& self.is_direct == other.is_direct
    }
}

/// Users who reacted with one emoji.
#[derive(Debug)]
pub struct Reaction {
    pub emoji: String,
    pub users: Vec<String>,
}

/// Emoji and user ids of a reaction, as text.
pub open spec fn reaction_view(r: Reaction) -> (Seq<char>, Seq<Seq<char>>) {
    (r.emoji@, r.users@.map_values(|u: String| u@))
}

pub open spec fn reactions_view(v: Seq<Reaction>) -> Seq<(Seq<char>, Seq<Seq<char>>)> {
    v.map_values(|r: Reaction| reaction_view(r))
}

/// No emoji has two entries and no entry is empty.
pub open spec fn reactions_wf(v: Seq<(Seq<char>, Seq<Seq<char>>)>) -> bool {
    &&& forall|i: int, j: int| 0 <= i < j < v.len() ==> v[i].0 != v[j].0
    &&& forall|i: int| 0 <= i < v.len() ==> #[trigger] v[i].1.len() > 0
}

/// Position of `emoji` among the reactions, if it has an entry.
pub open spec fn reaction_index(v: Seq<(Seq<char>, Seq<Seq<char>>)>, emoji: Seq<char>) -> Option<int>
    decreases v.len(),
{
    if v.len() == 0 {
        None
    } else if v.last().0 == emoji {
        Some(v.len() - 1)
    } else {
        reaction_index(v.drop_last(), emoji)
    }
}

/// The reactions after `user` reacts with `emoji`: the user is appended to
/// the emoji's entry, or a new entry ends the list.
pub open spec fn reaction_added(
    v: Seq<(Seq<char>, Seq<Seq<char>>)>,
    emoji: Seq<char>,
    user: Seq<char>,
) -> Seq<(Seq<char>, Seq<Seq<char>>)> {
    match reaction_index(v, emoji) {
        Some(i) => v.update(i, (v[i].0, v[i].1.push(user))),
        None => v.push((emoji, seq![user])),
    }
}

/// `users` with every occurrence of `user` left out, in order.
pub open spec fn without_user(users: Seq<Seq<char>>, user: Seq<char>) -> Seq<Seq<char>>
    decreases users.len(),
{
    if users.len() == 0 {
        Seq::empty()
    } else {
        let rest = without_user(users.drop_last(), user);
        if users.last() == user {
            rest
        } else {
            rest.push(users.last())
        }
    }
}

/// The reactions after `user` withdraws `emoji`: every occurrence of the
/// user leaves the emoji's entry, and an entry left empty is dropped.
pub open spec fn reaction_removed(
    v: Seq<(Seq<char>, Seq<Seq<char>>)>,
    emoji: Seq<char>,
    user: Seq<char>,
) -> Seq<(Seq<char>, Seq<Seq<char>>)> {
    match reaction_index(v, emoji) {
        Some(i) => {
            let kept = without_user(v[i].1, user);
            if kept.len() == 0 {
                v.remove(i)
            } else {
                v.update(i, (v[i].0, kept))
            }
        },
        None => v,
    }
}

#[derive(Debug)]
pub struct Message {
    pub event_id: String,
    pub sender: User,
    pub content: MessageContent,
    /// Milliseconds since the Unix epoch.
    pub timestamp: i64,
    pub is_edited: bool,
    pub reply_to: Option<String>,  // event_id of the message being replied to
    /// emoji -> list of user_ids, in order of first reaction
    pub reactions: Vec<Reaction>,
}

#[derive(Debug)]
pub enum MessageContent {
    Text { body: String },
    Image {
        body: String,
        url: String,
        thumbnail_url: Option<String>,
        width: Option<u32>,
        height: Option<u32>,
    },
    File { body: String, filename: String, url: String, size: Option<u64>, mimetype: Option<String> },
    Audio { body: String, url: String, duration: Option<u64> },
    Video {
        body: String,
        url: String,
        thumbnail_url: Option<String>,
        duration: Option<u64>,
        width: Option<u32>,
        height: Option<u32>,
    },
    Emote { body: String },
    Notice { body: String },
    System { message: String },
}

/// Text bodies longer than this many bytes are cut in previews.
pub const PREVIEW_MAX: usize = 50;

/// Bytes of a text body kept before the ellipsis.
pub const PREVIEW_KEEP: usize = 47;

/// Short description of a content in a room's last-message preview.
pub open spec fn preview_content(c: MessageContent) -> Seq<char> {
    match c {
        MessageContent::Text { body } => ellipsize(body@, 50, 47),
        MessageContent::Image { .. } => "📷 Image"@,
        MessageContent::File { filename, .. } => "📎 "@ + filename@,
        MessageContent::Audio { .. } => "🎵 Audio"@,
        MessageContent::Video { .. } => "🎥 Video"@,
        MessageContent::Emote { body } => "* "@ + body@,
        MessageContent::Notice { body } => "ℹ️ "@ + body@,
        MessageContent::System { message } => "🔧 "@ + message@,
    }
}

/// Cutting a long text body for its preview lands on a character boundary.
pub open spec fn preview_cut_ok(c: MessageContent) -> bool {
    c matches MessageContent::Text { body } ==> (byte_len(body@) > 50 ==> on_boundary(body@, 47))
}

fn preview_content_text(c: &MessageContent) -> (r: String)
    requires
        preview_cut_ok(*c),
    ensures
        r@ == preview_content(*c),
{
    match c {
        MessageContent::Text { body } => {
            if string_len(body) > PREVIEW_MAX {
                let mut t = string_of(str_slice(body.as_str(), 0, PREVIEW_KEEP));
                t.append("...");
                proof {
                    crate::text::lemma_start_index(body@);
                }
                t
            } else {
                copy_string(body)
            }
        },
        MessageContent::Image { .. } => string_of("📷 Image"),
        MessageContent::File { filename, .. } => prefixed("📎 ", filename),
        MessageContent::Audio { .. } => string_of("🎵 Audio"),
        MessageContent::Video { .. } => string_of("🎥 Video"),
        MessageContent::Emote { body } => prefixed("* ", body),
        MessageContent::Notice { body } => prefixed("ℹ️ ", body),
        MessageContent::System { message } => prefixed("🔧 ", message),
    }
}

/// One-line text of a content, as the message list and previews show it.
pub open spec fn content_line(c: MessageContent) -> Seq<char> {
    match c {
        MessageContent::Text { body } => body@,
        MessageContent::Image { body, .. } => "📷 "@ + body@,
        MessageContent::File { filename, .. } => "📎 "@ + filename@,
        MessageContent::Audio { body, .. } => "🎵 "@ + body@,
        MessageContent::Video { body, .. } => "🎥 "@ + body@,
        MessageContent::Emote { body } => "* "@ + body@,
        MessageContent::Notice { body } => "ℹ️ "@ + body@,
        MessageContent::System { message } => "🔧 "@ + message@,
    }
}

impl MessageContent {
    /// A copy of the content.
    pub fn duplicate(&self) -> (r: MessageContent)
        ensures
            content_line(r) == content_line(*self),
            r.same_as(self),
    {
        match self {
            MessageContent::Text { body } => MessageContent::Text { body: copy_string(body) },
            MessageContent::Image { body, url, thumbnail_url, width, height } => MessageContent::Image {
                body: copy_string(body),
                url: copy_string(url),
                thumbnail_url: copy_opt_string(thumbnail_url),
                width: *width,
                height: *height,
            },
            MessageContent::File { body, filename, url, size, mimetype } => MessageContent::File {
                body: copy_string(body),
                filename: copy_string(filename),
                url: copy_string(url),
                size: *size,
                mimetype: copy_opt_string(mimetype),
            },
            MessageContent::Audio { body, url, duration } => MessageContent::Audio {
                body: copy_string(body),
                url: copy_string(url),
                duration: *duration,
            },
            MessageContent::Video { body, url, thumbnail_url, duration, width, height } => MessageContent::Video {
                body: copy_string(body),
                url: copy_string(url),
                thumbnail_url: copy_opt_string(thumbnail_url),
                duration: *duration,
                width: *width,
                height: *height,
            },
            MessageContent::Emote { body } => MessageContent::Emote { body: copy_string(body) },
            MessageContent::Notice { body } => MessageContent::Notice { body: copy_string(body) },
            MessageContent::System { message } => MessageContent::System {
                message: copy_string(message),
            },
        }
    }

    /// `other` is the same kind of content with the same data.
    pub open spec fn same_as(&self, other: &MessageContent) -> bool {
        match (*self, *other) {
            (MessageContent::Text { body: a }, MessageContent::Text { body: b }) => a@ == b@,
            (
                MessageContent::Image { body: a, url: u, thumbnail_url: t, width: w, height: h },
                MessageContent::Image { body: a2, url: u2, thumbnail_url: t2, width: w2, height: h2 },
            ) => a@ == a2@ && u@ == u2@ && opt_view(t) == opt_view(t2) && w == w2 && h == h2,
            (
                MessageContent::File { body: a, filename: f, url: u, size: z, mimetype: m },
                MessageContent::File { body: a2, filename: f2, url: u2, size: z2, mimetype: m2 },
            ) => a@ == a2@ && f@ == f2@ && u@ == u2@ && z == z2 && opt_view(m) == opt_view(m2),
            (
                MessageContent::Audio { body: a, url: u, duration: d },
                MessageContent::Audio { body: a2, url: u2, duration: d2 },
            ) => a@ == a2@ && u@ == u2@ && d == d2,
            (
                MessageContent::Video {
                    body: a,
                    url: u,
                    thumbnail_url: t,
                    duration: d,
                    width: w,
                    height: h,
                },
                MessageContent::Video {
                    body: a2,
                    url: u2,
                    thumbnail_url: t2,
                    duration: d2,
                    width: w2,
                    height: h2,
                },
            ) => a@ == a2@ && u@ == u2@ && opt_view(t) == opt_view(t2) && d == d2 && w == w2 && h
                == h2,
            (MessageContent::Emote { body: a }, MessageContent::Emote { body: b }) => a@ == b@,
            (MessageContent::Notice { body: a }, MessageContent::Notice { body: b }) => a@ == b@,
            (MessageContent::System { message: a }, MessageContent::System { message: b }) => a@
                == b@,
            _ => false,
        }
    }
}

impl Message {
    /// A text message sent now.
    pub fn new_text(event_id: String, sender: User, body: String) -> (r: Self)
        ensures
            r.event_id@ == event_id@,
            r.sender == sender,
            r.content matches MessageContent::Text { body: b } && b@ == body@,
            !r.is_edited,
            r.reply_to is None,
            r.reactions@.len() == 0,
    {
        Message {
            event_id,
            sender,
            content: MessageContent::Text { body },
            timestamp: now_millis(),
            is_edited: false,
            reply_to: None,
            reactions: Vec::new(),
        }
    }

    /// A system notice created now, sent by `@system:matrix.org`.
    pub fn new_system(event_id: String, message: String) -> (r: Self)
        ensures
            r.event_id@ == event_id@,
            r.sender.user_id@ == "@system:matrix.org"@,
            r.sender.display_name is None,
            r.sender.avatar_url is None,
            r.sender.presence == UserPresence::Unknown,
            r.content matches MessageContent::System { message: m } && m@ == message@,
            !r.is_edited,
            r.reply_to is None,
            r.reactions@.len() == 0,
    {
        Message {
            event_id,
            sender: User::new(string_of("@system:matrix.org")),
            content: MessageContent::System { message },
            timestamp: now_millis(),
            is_edited: false,
            reply_to: None,
            reactions: Vec::new(),
        }
    }

    /// `other` holds the same data as `self`.
    pub open spec fn same_as(&self, other: &Message) -> bool {
        &&& self.event_id@ == other.event_id@
        &&& self.sender.same_as(&other.sender)
        &&& self.content.same_as(&other.content)
        &&& self.timestamp == other.timestamp
        &&& self.is_edited == other.is_edited
        &&& opt_view(self.reply_to) == opt_view(other.reply_to)
        &&& reactions_view(self.reactions@) == reactions_view(other.reactions@)
    }

    /// A copy of the message.
    pub fn duplicate(&self) -> (r: Message)
        ensures
            r.same_as(self),
    {
        let mut reactions: Vec<Reaction> = Vec::new();
        let mut i: usize = 0;
        while i < self.reactions.len()
            invariant
                i <= self.reactions@.len(),
                reactions@.len() == i,
                forall|k: int|
                    0 <= k < i ==> reaction_view(#[trigger] reactions@[k]) == reaction_view(
                        self.reactions@[k],
                    ),
            decreases self.reactions@.len() - i,
        {
            let r = &self.reactions[i];
            let mut users: Vec<String> = Vec::new();
            let mut j: usize = 0;
            while j < r.users.len()
                invariant
                    j <= r.users@.len(),
                    users@.len() == j,
                    forall|k: int| 0 <= k < j ==> (#[trigger] users@[k])@ == r.users@[k]@,
                decreases r.users@.len() - j,
            {
                users.push(copy_string(&r.users[j]));
                j += 1;
            }
            assert(users@.map_values(|u: String| u@) =~= r.users@.map_values(|u: String| u@));
            reactions.push(Reaction { emoji: copy_string(&r.emoji), users });
            i += 1;
        }
        assert(reactions_view(reactions@) =~= reactions_view(self.reactions@));
        Message {
            event_id: copy_string(&self.event_id),
            sender: self.sender.duplicate(),
            content: self.content.duplicate(),
            timestamp: self.timestamp,
            is_edited: self.is_edited,
            reply_to: copy_opt_string(&self.reply_to),
            reactions,
        }
    }

    pub fn content_text(&self) -> (r: String)
        ensures
            r@ == content_line(self.content),
    {
        match &self.content {
            MessageContent::Text { body } => copy_string(body),
            MessageContent::Image { body, .. } => prefixed("📷 ", body),
            MessageContent::File { filename, .. } => prefixed("📎 ", filename),
            MessageContent::Audio { body, .. } => prefixed("🎵 ", body),
            MessageContent::Video { body, .. } => prefixed("🎥 ", body),
            MessageContent::Emote { body } => prefixed("* ", body),
            MessageContent::Notice { body } => prefixed("ℹ️ ", body),
            MessageContent::System { message } => prefixed("🔧 ", message),
        }
    }

    pub fn is_from_user(&self, user_id: &str) -> (b: bool)
        ensures
            b == (self.sender.user_id@ == user_id@),
    {
        str_eq(self.sender.user_id.as_str(), user_id)
    }

    /// Records that `user_id` reacted with `emoji`: appended to the emoji's
    /// users, or a new entry for a first reaction with that emoji.
    pub fn add_reaction(&mut self, emoji: String, user_id: String)
        ensures
            reactions_view(final(self).reactions@) == reaction_added(
                reactions_view(old(self).reactions@),
                emoji@,
                user_id@,
            ),
            reactions_wf(reactions_view(old(self).reactions@)) ==> reactions_wf(
                reactions_view(final(self).reactions@),
            ),
            final(self).event_id == old(self).event_id,
            final(self).sender == old(self).sender,
            final(self).content == old(self).content,
            final(self).timestamp == old(self).timestamp,
            final(self).is_edited == old(self).is_edited,
            final(self).reply_to == old(self).reply_to,
    {
        let ghost v = reactions_view(self.reactions@);
        match self.find_reaction(emoji.as_str()) {
            Some(i) => {
                let ghost u = user_id@;
                let mut r = self.reactions.remove(i);
                let ghost before = r.users@;
                r.users.push(user_id);
                assert(r.users@.map_values(|x: String| x@) =~= before.map_values(|x: String| x@).push(u));
                self.reactions.insert(i, r);
                proof {
                    let w = reactions_view(self.reactions@);
                    assert(w =~= v.update(i as int, (v[i as int].0, v[i as int].1.push(u))));
                    lemma_reaction_index_none(v, emoji@);
                    if reactions_wf(v) {
                        assert forall|a: int| 0 <= a < w.len() implies #[trigger] w[a].1.len() > 0 by {
                            assert(v[a].1.len() > 0);
                        }
                    }
                }
            },
            None => {
                let ghost e = emoji@;
                let ghost u = user_id@;
                let mut users: Vec<String> = Vec::new();
                users.push(user_id);
                assert(users@.map_values(|x: String| x@) =~= seq![u]);
                self.reactions.push(Reaction { emoji, users });
                proof {
                    let w = reactions_view(self.reactions@);
                    assert(w =~= v.push((e, seq![u])));
                    lemma_reaction_index_none(v, e);
                }
            },
        }
    }

    /// Position of the entry for `emoji`.
    fn find_reaction(&self, emoji: &str) -> (r: Option<usize>)
        ensures
            r matches Some(i) ==> i < self.reactions@.len() && reaction_index(
                reactions_view(self.reactions@),
                emoji@,
            ) == Some(i as int),
            r is None ==> reaction_index(reactions_view(self.reactions@), emoji@) is None,
    {
        let ghost v = reactions_view(self.reactions@);
        let mut i = self.reactions.len();
        assert(v.take(i as int) =~= v);
        while i > 0
            invariant
                i <= self.reactions@.len(),
                v == reactions_view(self.reactions@),
                reaction_index(v, emoji@) == reaction_index(v.take(i as int), emoji@),
            decreases i,
        {
            proof {
                assert(v.take(i as int).drop_last() =~= v.take(i - 1));
            }
            if str_eq(self.reactions[i - 1].emoji.as_str(), emoji) {
                return Some(i - 1);
            }
            i -= 1;
        }
        None
    }

    /// Withdraws `user_id`'s reaction with `emoji`, dropping the emoji's
    /// entry when no user is left on it.
    pub fn remove_reaction(&mut self, emoji: &str, user_id: &str)
        ensures
            reactions_view(final(self).reactions@) == reaction_removed(
                reactions_view(old(self).reactions@),
                emoji@,
                user_id@,
            ),
            final(self).event_id == old(self).event_id,
            final(self).sender == old(self).sender,
            final(self).content == old(self).content,
            final(self).timestamp == old(self).timestamp,
            final(self).is_edited == old(self).is_edited,
            final(self).reply_to == old(self).reply_to,
    {
        let ghost v = reactions_view(self.reactions@);
        if let Some(i) = self.find_reaction(emoji) {
            let r = self.reactions.remove(i);
            let ghost us = r.users@.map_values(|u: String| u@);
            let mut kept: Vec<String> = Vec::new();
            let mut j: usize = 0;
            while j < r.users.len()
                invariant
                    j <= r.users@.len(),
                    us == r.users@.map_values(|u: String| u@),
                    kept@.map_values(|u: String| u@) == without_user(us.take(j as int), user_id@),
                decreases r.users@.len() - j,
            {
                proof {
                    assert(us.take(j + 1).drop_last() =~= us.take(j as int));
                }
                if !str_eq(r.users[j].as_str(), user_id) {
                    kept.push(copy_string(&r.users[j]));
                }
                j += 1;
                assert(kept@.map_values(|u: String| u@) =~= without_user(us.take(j as int), user_id@));
            }
            assert(us.take(r.users@.len() as int) =~= us);
            if kept.len() > 0 {
                let emoji_copy = copy_string(&r.emoji);
                self.reactions.insert(i, Reaction { emoji: emoji_copy, users: kept });
                proof {
                    let w = reactions_view(self.reactions@);
                    assert(w =~= v.update(
                        i as int,
                        (v[i as int].0, without_user(v[i as int].1, user_id@)),
                    ));
                }
            } else {
                proof {
                    let w = reactions_view(self.reactions@);
                    assert(w =~= v.remove(i as int));
                }
            }
        }
    }

    /// `" [e1 n1 e2 n2 ...]"`: each emoji with its number of users, in the
    /// order of the entries; nothing without reactions.
    pub open spec fn reactions_text(&self) -> Seq<char> {
        let v = reactions_view(self.reactions@);
        if v.len() == 0 {
            Seq::empty()
        } else {
            " ["@ + reaction_items(v) + "]"@
        }
    }

    pub fn format_reactions(&self) -> (r: String)
        ensures
            r@ == self.reactions_text(),
    {
        let ghost v = reactions_view(self.reactions@);
        if self.reactions.len() == 0 {
            return String::new();
        }
        let mut t = string_of(" [");
        let mut i: usize = 0;
        while i < self.reactions.len()
            invariant
                i <= self.reactions@.len(),
                v == reactions_view(self.reactions@),
                v.len() > 0,
                t@ == " ["@ + reaction_items(v.take(i as int)),
            decreases self.reactions@.len() - i,
        {
            if i > 0 {
                t.append(" ");
            }
            t.append(self.reactions[i].emoji.as_str());
            t.append(" ");
            push_decimal(&mut t, self.reactions[i].users.len() as u64);
            proof {
                assert(v.take(i + 1).drop_last() =~= v.take(i as int));
                assert(v[i as int].1.len() == self.reactions@[i as int].users@.len());
            }
            i += 1;
            proof {
                assert(t@ =~= " ["@ + reaction_items(v.take(i as int)));
            }
        }
        assert(v.take(v.len() as int) =~= v);
        t.append("]");
        t
    }
}

/// `"e1 n1 e2 n2 ..."` for the given reactions.
pub open spec fn reaction_items(v: Seq<(Seq<char>, Seq<Seq<char>>)>) -> Seq<char>
    decreases v.len(),
{
    if v.len() == 0 {
        Seq::empty()
    } else {
        let item = v.last().0 + " "@ + decimal(v.last().1.len());
        if v.len() == 1 {
            item
        } else {
            reaction_items(v.drop_last()) + " "@ + item
        }
    }
}

proof fn lemma_reaction_index_none(v: Seq<(Seq<char>, Seq<Seq<char>>)>, e: Seq<char>)
    ensures
        reaction_index(v, e) is None ==> forall|i: int| 0 <= i < v.len() ==> v[i].0 != e,
        reaction_index(v, e) matches Some(i) ==> 0 <= i < v.len() && v[i].0 == e,
    decreases v.len(),
{
    if v.len() > 0 {
        lemma_reaction_index_none(v.drop_last(), e);
        if reaction_index(v, e) is None {
            assert forall|i: int| 0 <= i < v.len() implies v[i].0 != e by {
                if i < v.len() - 1 {
                    assert(v.drop_last()[i] == v[i]);
                }
            }
        }
    }
}

/// Reacting with `emoji`: afterwards the emoji has an entry whose last
/// user is `user`, holding the users it held before (none for a new entry)
/// followed by `user`; an existing entry stays where it was, a new one
/// comes last, and every other entry is kept.
pub proof fn lemma_add_reaction_records(
    v: Seq<(Seq<char>, Seq<Seq<char>>)>,
    emoji: Seq<char>,
    user: Seq<char>,
)
    ensures
        ({
            let w = reaction_added(v, emoji, user);
            let before = match reaction_index(v, emoji) {
                Some(i) => v[i].1,
                None => Seq::empty(),
            };
            &&& reaction_index(w, emoji) matches Some(k) && w[k].0 == emoji && w[k].1.len()
                == before.len() + 1 && w[k].1.last() == user && w[k].1.drop_last() == before
            &&& reaction_index(v, emoji) matches Some(i) ==> reaction_index(w, emoji) == Some(i)
                && w.len() == v.len()
            &&& reaction_index(v, emoji) is None ==> w.len() == v.len() + 1 && w.drop_last() == v
            &&& forall|j: int|
                0 <= j < v.len() && Some(j) != reaction_index(v, emoji) ==> #[trigger] w[j] == v[j]
        }),
{
    lemma_reaction_index_none(v, emoji);
    let w = reaction_added(v, emoji, user);
    match reaction_index(v, emoji) {
        Some(i) => {
            lemma_reaction_index_same_keys(v, w, emoji);
            assert(v[i].1.push(user).drop_last() =~= v[i].1);
        },
        None => {
            assert(w.drop_last() =~= v);
            assert(seq![user].drop_last() =~= Seq::<Seq<char>>::empty());
        },
    }
}

/// The test "is not `user`".
pub open spec fn not_user(user: Seq<char>) -> spec_fn(Seq<char>) -> bool {
    |x: Seq<char>| x != user
}

/// Leaving a user out keeps every other user, in order: it is the filter
/// "is not the user".
pub proof fn lemma_without_user_is_filter(users: Seq<Seq<char>>, user: Seq<char>)
    ensures
        without_user(users, user) == users.filter(not_user(user)),
    decreases users.len(),
{
    reveal_with_fuel(Seq::filter, 1);
    if users.len() > 0 {
        lemma_without_user_is_filter(users.drop_last(), user);
    }
}

/// Withdrawing `user`'s reaction with `emoji`: the emoji's entry keeps
/// exactly its other users, in order, and `user` no longer occurs in it;
/// an entry left without users disappears, and every other entry stays
/// where it was. Without an entry for the emoji nothing changes.
pub proof fn lemma_remove_reaction_withdraws(
    v: Seq<(Seq<char>, Seq<Seq<char>>)>,
    emoji: Seq<char>,
    user: Seq<char>,
)
    requires
        reactions_wf(v),
    ensures
        reaction_index(v, emoji) is None ==> reaction_removed(v, emoji, user) == v,
        reaction_index(v, emoji) matches Some(i) ==> {
            let w = reaction_removed(v, emoji, user);
            let kept = v[i].1.filter(not_user(user));
            &&& kept.len() > 0 ==> {
                &&& reaction_index(w, emoji) == Some(i)
                &&& w[i] == (emoji, kept)
                &&& w == v.update(i, (emoji, kept))
            }
            &&& kept.len() == 0 ==> reaction_index(w, emoji) is None && w == v.remove(i)
            &&& forall|k: int| reaction_index(w, emoji) == Some(k) ==> !w[k].1.contains(user)
        },
{
    lemma_reaction_index_none(v, emoji);
    if let Some(i) = reaction_index(v, emoji) {
        let w = reaction_removed(v, emoji, user);
        let kept = v[i].1.filter(not_user(user));
        lemma_without_user_is_filter(v[i].1, user);
        v[i].1.filter_lemma(not_user(user));
        if kept.len() > 0 {
            lemma_reaction_index_same_keys(v, w, emoji);
            assert(!kept.contains(user)) by {
                if kept.contains(user) {
                    let k = choose|k: int| 0 <= k < kept.len() && kept[k] == user;
                    assert((not_user(user))(kept[k]));
                }
            }
        } else {
            lemma_reaction_index_none(w, emoji);
            if let Some(k) = reaction_index(w, emoji) {
                if k < i {
                    assert(w[k] == v[k]);
                } else {
                    assert(w[k] == v[k + 1]);
                }
            }
        }
    }
}

/// A reaction added and then withdrawn leaves the reactions as they were,
/// provided the user had not already reacted with that emoji.
pub proof fn lemma_add_then_remove_reaction(
    v: Seq<(Seq<char>, Seq<Seq<char>>)>,
    emoji: Seq<char>,
    user: Seq<char>,
)
    requires
        reactions_wf(v),
        reaction_index(v, emoji) matches Some(i) ==> !v[i].1.contains(user),
    ensures
        reaction_removed(reaction_added(v, emoji, user), emoji, user) == v,
{
    lemma_reaction_index_none(v, emoji);
    match reaction_index(v, emoji) {
        Some(i) => {
            let a = v.update(i, (v[i].0, v[i].1.push(user)));
            lemma_reaction_index_same_keys(v, a, emoji);
            assert(v[i].1.push(user).drop_last() =~= v[i].1);
            lemma_without_absent_user(v[i].1, user);
            assert(without_user(a[i].1, user) == v[i].1);
            assert(v[i].1.len() > 0);
            assert(a.update(i, (v[i].0, v[i].1)) =~= v);
        },
        None => {
            let a = v.push((emoji, seq![user]));
            assert(a.drop_last() =~= v);
            assert(seq![user].drop_last() =~= Seq::<Seq<char>>::empty());
            assert(seq![user].last() == user);
            assert(without_user(seq![user].drop_last(), user) =~= Seq::<Seq<char>>::empty());
            assert(without_user(seq![user], user).len() == 0);
            assert(a.remove(v.len() as int) =~= v);
        },
    }
}

/// Entries with the same emojis in the same places find an emoji at the
/// same position.
proof fn lemma_reaction_index_same_keys(
    v: Seq<(Seq<char>, Seq<Seq<char>>)>,
    w: Seq<(Seq<char>, Seq<Seq<char>>)>,
    e: Seq<char>,
)
    requires
        v.len() == w.len(),
        forall|k: int| 0 <= k < v.len() ==> #[trigger] v[k].0 == w[k].0,
    ensures
        reaction_index(v, e) == reaction_index(w, e),
    decreases v.len(),
{
    if v.len() > 0 {
        assert(v.last().0 == w.last().0);
        let vd = v.drop_last();
        let wd = w.drop_last();
        assert forall|k: int| 0 <= k < vd.len() implies #[trigger] vd[k].0 == wd[k].0 by {
            assert(v[k].0 == w[k].0);
        }
        lemma_reaction_index_same_keys(vd, wd, e);
    }
}

/// Leaving out a user who does not occur keeps every user.
proof fn lemma_without_absent_user(users: Seq<Seq<char>>, user: Seq<char>)
    requires
        !users.contains(user),
    ensures
        without_user(users, user) == users,
    decreases users.len(),
{
    if users.len() > 0 {
        let d = users.drop_last();
        assert(!d.contains(user)) by {
            if d.contains(user) {
                let k = choose|k: int| 0 <= k < d.len() && d[k] == user;
                assert(users[k] == user);
            }
        }
        assert(users[users.len() - 1] == users.last());
        lemma_without_absent_user(d, user);
        assert(d.push(users.last()) =~= users);
    }
}

fn prefixed(prefix: &str, body: &String) -> (r: String)
    ensures
        r@ == prefix@ + body@,
{
    let mut t = string_of(prefix);
    t.append(body.as_str());
    t
}

#[derive(Debug)]
pub struct TypingIndicator {
    pub users: Vec<User>,
    pub room_id: String,
}

/// User ids of a user list.
pub open spec fn user_ids(v: Seq<User>) -> Seq<Seq<char>> {
    v.map_values(|u: User| u.user_id@)
}

impl TypingIndicator {
    pub fn new(room_id: String) -> (r: Self)
        ensures
            r.users@.len() == 0,
            r.room_id@ == room_id@,
    {
        TypingIndicator { users: Vec::new(), room_id }
    }

    /// Adds `user` unless a user with the same id is already typing.
    pub fn add_user(&mut self, user: User)
        ensures
            user_ids(old(self).users@).contains(user.user_id@) ==> final(self).users@ == old(
                self,
            ).users@,
            !user_ids(old(self).users@).contains(user.user_id@) ==> final(self).users@ == old(
                self,
            ).users@.push(user),
            final(self).room_id == old(self).room_id,
    {
        let ghost ids = user_ids(self.users@);
        let mut i: usize = 0;
        while i < self.users.len()
            invariant
                i <= self.users@.len(),
                ids == user_ids(self.users@),
                forall|j: int| 0 <= j < i ==> ids[j] != user.user_id@,
            decreases self.users@.len() - i,
        {
            if str_eq(self.users[i].user_id.as_str(), user.user_id.as_str()) {
                proof {
                    assert(ids[i as int] == user.user_id@);
                }
                return;
            }
            i += 1;
        }
        self.users.push(user);
    }

    /// Drops every user with id `user_id`.
    pub fn remove_user(&mut self, user_id: &str)
        ensures
            final(self).users@ == old(self).users@.filter(|u: User| u.user_id@ != user_id@),
            final(self).room_id == old(self).room_id,
    {
        let ghost old_users = self.users@;
        let ghost mut j: int = 0;
        let mut i: usize = 0;
        while i < self.users.len()
            invariant
                0 <= i <= self.users@.len(),
                0 <= j <= old_users.len(),
                self.users@.take(i as int) == old_users.take(j).filter(
                    |u: User| u.user_id@ != user_id@,
                ),
                self.users@.skip(i as int) == old_users.skip(j),
                self.room_id == old(self).room_id,
            decreases self.users@.len() - i,
        {
            proof {
                assert(self.users@.skip(i as int).len() == self.users@.len() - i);
                assert(j < old_users.len());
                assert(old_users.take(j + 1).drop_last() =~= old_users.take(j));
                assert(old_users.skip(j)[0] == old_users[j]);
                old_users.take(j + 1).filter_lemma(|u: User| u.user_id@ != user_id@);
                reveal_with_fuel(Seq::filter, 1);
            }
            if str_eq(self.users[i].user_id.as_str(), user_id) {
                let ghost before = self.users@;
                self.users.remove(i);
                proof {
                    assert(self.users@.take(i as int) =~= before.take(i as int));
                    assert(self.users@.skip(i as int) =~= before.skip(i + 1));
                    assert(old_users.skip(j + 1) =~= old_users.skip(j).skip(1));
                    j = j + 1;
                }
            } else {
                let ghost before = self.users@;
                proof {
                    assert(before.take(i + 1) =~= before.take(i as int).push(before[i as int]));
                    assert(before.skip(i + 1) =~= before.skip(i as int).skip(1));
                    assert(old_users.skip(j + 1) =~= old_users.skip(j).skip(1));
                    j = j + 1;
                }
                i += 1;
            }
        }
        proof {
            assert(old_users.skip(j).len() == 0);
            assert(old_users.take(j) =~= old_users);
            assert(self.users@.take(i as int) =~= self.users@);
        }
    }

    pub fn is_empty(&self) -> (b: bool)
        ensures
            b == (self.users@.len() == 0),
    {
        self.users.len() == 0
    }

    pub fn format_typing_text(&self) -> (r: String)
        ensures
            r@ == typing_sentence(self.users@.map_values(|u: User| u.shown_name())),
    {
        let mut names: Vec<String> = Vec::new();
        let mut i: usize = 0;
        while i < self.users.len()
            invariant
                i <= self.users@.len(),
                names@.len() == i,
                forall|k: int| 0 <= k < i ==> (#[trigger] names@[k])@ == self.users@[k].shown_name(),
            decreases self.users@.len() - i,
        {
            names.push(string_of(self.users[i].display_name()));
            i += 1;
        }
        assert(names@.map_values(|n: String| n@) =~= self.users@.map_values(|u: User| u.shown_name()));
        crate::text::format_typing(names.as_slice())
    }
}

/// Error types for Matrix operations
#[derive(Debug)]
pub enum MatrixError {
    NetworkError(String),
    AuthenticationError(String),
    RoomNotFound(String),
    MessageSendFailed(String),
    Unknown(String),
}

/// The error's message, as it is displayed.
pub open spec fn matrix_error_text(e: MatrixError) -> Seq<char> {
    match e {
        MatrixError::NetworkError(msg) => "Network error: "@ + msg@,
        MatrixError::AuthenticationError(msg) => "Authentication error: "@ + msg@,
        MatrixError::RoomNotFound(room_id) => "Room not found: "@ + room_id@,
        MatrixError::MessageSendFailed(msg) => "Failed to send message: "@ + msg@,
        MatrixError::Unknown(msg) => "Unknown error: "@ + msg@,
    }
}

impl MatrixError {
    /// The error's message, as it is displayed.
    pub fn display_text(&self) -> (r: String)
        ensures
            r@ == matrix_error_text(*self),
    {
        match self {
            MatrixError::NetworkError(msg) => prefixed("Network error: ", msg),
            MatrixError::AuthenticationError(msg) => prefixed("Authentication error: ", msg),
            MatrixError::RoomNotFound(room_id) => prefixed("Room not found: ", room_id),
            MatrixError::MessageSendFailed(msg) => prefixed("Failed to send message: ", msg),
            MatrixError::Unknown(msg) => prefixed("Unknown error: ", msg),
        }
    }
}

} // verus!
