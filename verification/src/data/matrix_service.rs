//! A simulated Matrix service: sign-in, a fixed set of rooms, messages and
//! members per room, and message sending. The waiting that stands for the
//! network round trips is left to the caller.
use vstd::prelude::*;

use crate::clock::now_seconds;
use crate::data::models::{
    opt_view, MatrixError, Message, MessageContent, Room, RoomType, User, UserPresence,
};
use crate::text::{push_signed_decimal, signed_decimal, str_contains, str_eq, str_is_blank, string_of, is_blank};

verus! {

#[derive(Debug)]
pub struct MatrixService {
    pub current_user: Option<User>,
    pub is_authenticated: bool,
    pub sync_token: Option<String>,
}

/// `u` has id `id`, display name `name`, no avatar and presence `p`.
pub open spec fn is_person(u: User, id: Seq<char>, name: Seq<char>, p: UserPresence) -> bool {
    &&& u.user_id@ == id
    &&& opt_view(u.display_name) == Some(name)
    &&& u.avatar_url is None
    &&& u.presence == p
}

/// `m` is a fresh, unedited text message `event` from `sender` saying `body`.
pub open spec fn is_text_message(m: Message, event: Seq<char>, body: Seq<char>) -> bool {
    &&& m.event_id@ == event
    &&& m.content matches MessageContent::Text { body: b } && b@ == body
    &&& !m.is_edited
    &&& m.reply_to is None
    &&& m.reactions@.len() == 0
}

/// `m` is the text message `event` from the person `(id, name, p)`.
pub open spec fn is_text_from(
    m: Message,
    event: Seq<char>,
    id: Seq<char>,
    name: Seq<char>,
    p: UserPresence,
    body: Seq<char>,
) -> bool {
    is_text_message(m, event, body) && is_person(m.sender, id, name, p)
}

/// `r` is the room `id` of kind `t` named `name`, with the given topic,
/// member and unread counts and encryption, whose last message is `last`.
pub open spec fn is_room(
    r: Room,
    id: Seq<char>,
    t: RoomType,
    name: Seq<char>,
    topic: Option<Seq<char>>,
    members: usize,
    unread: usize,
    encrypted: bool,
) -> bool {
    &&& r.room_id@ == id
    &&& r.room_type == t
    &&& r.is_direct == (t == RoomType::DirectMessage)
    &&& opt_view(r.display_name) == Some(name)
    &&& opt_view(r.topic) == topic
    &&& r.avatar_url is None
    &&& r.member_count == members
    &&& r.unread_count == unread
    &&& r.is_encrypted == encrypted
}

/// The rooms the service lists.
pub open spec fn listed_rooms(rooms: Seq<Room>) -> bool {
    &&& rooms.len() == 5
    &&& is_room(rooms[0], "!direct1:matrix.org"@, RoomType::DirectMessage, "Alice Smith"@, None, 2, 3, true)
    &&& rooms[0].last_message matches Some(m) && is_text_from(m, "$event1"@, "@alice:matrix.org"@,
        "Alice Smith"@, UserPresence::Online, "Hey! How's the Matrix client coming along?"@)
    &&& is_room(rooms[1], "!direct2:matrix.org"@, RoomType::DirectMessage, "Bob Johnson"@, None, 2, 0, true)
    &&& rooms[1].last_message matches Some(m) && is_text_from(m, "$event2"@, "@bob:matrix.org"@,
        "Bob Johnson"@, UserPresence::Away, "Sure, let's meet at 3 PM"@)
    &&& is_room(rooms[2], "!rust:matrix.org"@, RoomType::PublicRoom, "Rust Programming"@,
        Some("Discussion about Rust programming language"@), 1247, 12, false)
    &&& rooms[2].last_message matches Some(m) && is_text_from(m, "$event3"@, "@rustdev:matrix.org"@,
        "RustDev"@, UserPresence::Online, "Anyone know how to handle async in Ratatui?"@)
    &&& is_room(rooms[3], "!matrix-dev:matrix.org"@, RoomType::PublicRoom, "Matrix Development"@,
        Some("Matrix protocol and client development"@), 892, 0, true)
    &&& rooms[3].last_message matches Some(m) && is_text_from(m, "$event4"@, "@matrixdev:matrix.org"@,
        "Matrix Developer"@, UserPresence::Online, "New Matrix SDK release is out!"@)
    &&& is_room(rooms[4], "!private1:matrix.org"@, RoomType::PrivateRoom, "Secret Project"@,
        Some("Top secret project discussion"@), 5, 1, true)
    &&& rooms[4].last_message matches Some(m) && is_text_from(m, "$event5"@, "@lead:matrix.org"@,
        "Project Lead"@, UserPresence::Busy, "Meeting notes are uploaded"@)
}

/// The messages the service holds for room `room`; `me` is the signed-in
/// user, the sender of half of the direct conversation.
pub open spec fn listed_messages(msgs: Seq<Message>, room: Seq<char>, me: Option<User>) -> bool {
    if room == "!direct1:matrix.org"@ {
        let alice = |m: Message, e: Seq<char>, b: Seq<char>|
            is_text_from(m, e, "@alice:matrix.org"@, "Alice Smith"@, UserPresence::Online, b);
        let mine = |m: Message, e: Seq<char>, b: Seq<char>|
            is_text_message(m, e, b) && (me matches Some(u) && m.sender.same_as(&u));
        &&& msgs.len() == 5
        &&& alice(msgs[0], "$msg1"@, "Hey! How's the new Matrix client coming along?"@)
        &&& mine(msgs[1], "$msg2"@, "Pretty good! Just working on the UI now."@)
        &&& alice(msgs[2], "$msg3"@, "That's awesome! Are you using Ratatui?"@)
        &&& mine(msgs[3], "$msg4"@, "Yes! It's really nice for TUI development."@)
        &&& alice(msgs[4], "$msg5"@, "I'd love to try it out when you're done! 🚀"@)
    } else if room == "!rust:matrix.org"@ {
        &&& msgs.len() == 3
        &&& is_text_from(msgs[0], "$msg6"@, "@rustdev:matrix.org"@, "RustDev"@,
            UserPresence::Online, "Anyone know how to handle async in Ratatui?"@)
        &&& is_text_from(msgs[1], "$msg7"@, "@rustfan:matrix.org"@, "RustFan"@,
            UserPresence::Online, "You might want to check out tokio integration"@)
        &&& is_text_from(msgs[2], "$msg8"@, "@rustdev:matrix.org"@, "RustDev"@,
            UserPresence::Online, "Thanks! I'll look into that."@)
    } else {
        &&& msgs.len() == 2
        &&& is_text_from(msgs[0], "$generic1"@, "@user1:matrix.org"@, "User One"@,
            UserPresence::Online, "Welcome to the room!"@)
        &&& msgs[1].event_id@ == "$system1"@
        &&& msgs[1].sender.user_id@ == "@system:matrix.org"@
        &&& msgs[1].content matches MessageContent::System { message: t } && t@
            == "This is a dummy room: "@ + room
    }
}

/// The members the service lists for room `room`: the signed-in user
/// first, when there is one, then the room's own members.
pub open spec fn listed_members(members: Seq<User>, room: Seq<char>, me: Option<User>) -> bool {
    let k: int = if me is Some { 1 } else { 0 };
    let rest = members.skip(k);
    &&& members.len() >= k
    &&& me matches Some(u) ==> members[0].same_as(&u)
    &&& if room == "!direct1:matrix.org"@ {
        &&& rest.len() == 1
        &&& is_person(rest[0], "@alice:matrix.org"@, "Alice Smith"@, UserPresence::Online)
    } else if room == "!rust:matrix.org"@ {
        &&& rest.len() == 2
        &&& is_person(rest[0], "@rustdev:matrix.org"@, "RustDev"@, UserPresence::Online)
        &&& is_person(rest[1], "@rustfan:matrix.org"@, "RustFan"@, UserPresence::Away)
    } else {
        &&& rest.len() == 1
        &&& is_person(rest[0], "@member1:matrix.org"@, "Member One"@, UserPresence::Online)
    }
}

/// Id of the user that signs in as `username` on `homeserver`: the name
/// itself when it starts with `@`, else `@username:homeserver`.
pub open spec fn login_user_id(username: Seq<char>, homeserver: Seq<char>) -> Seq<char> {
    if username.len() > 0 && username[0] == '@' {
        username
    } else {
        "@"@ + username + ":"@ + homeserver
    }
}

/// The event id given to a message sent to `room` at `secs` seconds.
pub open spec fn event_id_text(room: Seq<char>, secs: int) -> Seq<char> {
    "$dummy_"@ + room + "_"@ + signed_decimal(secs)
}

/// The sync token made at `secs` seconds.
pub open spec fn sync_token_text(secs: int) -> Seq<char> {
    "sync_token_"@ + signed_decimal(secs)
}

/// `r` is the refusal of a call made without signing in.
pub open spec fn is_not_authenticated<T>(r: Result<T, MatrixError>) -> bool {
    r matches Err(MatrixError::AuthenticationError(m)) && m@ == "Not authenticated"@
}

fn person(user_id: &str, name: &str, presence: UserPresence) -> (u: User)
    ensures
        is_person(u, user_id@, name@, presence),
{
    User {
        user_id: string_of(user_id),
        display_name: Some(string_of(name)),
        avatar_url: None,
        presence,
    }
}

fn room_with(
    id: &str,
    room_type: RoomType,
    name: &str,
    topic: Option<&str>,
    members: usize,
    unread: usize,
    encrypted: bool,
    last: Message,
) -> (r: Room)
    ensures
        is_room(r, id@, room_type, name@, match topic {
            Some(t) => Some(t@),
            None => None,
        }, members, unread, encrypted),
        r.last_message == Some(last),
{
    let mut room = Room::new(string_of(id), room_type);
    room.display_name = Some(string_of(name));
    room.topic = match topic {
        Some(t) => Some(string_of(t)),
        None => None,
    };
    room.member_count = members;
    room.unread_count = unread;
    room.is_encrypted = encrypted;
    room.last_message = Some(last);
    room
}

fn text_from(event: &str, sender: User, body: &str) -> (m: Message)
    ensures
        is_text_message(m, event@, body@),
        m.sender == sender,
{
    Message::new_text(string_of(event), sender, string_of(body))
}

/// The event id for a message sent to `room_id` when the clock reads
/// `secs` seconds.
pub fn dummy_event_id(room_id: &str, secs: i64) -> (r: String)
    ensures
        r@ == event_id_text(room_id@, secs as int),
{
    let mut id = string_of("$dummy_");
    id.append(room_id);
    id.append("_");
    push_signed_decimal(&mut id, secs);
    id
}

/// The sync token made when the clock reads `secs` seconds.
pub fn dummy_sync_token(secs: i64) -> (r: String)
    ensures
        r@ == sync_token_text(secs as int),
{
    let mut t = string_of("sync_token_");
    push_signed_decimal(&mut t, secs);
    t
}

impl MatrixService {
    pub fn default() -> (r: Self)
        ensures
            r.current_user is None,
            !r.is_authenticated,
            r.sync_token is None,
    {
        MatrixService { current_user: None, is_authenticated: false, sync_token: None }
    }

    pub fn new() -> (r: Self)
        ensures
            r.current_user is None,
            !r.is_authenticated,
            r.sync_token is None,
    {
        Self::default()
    }

    /// Signs in. An empty username or password, or a homeserver without a
    /// dot, is refused and nothing changes; otherwise the user
    /// `login_user_id(..)`, named `username` and online, becomes the
    /// signed-in user with a fresh sync token.
    pub fn login(&mut self, username: &str, password: &str, homeserver: &str) -> (r: Result<
        User,
        MatrixError,
    >)
        ensures
            (username@.len() == 0 || password@.len() == 0) ==> {
                &&& r matches Err(MatrixError::AuthenticationError(m)) && m@
                    == "Username and password cannot be empty"@
                &&& *final(self) == *old(self)
            },
            (username@.len() > 0 && password@.len() > 0 && !homeserver@.contains('.')) ==> {
                &&& r matches Err(MatrixError::AuthenticationError(m)) && m@
                    == "Invalid homeserver URL"@
                &&& *final(self) == *old(self)
            },
            (username@.len() > 0 && password@.len() > 0 && homeserver@.contains('.')) ==> {
                &&& r matches Ok(u) && is_person(
                    u,
                    login_user_id(username@, homeserver@),
                    username@,
                    UserPresence::Online,
                )
                &&& final(self).current_user matches Some(c) && c.same_as(&r->Ok_0)
                &&& final(self).is_authenticated
                &&& opt_view(final(self).sync_token) == Some("dummy_sync_token"@)
            },
    {
        if username.is_empty() || password.is_empty() {
            return Err(MatrixError::AuthenticationError(string_of("Username and password cannot be empty")));
        }
        let dot = str_contains(homeserver, ".");
        proof {
            reveal_strlit(".");
            assert(crate::text::contains_seq(homeserver@, "."@) == homeserver@.contains('.')) by {
                assert("."@.len() == 1 && "."@[0] == '.');
                if homeserver@.contains('.') {
                    let i = choose|i: int| 0 <= i < homeserver@.len() && homeserver@[i] == '.';
                    assert(homeserver@.subrange(i, i + 1) =~= "."@);
                }
                if crate::text::contains_seq(homeserver@, "."@) {
                    let i = choose|i: int|
                        0 <= i && i + "."@.len() <= homeserver@.len() && #[trigger] homeserver@.subrange(
                            i,
                            i + "."@.len(),
                        ) == "."@;
                    assert(homeserver@.subrange(i, i + 1)[0] == homeserver@[i]);
                }
            }
        }
        if !dot {
            return Err(MatrixError::AuthenticationError(string_of("Invalid homeserver URL")));
        }
        let n = username.unicode_len();
        let user_id = if n > 0 && username.get_char(0) == '@' {
            string_of(username)
        } else {
            let mut id = string_of("@");
            id.append(username);
            id.append(":");
            id.append(homeserver);
            id
        };
        let user = User {
            user_id,
            display_name: Some(string_of(username)),
            avatar_url: None,
            presence: UserPresence::Online,
        };
        self.current_user = Some(user.duplicate());
        self.is_authenticated = true;
        self.sync_token = Some(string_of("dummy_sync_token"));
        Ok(user)
    }

    /// Signs out: no user, no token.
    pub fn logout(&mut self) -> (r: Result<(), MatrixError>)
        ensures
            r is Ok,
            final(self).current_user is None,
            !final(self).is_authenticated,
            final(self).sync_token is None,
    {
        self.current_user = None;
        self.is_authenticated = false;
        self.sync_token = None;
        Ok(())
    }

    /// The rooms of the signed-in user.
    pub fn get_rooms(&self) -> (r: Result<Vec<Room>, MatrixError>)
        ensures
            !self.is_authenticated ==> is_not_authenticated(r),
            self.is_authenticated ==> (r matches Ok(rooms) && listed_rooms(rooms@)),
    {
        if !self.is_authenticated {
            return Err(MatrixError::AuthenticationError(string_of("Not authenticated")));
        }
        let mut rooms: Vec<Room> = Vec::new();
        rooms.push(room_with(
            "!direct1:matrix.org", RoomType::DirectMessage, "Alice Smith", None, 2, 3, true,
            text_from("$event1", person("@alice:matrix.org", "Alice Smith", UserPresence::Online),
                "Hey! How's the Matrix client coming along?"),
        ));
        rooms.push(room_with(
            "!direct2:matrix.org", RoomType::DirectMessage, "Bob Johnson", None, 2, 0, true,
            text_from("$event2", person("@bob:matrix.org", "Bob Johnson", UserPresence::Away),
                "Sure, let's meet at 3 PM"),
        ));
        rooms.push(room_with(
            "!rust:matrix.org", RoomType::PublicRoom, "Rust Programming",
            Some("Discussion about Rust programming language"), 1247, 12, false,
            text_from("$event3", person("@rustdev:matrix.org", "RustDev", UserPresence::Online),
                "Anyone know how to handle async in Ratatui?"),
        ));
        rooms.push(room_with(
            "!matrix-dev:matrix.org", RoomType::PublicRoom, "Matrix Development",
            Some("Matrix protocol and client development"), 892, 0, true,
            text_from("$event4", person("@matrixdev:matrix.org", "Matrix Developer", UserPresence::Online),
                "New Matrix SDK release is out!"),
        ));
        rooms.push(room_with(
            "!private1:matrix.org", RoomType::PrivateRoom, "Secret Project",
            Some("Top secret project discussion"), 5, 1, true,
            text_from("$event5", person("@lead:matrix.org", "Project Lead", UserPresence::Busy),
                "Meeting notes are uploaded"),
        ));
        Ok(rooms)
    }

    /// The messages of room `room_id`.
    pub fn get_room_messages(&self, room_id: &str) -> (r: Result<Vec<Message>, MatrixError>)
        requires
            self.is_authenticated && room_id@ == "!direct1:matrix.org"@ ==> self.current_user is Some,
        ensures
            !self.is_authenticated ==> is_not_authenticated(r),
            self.is_authenticated ==> (r matches Ok(msgs) && listed_messages(
                msgs@,
                room_id@,
                self.current_user,
            )),
    {
        if !self.is_authenticated {
            return Err(MatrixError::AuthenticationError(string_of("Not authenticated")));
        }
        let mut messages: Vec<Message> = Vec::new();
        if str_eq(room_id, "!direct1:matrix.org") {
            let you = match &self.current_user {
                Some(u) => u,
                None => {
                    proof {
                        assert(false);
                    }
                    return Ok(messages);
                },
            };
            let alice = "@alice:matrix.org";
            messages.push(text_from("$msg1", person(alice, "Alice Smith", UserPresence::Online),
                "Hey! How's the new Matrix client coming along?"));
            messages.push(text_from("$msg2", you.duplicate(), "Pretty good! Just working on the UI now."));
            messages.push(text_from("$msg3", person(alice, "Alice Smith", UserPresence::Online),
                "That's awesome! Are you using Ratatui?"));
            messages.push(text_from("$msg4", you.duplicate(), "Yes! It's really nice for TUI development."));
            messages.push(text_from("$msg5", person(alice, "Alice Smith", UserPresence::Online),
                "I'd love to try it out when you're done! 🚀"));
        } else if str_eq(room_id, "!rust:matrix.org") {
            messages.push(text_from("$msg6", person("@rustdev:matrix.org", "RustDev", UserPresence::Online),
                "Anyone know how to handle async in Ratatui?"));
            messages.push(text_from("$msg7", person("@rustfan:matrix.org", "RustFan", UserPresence::Online),
                "You might want to check out tokio integration"));
            messages.push(text_from("$msg8", person("@rustdev:matrix.org", "RustDev", UserPresence::Online),
                "Thanks! I'll look into that."));
        } else {
            messages.push(text_from("$generic1", person("@user1:matrix.org", "User One", UserPresence::Online),
                "Welcome to the room!"));
            let mut notice = string_of("This is a dummy room: ");
            notice.append(room_id);
            messages.push(Message::new_system(string_of("$system1"), notice));
        }
        Ok(messages)
    }

    /// Sends `content` to `room_id`. Refused without signing in, or when
    /// the content is only whitespace; otherwise the event id is
    /// `event_id_text(room_id, t)` for the time `t` of the call.
    pub fn send_message(&self, room_id: &str, content: &str) -> (r: Result<String, MatrixError>)
        ensures
            !self.is_authenticated ==> is_not_authenticated(r),
            self.is_authenticated && is_blank(content@) ==> (r matches Err(
                MatrixError::MessageSendFailed(m),
            ) && m@ == "Message content cannot be empty"@),
            self.is_authenticated && !is_blank(content@) ==> (r matches Ok(id) && exists|t: i64|
                id@ == event_id_text(room_id@, t as int)),
    {
        if !self.is_authenticated {
            return Err(MatrixError::AuthenticationError(string_of("Not authenticated")));
        }
        if str_is_blank(content) {
            return Err(MatrixError::MessageSendFailed(string_of("Message content cannot be empty")));
        }
        let secs = now_seconds();
        let id = dummy_event_id(room_id, secs);
        Ok(id)
    }

    /// Starts the typing notice in `room_id`; refused without signing in.
    pub fn start_typing(&self, room_id: &str) -> (r: Result<(), MatrixError>)
        ensures
            !self.is_authenticated ==> is_not_authenticated(r),
            self.is_authenticated ==> r is Ok,
    {
        if !self.is_authenticated {
            return Err(MatrixError::AuthenticationError(string_of("Not authenticated")));
        }
        Ok(())
    }

    /// Stops the typing notice in `room_id`; refused without signing in.
    pub fn stop_typing(&self, room_id: &str) -> (r: Result<(), MatrixError>)
        ensures
            !self.is_authenticated ==> is_not_authenticated(r),
            self.is_authenticated ==> r is Ok,
    {
        if !self.is_authenticated {
            return Err(MatrixError::AuthenticationError(string_of("Not authenticated")));
        }
        Ok(())
    }

    /// The members of room `room_id`.
    pub fn get_room_members(&self, room_id: &str) -> (r: Result<Vec<User>, MatrixError>)
        ensures
            !self.is_authenticated ==> is_not_authenticated(r),
            self.is_authenticated ==> (r matches Ok(members) && listed_members(
                members@,
                room_id@,
                self.current_user,
            )),
    {
        if !self.is_authenticated {
            return Err(MatrixError::AuthenticationError(string_of("Not authenticated")));
        }
        let mut members: Vec<User> = Vec::new();
        if let Some(user) = &self.current_user {
            members.push(user.duplicate());
        }
        let ghost k: int = members@.len() as int;
        if str_eq(room_id, "!direct1:matrix.org") {
            members.push(person("@alice:matrix.org", "Alice Smith", UserPresence::Online));
        } else if str_eq(room_id, "!rust:matrix.org") {
            members.push(person("@rustdev:matrix.org", "RustDev", UserPresence::Online));
            members.push(person("@rustfan:matrix.org", "RustFan", UserPresence::Away));
        } else {
            members.push(person("@member1:matrix.org", "Member One", UserPresence::Online));
        }
        proof {
            assert(members@.skip(k)[0] == members@[k]);
        }
        Ok(members)
    }

    /// Syncs: a fresh token `sync_token_text(t)` for the time `t` of the
    /// call; refused, with nothing changed, without signing in.
    pub fn sync(&mut self) -> (r: Result<(), MatrixError>)
        ensures
            !old(self).is_authenticated ==> is_not_authenticated(r) && *final(self) == *old(self),
            old(self).is_authenticated ==> {
                &&& r is Ok
                &&& final(self).sync_token matches Some(t) && exists|s: i64|
                    t@ == sync_token_text(s as int)
                &&& final(self).current_user == old(self).current_user
                &&& final(self).is_authenticated
            },
    {
        if !self.is_authenticated {
            return Err(MatrixError::AuthenticationError(string_of("Not authenticated")));
        }
        let secs = now_seconds();
        self.sync_token = Some(dummy_sync_token(secs));
        Ok(())
    }

    pub fn is_authenticated(&self) -> (b: bool)
        ensures
            b == self.is_authenticated,
    {
        self.is_authenticated
    }

    pub fn current_user(&self) -> (r: Option<&User>)
        ensures
            r == match self.current_user {
                Some(u) => Some(&u),
                None => None,
            },
    {
        self.current_user.as_ref()
    }

    pub fn current_user_id(&self) -> (r: Option<&str>)
        ensures
            match self.current_user {
                Some(u) => r matches Some(id) && id@ == u.user_id@,
                None => r is None,
            },
    {
        match &self.current_user {
            Some(u) => Some(u.user_id.as_str()),
            None => None,
        }
    }
}

} // verus!
