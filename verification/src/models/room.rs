//! A joined room as the room list shows it.
use vstd::prelude::*;

use crate::text::copy_string;

verus! {

#[derive(Debug)]
pub struct Room {
    pub room_id: String,
    pub display_name: Option<String>,
    pub avatar_url: Option<String>,
    pub last_message: Option<String>,
    pub unread_count: u64,
    pub is_encrypted: bool,
    pub is_direct: bool,
}

impl Room {
    /// The name shown for the room: its display name, else its id.
    pub open spec fn shown_name(&self) -> Seq<char> {
        match self.display_name {
            Some(n) => n@,
            None => self.room_id@,
        }
    }

    pub fn new(room_id: String) -> (r: Self)
        ensures
            r.room_id == room_id,
            r.display_name is None,
            r.avatar_url is None,
            r.last_message is None,
            r.unread_count == 0,
            !r.is_encrypted,
            !r.is_direct,
    {
        Room {
            room_id,
            display_name: None,
            avatar_url: None,
            last_message: None,
            unread_count: 0,
            is_encrypted: false,
            is_direct: false,
        }
    }

    pub fn get_display_name(&self) -> (r: String)
        ensures
            r@ == self.shown_name(),
    {
        match &self.display_name {
            Some(n) => copy_string(n),
            None => copy_string(&self.room_id),
        }
    }
}

} // verus!
