//! A message of a room's timeline. Its time is a count of milliseconds
//! since the Unix epoch.
use vstd::prelude::*;

use crate::text::{copy_string, string_of};

verus! {

#[derive(Debug)]
pub struct Message {
    pub event_id: String,
    pub sender: String,
    pub sender_display_name: Option<String>,
    pub content: MessageContent,
    pub timestamp: i64,
    pub is_own_message: bool,
}

#[derive(Debug)]
pub enum MessageContent {
    Text(String),
    Emote(String),
    Notice(String),
    Image { body: String, url: String },
    File { body: String, url: String },
    Unknown,
}

/// The text shown for a message body.
pub open spec fn text_content(c: MessageContent) -> Seq<char> {
    match c {
        MessageContent::Text(t) => t@,
        MessageContent::Emote(t) => "* "@ + t@,
        MessageContent::Notice(t) => t@,
        MessageContent::Image { body, .. } => "[Image: "@ + body@ + "]"@,
        MessageContent::File { body, .. } => "[File: "@ + body@ + "]"@,
        MessageContent::Unknown => "[Unknown message type]"@,
    }
}

/// `before`, then `body`, then `after`.
fn framed(before: &str, body: &String, after: &str) -> (r: String)
    ensures
        r@ == before@ + body@ + after@,
{
    let mut r = string_of(before);
    r.append(body.as_str());
    r.append(after);
    r
}

impl Message {
    pub fn new(
        event_id: String,
        sender: String,
        sender_display_name: Option<String>,
        content: MessageContent,
        timestamp: i64,
        is_own_message: bool,
    ) -> (r: Self)
        ensures
            r == (Message {
                event_id,
                sender,
                sender_display_name,
                content,
                timestamp,
                is_own_message,
            }),
    {
        Self { event_id, sender, sender_display_name, content, timestamp, is_own_message }
    }

    /// The sender as shown: the display name, else the sender's id.
    pub open spec fn sender_name(&self) -> Seq<char> {
        match self.sender_display_name {
            Some(n) => n@,
            None => self.sender@,
        }
    }

    pub fn get_sender_name(&self) -> (r: String)
        ensures
            r@ == self.sender_name(),
    {
        match &self.sender_display_name {
            Some(n) => copy_string(n),
            None => copy_string(&self.sender),
        }
    }

    pub fn get_text_content(&self) -> (r: String)
        ensures
            r@ == text_content(self.content),
    {
        match &self.content {
            MessageContent::Text(text) => copy_string(text),
            MessageContent::Emote(text) => {
                let mut r = string_of("* ");
                r.append(text.as_str());
                r
            },
            MessageContent::Notice(text) => copy_string(text),
            MessageContent::Image { body, .. } => framed("[Image: ", body, "]"),
            MessageContent::File { body, .. } => framed("[File: ", body, "]"),
            MessageContent::Unknown => string_of("[Unknown message type]"),
        }
    }
}

} // verus!
