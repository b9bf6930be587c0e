//! Chat widgets: message composer, message list, room list.
pub mod chat_input;
pub mod message_list;
pub mod room_list;
