//! Account-level data of a signed-in session: the user, joined rooms and
//! their messages.
pub mod message;
pub mod room;
pub mod user;
