//! The screens of the client and the key handling that moves between them.
use vstd::prelude::*;

pub mod chat;
pub mod homeserver_select;
pub mod login;

verus! {

#[derive(Debug, Clone, Copy, PartialEq, Eq, Structural)]
pub enum Screen {
    Login,
    Chat,
    HomeserverSelect,
}

impl Screen {
    pub fn default() -> (s: Screen)
        ensures
            s == Screen::Login,
    {
        Screen::Login
    }
}

} // verus!
