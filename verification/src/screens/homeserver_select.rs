//! The homeserver selection screen: an editable address and whether the
//! last check refused it. Checking an address goes through the network,
//! so Enter asks the caller to check it and report back.
use vstd::prelude::*;

use crate::screens::Screen;
use crate::text::{byte_len, string_of};
use crate::ui::input_handler::{key_ok, key_step, TextInputState};
use crate::ui::keys::{KeyCode, KeyEvent};
use crate::ui::text_input::TextInput;

verus! {

#[derive(Debug)]
pub struct HomeserverSelectScreen {
    pub value: TextInputState,
    pub invalid: bool,
}

/// What the caller is to do after a key press.
#[derive(Debug, Clone, Copy, PartialEq, Eq, Structural)]
pub enum HomeserverStep {
    /// Leave the client.
    Quit,
    /// Stay on this screen.
    Stay,
    /// Check the address in `value` and report the verdict with
    /// `validation_finished`.
    Validate,
}

impl HomeserverSelectScreen {
    /// `matrix.org`, cursor at its end, nothing refused.
    pub fn default() -> (r: Self)
        ensures
            r.value.value@ == "matrix.org"@,
            r.value.cursor_position == byte_len("matrix.org"@),
            !r.invalid,
    {
        HomeserverSelectScreen { value: TextInputState::new(string_of("matrix.org")), invalid: false }
    }

    /// What a key does: Esc quits; Enter asks for a check of a non-empty
    /// address and marks an empty one invalid; other keys edit the address,
    /// clearing the invalid mark, and Ctrl+C, which the editor ignores,
    /// quits.
    pub fn handle_key_event_with_deps(&mut self, key: KeyEvent) -> (r: HomeserverStep)
        requires
            key.code != KeyCode::Esc && key.code != KeyCode::Enter ==> key_ok(
                old(self).value.value@,
                old(self).value.cursor_position as int,
                key,
            ),
        ensures
            key.code == KeyCode::Esc ==> r == HomeserverStep::Quit && *final(self) == *old(self),
            key.code == KeyCode::Enter && old(self).value.value@.len() > 0 ==> r
                == HomeserverStep::Validate && *final(self) == *old(self),
            key.code == KeyCode::Enter && old(self).value.value@.len() == 0 ==> r
                == HomeserverStep::Stay && final(self).invalid && final(self).value == old(
                self,
            ).value,
            key.code != KeyCode::Esc && key.code != KeyCode::Enter ==> {
                let step = key_step(
                    old(self).value.value@,
                    old(self).value.cursor_position as int,
                    key,
                );
                &&& final(self).value.value@ == step.0
                &&& final(self).value.cursor_position == step.1
                &&& step.2 ==> r == HomeserverStep::Stay && !final(self).invalid
                &&& !step.2 ==> final(self).invalid == old(self).invalid && r == if key.code
                    == KeyCode::Char('c') && key.modifiers.control {
                    HomeserverStep::Quit
                } else {
                    HomeserverStep::Stay
                }
            },
    {
        match key.code {
            KeyCode::Esc => HomeserverStep::Quit,
            KeyCode::Enter => {
                if !self.value.value.as_str().is_empty() {
                    HomeserverStep::Validate
                } else {
                    self.invalid = true;
                    HomeserverStep::Stay
                }
            },
            _ => {
                let handled = self.value.handle_key_event(key);
                if handled {
                    self.invalid = false;  // Clear error when user starts typing
                    HomeserverStep::Stay
                } else {
                    match key.code {
                        KeyCode::Char('c') if key.modifiers.control => HomeserverStep::Quit,
                        _ => HomeserverStep::Stay,
                    }
                }
            },
        }
    }

    /// The address box, always being edited.
    pub fn homeserver_input(&self) -> (r: TextInput<'_>)
        ensures
            r.value@ == self.value.value@,
            r.cursor_position == self.value.cursor_position,
            r.title@ == "Homeserver"@,
            r.placeholder@ == "Enter homeserver URL (e.g., matrix.org)"@,
            r.is_focused,
            r.is_editing,
            !r.is_password,
    {
        TextInput::editable(
            self.value.value.as_str(),
            self.value.cursor_position,
            "Homeserver",
            "Enter homeserver URL (e.g., matrix.org)",
        )
    }

    /// The check of the address finished: an accepted address moves on to
    /// the login screen; a refused one is marked and the screen stays.
    pub fn validation_finished(&mut self, valid: bool) -> (s: Screen)
        ensures
            final(self).value == old(self).value,
            final(self).invalid == !valid,
            s == if valid {
                Screen::Login
            } else {
                Screen::HomeserverSelect
            },
    {
        if valid {
            self.invalid = false;
            Screen::Login
        } else {
            self.invalid = true;
            Screen::HomeserverSelect
        }
    }
}

} // verus!
