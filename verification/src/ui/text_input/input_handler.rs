//! Editing state of the basic input box: the cursor moves over characters
//! while edits address the byte at the cursor, as `String` does.
use vstd::prelude::*;

use crate::text::{char_boundary, string_clear, string_insert, string_len, string_remove};
use crate::ui::input_handler::{after_delete, after_enter, delete_ok, enter_ok};
use crate::ui::keys::{KeyCode, KeyEvent};

verus! {

#[derive(Debug)]
pub struct TextInputState {
    pub value: String,
    pub cursor_position: usize,
    pub is_focused: bool,
}

/// Cursor after moving one position right, not past the character count.
pub open spec fn after_right_chars(s: Seq<char>, c: int) -> int {
    if c < s.len() {
        c + 1
    } else {
        c
    }
}

/// Text, cursor and handled flag after a key.
pub open spec fn basic_key_step(s: Seq<char>, c: int, key: KeyEvent) -> (Seq<char>, int, bool) {
    match key.code {
        KeyCode::Char(ch) => (after_enter(s, c, ch).0, after_enter(s, c, ch).1, true),
        KeyCode::Left => (s, if c > 0 { c - 1 } else { c }, true),
        KeyCode::Right => (s, after_right_chars(s, c), true),
        KeyCode::Backspace => {
            if key.modifiers.alt {
                (Seq::empty(), 0, true)
            } else {
                (after_delete(s, c).0, after_delete(s, c).1, true)
            }
        },
        _ => (s, c, false),
    }
}

pub open spec fn basic_key_ok(s: Seq<char>, c: int, key: KeyEvent) -> bool {
    match key.code {
        KeyCode::Char(ch) => enter_ok(s, c),
        KeyCode::Backspace => key.modifiers.alt || delete_ok(s, c),
        _ => true,
    }
}

impl TextInputState {
    pub fn default() -> (r: Self)
        ensures
            r.value@ == Seq::<char>::empty(),
            r.cursor_position == 0,
            !r.is_focused,
    {
        TextInputState { value: String::new(), cursor_position: 0, is_focused: false }
    }

    /// A field holding `value` with the cursor after its last character.
    pub fn new(value: String, is_focused: bool) -> (r: Self)
        ensures
            r.value@ == value@,
            r.cursor_position == value@.len(),
            r.is_focused == is_focused,
    {
        let cursor_position = value.as_str().unicode_len();
        TextInputState { value, cursor_position, is_focused }
    }

    pub fn move_cursor_left(&mut self)
        ensures
            final(self).value@ == old(self).value@,
            final(self).is_focused == old(self).is_focused,
            final(self).cursor_position == if old(self).cursor_position > 0 {
                old(self).cursor_position - 1
            } else {
                0
            },
    {
        if self.cursor_position > 0 {
            self.cursor_position -= 1;
        }
    }

    pub fn move_cursor_right(&mut self)
        ensures
            final(self).value@ == old(self).value@,
            final(self).is_focused == old(self).is_focused,
            final(self).cursor_position == after_right_chars(
                old(self).value@,
                old(self).cursor_position as int,
            ),
    {
        if self.cursor_position < self.value.as_str().unicode_len() {
            self.cursor_position += 1;
        }
    }

    /// Inserts `c` at the cursor's byte offset and moves the cursor on.
    pub fn enter_char(&mut self, c: char)
        requires
            enter_ok(old(self).value@, old(self).cursor_position as int),
        ensures
            (final(self).value@, final(self).cursor_position as int) == after_enter(
                old(self).value@,
                old(self).cursor_position as int,
                c,
            ),
            final(self).is_focused == old(self).is_focused,
    {
        string_insert(&mut self.value, self.cursor_position, c);
        self.cursor_position += 1;
    }

    /// Removes the character that starts one byte before the cursor.
    pub fn delete_char(&mut self)
        requires
            delete_ok(old(self).value@, old(self).cursor_position as int),
        ensures
            (final(self).value@, final(self).cursor_position as int) == after_delete(
                old(self).value@,
                old(self).cursor_position as int,
            ),
            final(self).is_focused == old(self).is_focused,
    {
        if self.cursor_position > 0 {
            string_remove(&mut self.value, self.cursor_position - 1);
            self.cursor_position -= 1;
        }
    }

    pub fn clear(&mut self)
        ensures
            final(self).value@ == Seq::<char>::empty(),
            final(self).cursor_position == 0,
            final(self).is_focused == old(self).is_focused,
    {
        string_clear(&mut self.value);
        self.cursor_position = 0;
    }

    pub fn set_focused(&mut self, focused: bool)
        ensures
            final(self).value == old(self).value,
            final(self).cursor_position == old(self).cursor_position,
            final(self).is_focused == focused,
    {
        self.is_focused = focused;
    }

    /// Whether `handle_key_event` can take `key` here (see `basic_key_ok`).
    pub fn accepts_key(&self, key: KeyEvent) -> (b: bool)
        ensures
            b == basic_key_ok(self.value@, self.cursor_position as int, key),
    {
        let s = self.value.as_str();
        let c = self.cursor_position;
        match key.code {
            KeyCode::Char(_) => char_boundary(s, c) && c < usize::MAX,
            KeyCode::Backspace => key.modifiers.alt || c == 0 || (char_boundary(s, c - 1) && c - 1
                < string_len(&self.value)),
            _ => true,
        }
    }

    /// Applies a key; Alt+Backspace clears the field.
    pub fn handle_key_event(&mut self, key: KeyEvent) -> (handled: bool)
        requires
            basic_key_ok(old(self).value@, old(self).cursor_position as int, key),
        ensures
            (final(self).value@, final(self).cursor_position as int, handled) == basic_key_step(
                old(self).value@,
                old(self).cursor_position as int,
                key,
            ),
            final(self).is_focused == old(self).is_focused,
    {
        match key.code {
            KeyCode::Char(c) => {
                self.enter_char(c);
                true
            },
            KeyCode::Left => {
                self.move_cursor_left();
                true
            },
            KeyCode::Right => {
                self.move_cursor_right();
                true
            },
            KeyCode::Backspace => {
                if key.modifiers.alt {
                    self.clear();
                    return true;
                }
                self.delete_char();
                true
            },
            _ => false,
        }
    }
}

} // verus!
