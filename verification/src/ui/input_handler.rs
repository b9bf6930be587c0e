//! Single-line text editing state shared by every input field, and a
//! multi-field form holder.
//!
//! The cursor is a byte offset into the UTF-8 text, as `String` indexes it.
use vstd::prelude::*;

use crate::text::{
    char_width, lemma_byte_len_append, lemma_byte_len_nonneg, lemma_byte_len_single,
    lemma_char_index_at_complete, lemma_char_index_at_sound, lemma_char_width,
    byte_len, char_at_or_space, char_boundary, char_index_at, char_is_whitespace, on_boundary, space_at,
    string_clear, string_drain, string_insert, string_len, string_remove, string_truncate,
};
use crate::ui::keys::{KeyCode, KeyEvent};

verus! {

/// Character index named by the byte offset `b` of `s` (meaningful when
/// `on_boundary(s, b)`).
pub open spec fn char_at_byte(s: Seq<char>, b: int) -> int {
    char_index_at(s, b)->0
}

/// Cursor after moving one byte left.
pub open spec fn after_left(c: int) -> int {
    if c > 0 {
        c - 1
    } else {
        c
    }
}

/// Cursor after moving one byte right, not past the end of the text.
pub open spec fn after_right(s: Seq<char>, c: int) -> int {
    if c < byte_len(s) {
        c + 1
    } else {
        c
    }
}

/// Text and cursor after typing `ch` at the cursor.
pub open spec fn after_enter(s: Seq<char>, c: int, ch: char) -> (Seq<char>, int) {
    (s.insert(char_at_byte(s, c), ch), c + 1)
}

/// Typing at the cursor is possible: it sits on a character boundary.
pub open spec fn enter_ok(s: Seq<char>, c: int) -> bool {
    on_boundary(s, c) && c < usize::MAX
}

/// Text and cursor after Backspace.
pub open spec fn after_delete(s: Seq<char>, c: int) -> (Seq<char>, int) {
    if c > 0 {
        (s.remove(char_at_byte(s, c - 1)), c - 1)
    } else {
        (s, c)
    }
}

/// Backspace is possible: the byte before the cursor starts a character.
pub open spec fn delete_ok(s: Seq<char>, c: int) -> bool {
    c > 0 ==> on_boundary(s, c - 1) && c - 1 < byte_len(s)
}

/// Text and cursor after Delete.
pub open spec fn after_delete_forward(s: Seq<char>, c: int) -> (Seq<char>, int) {
    if c < byte_len(s) {
        (s.remove(char_at_byte(s, c)), c)
    } else {
        (s, c)
    }
}

pub open spec fn delete_forward_ok(s: Seq<char>, c: int) -> bool {
    c < byte_len(s) ==> on_boundary(s, c)
}

/// Where the cursor lands when moving one word to the left: the nearest
/// position before it whose character is whitespace, or 0.
pub open spec fn word_left_pos(s: Seq<char>, p: int) -> int
    decreases p,
{
    if p <= 0 {
        p
    } else if space_at(s, p - 1) {
        p - 1
    } else {
        word_left_pos(s, p - 1)
    }
}

/// Where the cursor lands when moving one word to the right: just past the
/// first whitespace character at or after it, or at `end`.
pub open spec fn word_right_pos(s: Seq<char>, p: int, end: int) -> int
    decreases end - p,
{
    if p >= end {
        p
    } else if space_at(s, p) {
        p + 1
    } else {
        word_right_pos(s, p + 1, end)
    }
}

/// Start of the word that ends at `p` (stepping back over non-whitespace).
pub open spec fn word_start_back(s: Seq<char>, p: int) -> int
    decreases p,
{
    if p <= 0 {
        p
    } else if space_at(s, p - 1) {
        p
    } else {
        word_start_back(s, p - 1)
    }
}

/// Start of the whitespace run that ends at `p`.
pub open spec fn space_start_back(s: Seq<char>, p: int) -> int
    decreases p,
{
    if p <= 0 {
        p
    } else if !space_at(s, p - 1) {
        p
    } else {
        space_start_back(s, p - 1)
    }
}

/// Where Ctrl+W deletes back to: the start of the word before the cursor
/// together with the whitespace before that word.
pub open spec fn word_delete_start(s: Seq<char>, p: int) -> int {
    space_start_back(s, word_start_back(s, p))
}

pub open spec fn after_delete_word(s: Seq<char>, c: int) -> (Seq<char>, int) {
    let st = word_delete_start(s, c);
    (s.take(char_at_byte(s, st)) + s.skip(char_at_byte(s, c)), st)
}

pub open spec fn delete_word_ok(s: Seq<char>, c: int) -> bool {
    on_boundary(s, word_delete_start(s, c)) && on_boundary(s, c)
}

/// Ctrl+U: drop everything before the cursor.
pub open spec fn after_clear_to_start(s: Seq<char>, c: int) -> (Seq<char>, int) {
    (s.skip(char_at_byte(s, c)), 0)
}

/// Ctrl+K: drop everything from the cursor on.
pub open spec fn after_clear_to_end(s: Seq<char>, c: int) -> (Seq<char>, int) {
    if c < byte_len(s) {
        (s.take(char_at_byte(s, c)), c)
    } else {
        (s, c)
    }
}

pub open spec fn clear_to_end_ok(s: Seq<char>, c: int) -> bool {
    c < byte_len(s) ==> on_boundary(s, c)
}

/// The key's effect on text and cursor, and whether the key was handled.
pub open spec fn key_step(s: Seq<char>, c: int, key: KeyEvent) -> (Seq<char>, int, bool) {
    match key.code {
        KeyCode::Char(ch) => {
            if key.modifiers.control {
                if ch == 'a' {
                    (s, 0, true)
                } else if ch == 'e' {
                    (s, byte_len(s), true)
                } else if ch == 'u' {
                    (after_clear_to_start(s, c).0, 0, true)
                } else if ch == 'k' {
                    (after_clear_to_end(s, c).0, c, true)
                } else if ch == 'w' {
                    (after_delete_word(s, c).0, after_delete_word(s, c).1, true)
                } else {
                    (s, c, false)
                }
            } else {
                (after_enter(s, c, ch).0, after_enter(s, c, ch).1, true)
            }
        },
        KeyCode::Backspace => (after_delete(s, c).0, after_delete(s, c).1, true),
        KeyCode::Delete => (after_delete_forward(s, c).0, after_delete_forward(s, c).1, true),
        KeyCode::Left => {
            if key.modifiers.control {
                (s, word_left_pos(s, c), true)
            } else {
                (s, after_left(c), true)
            }
        },
        KeyCode::Right => {
            if key.modifiers.control {
                (s, word_right_pos(s, c, byte_len(s)), true)
            } else {
                (s, after_right(s, c), true)
            }
        },
        KeyCode::Home => (s, 0, true),
        KeyCode::End => (s, byte_len(s), true),
        _ => (s, c, false),
    }
}

/// The key can be applied without a string operation panicking.
pub open spec fn key_ok(s: Seq<char>, c: int, key: KeyEvent) -> bool {
    match key.code {
        KeyCode::Char(ch) => {
            if key.modifiers.control {
                (ch == 'u' ==> on_boundary(s, c)) && (ch == 'k' ==> clear_to_end_ok(s, c)) && (ch
                    == 'w' ==> delete_word_ok(s, c))
            } else {
                enter_ok(s, c)
            }
        },
        KeyCode::Backspace => delete_ok(s, c),
        KeyCode::Delete => delete_forward_ok(s, c),
        _ => true,
    }
}

/// Generic text input handler that can be used across different screens
#[derive(Debug, Clone)]
pub struct TextInputState {
    pub value: String,
    pub cursor_position: usize,
}

impl TextInputState {
    /// An empty field with the cursor at 0.
    pub fn default() -> (r: Self)
        ensures
            r.value@ == Seq::<char>::empty(),
            r.cursor_position == 0,
    {
        TextInputState { value: String::new(), cursor_position: 0 }
    }

    /// A field holding `value` with the cursor after its last byte.
    pub fn new(value: String) -> (r: Self)
        ensures
            r.value@ == value@,
            r.cursor_position == byte_len(value@),
    {
        let cursor_position = string_len(&value);
        TextInputState { value, cursor_position }
    }

    /// A field holding `value` with the cursor at `cursor_position`, clamped
    /// to the text's length.
    pub fn with_cursor(value: String, cursor_position: usize) -> (r: Self)
        ensures
            r.value@ == value@,
            r.cursor_position == if cursor_position < byte_len(value@) {
                cursor_position as int
            } else {
                byte_len(value@)
            },
    {
        let len = string_len(&value);
        let cursor_position = if cursor_position < len {
            cursor_position
        } else {
            len
        };
        TextInputState { value, cursor_position }
    }

    pub fn move_cursor_left(&mut self)
        ensures
            final(self).value@ == old(self).value@,
            final(self).cursor_position == after_left(old(self).cursor_position as int),
    {
        if self.cursor_position > 0 {
            self.cursor_position -= 1;
        }
    }

    pub fn move_cursor_right(&mut self)
        ensures
            final(self).value@ == old(self).value@,
            final(self).cursor_position == after_right(
                old(self).value@,
                old(self).cursor_position as int,
            ),
    {
        if self.cursor_position < string_len(&self.value) {
            self.cursor_position += 1;
        }
    }

    pub fn move_cursor_to_start(&mut self)
        ensures
            final(self).value@ == old(self).value@,
            final(self).cursor_position == 0,
    {
        self.cursor_position = 0;
    }

    pub fn move_cursor_to_end(&mut self)
        ensures
            final(self).value@ == old(self).value@,
            final(self).cursor_position == byte_len(old(self).value@),
    {
        self.cursor_position = string_len(&self.value);
    }

    /// Inserts `c` at the cursor and moves the cursor one byte on.
    pub fn enter_char(&mut self, c: char)
        requires
            enter_ok(old(self).value@, old(self).cursor_position as int),
        ensures
            (final(self).value@, final(self).cursor_position as int) == after_enter(
                old(self).value@,
                old(self).cursor_position as int,
                c,
            ),
    {
        string_insert(&mut self.value, self.cursor_position, c);
        self.cursor_position += 1;
    }

    /// Removes the character that starts one byte before the cursor.
    pub fn delete_char(&mut self)
        requires
            delete_ok(old(self).value@, old(self).cursor_position as int),
        ensures
            (final(self).value@, final(self).cursor_position as int) == after_delete(
                old(self).value@,
                old(self).cursor_position as int,
            ),
    {
        if self.cursor_position > 0 {
            string_remove(&mut self.value, self.cursor_position - 1);
            self.cursor_position -= 1;
        }
    }

    /// Removes the character that starts at the cursor.
    pub fn delete_char_forward(&mut self)
        requires
            delete_forward_ok(old(self).value@, old(self).cursor_position as int),
        ensures
            (final(self).value@, final(self).cursor_position as int) == after_delete_forward(
                old(self).value@,
                old(self).cursor_position as int,
            ),
    {
        if self.cursor_position < string_len(&self.value) {
            string_remove(&mut self.value, self.cursor_position);
        }
    }

    pub fn clear(&mut self)
        ensures
            final(self).value@ == Seq::<char>::empty(),
            final(self).cursor_position == 0,
    {
        string_clear(&mut self.value);
        self.cursor_position = 0;
    }

    /// Replaces the text and puts the cursor at its end.
    pub fn set_value(&mut self, value: String)
        ensures
            final(self).value@ == value@,
            final(self).cursor_position == byte_len(value@),
    {
        self.value = value;
        self.cursor_position = string_len(&self.value);
    }

    pub fn is_empty(&self) -> (b: bool)
        ensures
            b == (self.value@.len() == 0),
    {
        self.value.as_str().is_empty()
    }

    /// Handle common text input key events
    /// Returns true if the key was handled, false otherwise
    pub fn handle_key_event(&mut self, key: KeyEvent) -> (handled: bool)
        requires
            key_ok(old(self).value@, old(self).cursor_position as int, key),
        ensures
            (final(self).value@, final(self).cursor_position as int, handled) == key_step(
                old(self).value@,
                old(self).cursor_position as int,
                key,
            ),
    {
        match key.code {
            KeyCode::Char(c) => {
                if key.modifiers.control {
                    if c == 'a' {
                        self.move_cursor_to_start();
                        true
                    } else if c == 'e' {
                        self.move_cursor_to_end();
                        true
                    } else if c == 'u' {
                        // Clear from cursor to beginning
                        string_drain(&mut self.value, 0, self.cursor_position);
                        self.cursor_position = 0;
                        proof {
                            crate::text::lemma_start_index(old(self).value@);
                        }
                        true
                    } else if c == 'k' {
                        // Clear from cursor to end
                        string_truncate(&mut self.value, self.cursor_position);
                        true
                    } else if c == 'w' {
                        // Delete word backwards
                        self.delete_word_backwards();
                        true
                    } else {
                        false
                    }
                } else {
                    self.enter_char(c);
                    true
                }
            },
            KeyCode::Backspace => {
                self.delete_char();
                true
            },
            KeyCode::Delete => {
                self.delete_char_forward();
                true
            },
            KeyCode::Left => {
                if key.modifiers.control {
                    self.move_cursor_word_left();
                } else {
                    self.move_cursor_left();
                }
                true
            },
            KeyCode::Right => {
                if key.modifiers.control {
                    self.move_cursor_word_right();
                } else {
                    self.move_cursor_right();
                }
                true
            },
            KeyCode::Home => {
                self.move_cursor_to_start();
                true
            },
            KeyCode::End => {
                self.move_cursor_to_end();
                true
            },
            _ => false,
        }
    }

    /// Where Ctrl+W deletes back to (see `word_delete_start`).
    fn word_delete_position(&self) -> (p: usize)
        ensures
            p == word_delete_start(self.value@, self.cursor_position as int),
            p <= self.cursor_position,
    {
        let original_pos = self.cursor_position;
        let ghost s = self.value@;
        let mut p = self.cursor_position;
        // Move to the beginning of the current word
        while p > 0
            invariant_except_break
                s == self.value@,
                original_pos == self.cursor_position,
                p <= original_pos,
                word_start_back(s, original_pos as int) == word_start_back(s, p as int),
            ensures
                p <= original_pos,
                p == word_start_back(s, original_pos as int),
            decreases p,
        {
            let prev_char = char_at_or_space(&self.value, p - 1);
            if char_is_whitespace(prev_char) {
                break;
            }
            p -= 1;
        }
        let ghost word_start = p as int;
        // Skip whitespace
        while p > 0
            invariant_except_break
                s == self.value@,
                p <= original_pos,
                space_start_back(s, word_start) == space_start_back(s, p as int),
            ensures
                p <= original_pos,
                p == space_start_back(s, word_start),
            decreases p,
        {
            let prev_char = char_at_or_space(&self.value, p - 1);
            if !char_is_whitespace(prev_char) {
                break;
            }
            p -= 1;
        }
        p
    }

    /// Ctrl+W: deletes the word before the cursor and the whitespace before it.
    pub fn delete_word_backwards(&mut self)
        requires
            delete_word_ok(old(self).value@, old(self).cursor_position as int),
        ensures
            (final(self).value@, final(self).cursor_position as int) == after_delete_word(
                old(self).value@,
                old(self).cursor_position as int,
            ),
    {
        let original_pos = self.cursor_position;
        let start = self.word_delete_position();
        self.cursor_position = start;
        // Delete from the word's start to the original position
        string_drain(&mut self.value, start, original_pos);
    }

    /// Whether `handle_key_event` can take `key` here (see `key_ok`).
    pub fn accepts_key(&self, key: KeyEvent) -> (b: bool)
        ensures
            b == key_ok(self.value@, self.cursor_position as int, key),
    {
        let s = self.value.as_str();
        let c = self.cursor_position;
        match key.code {
            KeyCode::Char(ch) => {
                if key.modifiers.control {
                    if ch == 'u' {
                        char_boundary(s, c)
                    } else if ch == 'k' {
                        c >= string_len(&self.value) || char_boundary(s, c)
                    } else if ch == 'w' {
                        char_boundary(s, self.word_delete_position()) && char_boundary(s, c)
                    } else {
                        true
                    }
                } else {
                    char_boundary(s, c) && c < usize::MAX
                }
            },
            KeyCode::Backspace => c == 0 || (char_boundary(s, c - 1) && c - 1 < string_len(&self.value)),
            KeyCode::Delete => c >= string_len(&self.value) || char_boundary(s, c),
            _ => true,
        }
    }

    /// Ctrl+Left: moves to the nearest whitespace character before the cursor.
    pub fn move_cursor_word_left(&mut self)
        ensures
            final(self).value@ == old(self).value@,
            final(self).cursor_position == word_left_pos(
                old(self).value@,
                old(self).cursor_position as int,
            ),
    {
        let ghost s = self.value@;
        let ghost orig = self.cursor_position as int;
        while self.cursor_position > 0
            invariant_except_break
                self.value@ == s,
                word_left_pos(s, orig) == word_left_pos(s, self.cursor_position as int),
            ensures
                self.value@ == s,
                self.cursor_position == word_left_pos(s, orig),
            decreases self.cursor_position,
        {
            self.cursor_position -= 1;
            let char_at_cursor = char_at_or_space(&self.value, self.cursor_position);
            if char_is_whitespace(char_at_cursor) {
                break;
            }
        }
    }

    /// Ctrl+Right: moves just past the next whitespace character.
    pub fn move_cursor_word_right(&mut self)
        ensures
            final(self).value@ == old(self).value@,
            final(self).cursor_position == word_right_pos(
                old(self).value@,
                old(self).cursor_position as int,
                byte_len(old(self).value@),
            ),
    {
        let ghost s = self.value@;
        let ghost orig = self.cursor_position as int;
        let len = string_len(&self.value);
        while self.cursor_position < len
            invariant_except_break
                self.value@ == s,
                len == byte_len(s),
                word_right_pos(s, orig, len as int) == word_right_pos(
                    s,
                    self.cursor_position as int,
                    len as int,
                ),
            ensures
                self.value@ == s,
                self.cursor_position == word_right_pos(s, orig, len as int),
            decreases len - self.cursor_position,
        {
            let char_at_cursor = char_at_or_space(&self.value, self.cursor_position);
            self.cursor_position += 1;
            if char_is_whitespace(char_at_cursor) {
                break;
            }
        }
    }
}


/// Multi-field form handler for managing multiple text inputs
#[derive(Debug, Clone)]
pub struct FormHandler<T> {
    pub fields: Vec<TextInputState>,
    pub active_field: T,
    pub editing: bool,
}

impl<T> FormHandler<T> where T: Clone + PartialEq {
    pub fn new(fields: Vec<TextInputState>, initial_field: T) -> (r: Self)
        ensures
            r.fields == fields,
            r.active_field == initial_field,
            !r.editing,
    {
        FormHandler { fields, active_field: initial_field, editing: false }
    }

    /// The field at `field_index`, for editing in place.
    pub fn get_active_field_mut(&mut self, field_index: usize) -> (r: Option<&mut TextInputState>)
        ensures
            field_index < old(self).fields@.len() <==> r is Some,
            r matches Some(f) ==> {
                &&& *f == old(self).fields@[field_index as int]
                &&& final(self).fields@ == old(self).fields@.update(field_index as int, *final(f))
                &&& final(self).active_field == old(self).active_field
                &&& final(self).editing == old(self).editing
            },
            r is None ==> *final(self) == *old(self),
    {
        if field_index < self.fields.len() {
            Some(&mut self.fields[field_index])
        } else {
            None
        }
    }

    /// The field at `field_index`, if there is one.
    pub fn get_active_field(&self, field_index: usize) -> (r: Option<&TextInputState>)
        ensures
            field_index < self.fields@.len() ==> r == Some(&self.fields@[field_index as int]),
            field_index >= self.fields@.len() ==> r is None,
    {
        if field_index < self.fields.len() {
            Some(&self.fields[field_index])
        } else {
            None
        }
    }

    pub fn start_editing(&mut self)
        ensures
            final(self).editing,
            final(self).fields == old(self).fields,
            final(self).active_field == old(self).active_field,
    {
        self.editing = true;
    }

    pub fn stop_editing(&mut self)
        ensures
            !final(self).editing,
            final(self).fields == old(self).fields,
            final(self).active_field == old(self).active_field,
    {
        self.editing = false;
    }

    pub fn is_editing(&self) -> (b: bool)
        ensures
            b == self.editing,
    {
        self.editing
    }

    /// Empties every field and leaves editing mode.
    pub fn clear_all(&mut self)
        ensures
            final(self).fields@.len() == old(self).fields@.len(),
            forall|i: int|
                0 <= i < final(self).fields@.len() ==> (#[trigger] final(self).fields@[i]).value@
                    == Seq::<char>::empty() && final(self).fields@[i].cursor_position == 0,
            final(self).active_field == old(self).active_field,
            !final(self).editing,
    {
        let n = self.fields.len();
        let mut i: usize = 0;
        while i < n
            invariant
                n == self.fields@.len(),
                n == old(self).fields@.len(),
                i <= n,
                self.active_field == old(self).active_field,
                forall|j: int|
                    0 <= j < i ==> (#[trigger] self.fields@[j]).value@ == Seq::<char>::empty()
                        && self.fields@[j].cursor_position == 0,
            decreases n - i,
        {
            self.fields[i].clear();
            i += 1;
        }
        self.editing = false;
    }
}

/// Typing a character and then pressing Backspace gives back the text and
/// cursor that were there before.
pub proof fn lemma_enter_then_delete(s: Seq<char>, c: int, ch: char)
    requires
        enter_ok(s, c),
    ensures
        delete_ok(after_enter(s, c, ch).0, after_enter(s, c, ch).1),
        after_delete(after_enter(s, c, ch).0, after_enter(s, c, ch).1) == (s, c),
{
    let k = char_at_byte(s, c);
    lemma_char_index_at_sound(s, c);
    let t = s.insert(k, ch);
    assert(t.take(k) =~= s.take(k));
    lemma_char_index_at_complete(t, k);
    assert(t =~= s.take(k) + seq![ch] + s.skip(k));
    lemma_byte_len_append(s.take(k) + seq![ch], s.skip(k));
    lemma_byte_len_append(s.take(k), seq![ch]);
    lemma_byte_len_single(ch);
    lemma_char_width(ch);
    lemma_byte_len_nonneg(s.skip(k));
    assert(t.remove(k) =~= s);
}

/// Moving the cursor left and then right returns it to where it was, when
/// it was inside the text and not at its start.
pub proof fn lemma_left_then_right(s: Seq<char>, c: int)
    requires
        0 < c <= byte_len(s),
    ensures
        after_right(s, after_left(c)) == c,
{
}

/// Every key keeps a cursor that lies within the text within the new text.
pub proof fn lemma_key_keeps_cursor_in_text(s: Seq<char>, c: int, key: KeyEvent)
    requires
        0 <= c <= byte_len(s),
        key_ok(s, c, key),
    ensures
        0 <= key_step(s, c, key).1 <= byte_len(key_step(s, c, key).0),
{
    lemma_byte_len_nonneg(s);
    match key.code {
        KeyCode::Char(ch) => {
            if key.modifiers.control {
                if ch == 'u' {
                    lemma_byte_len_nonneg(s.skip(char_at_byte(s, c)));
                } else if ch == 'k' {
                    if c < byte_len(s) {
                        lemma_char_index_at_sound(s, c);
                    }
                } else if ch == 'w' {
                    let st = word_delete_start(s, c);
                    lemma_word_delete_start_bounds(s, c);
                    lemma_char_index_at_sound(s, st);
                    lemma_byte_len_append(
                        s.take(char_at_byte(s, st)),
                        s.skip(char_at_byte(s, c)),
                    );
                    lemma_byte_len_nonneg(s.skip(char_at_byte(s, c)));
                }
            } else {
                lemma_enter_len(s, c, ch);
            }
        },
        KeyCode::Backspace => {
            if c > 0 {
                lemma_remove_len(s, c - 1);
            }
        },
        KeyCode::Delete => {
            if c < byte_len(s) {
                lemma_remove_len(s, c);
            }
        },
        KeyCode::Left => {
            if key.modifiers.control {
                lemma_word_left_bounds(s, c);
            }
        },
        KeyCode::Right => {
            if key.modifiers.control {
                lemma_word_right_bounds(s, c, byte_len(s));
            }
        },
        _ => {},
    }
}

proof fn lemma_enter_len(s: Seq<char>, c: int, ch: char)
    requires
        enter_ok(s, c),
    ensures
        byte_len(after_enter(s, c, ch).0) == byte_len(s) + char_width(ch),
        after_enter(s, c, ch).1 <= byte_len(after_enter(s, c, ch).0),
{
    let k = char_at_byte(s, c);
    lemma_char_index_at_sound(s, c);
    let t = s.insert(k, ch);
    assert(t =~= s.take(k) + seq![ch] + s.skip(k));
    assert(s =~= s.take(k) + s.skip(k));
    lemma_byte_len_append(s.take(k), s.skip(k));
    lemma_byte_len_append(s.take(k) + seq![ch], s.skip(k));
    lemma_byte_len_append(s.take(k), seq![ch]);
    lemma_byte_len_single(ch);
    lemma_char_width(ch);
    lemma_byte_len_nonneg(s.skip(k));
}

proof fn lemma_remove_len(s: Seq<char>, b: int)
    requires
        on_boundary(s, b),
        b < byte_len(s),
    ensures
        0 <= char_at_byte(s, b) < s.len(),
        byte_len(s.remove(char_at_byte(s, b))) == byte_len(s) - char_width(s[char_at_byte(s, b)]),
        b <= byte_len(s.remove(char_at_byte(s, b))),
{
    let k = char_at_byte(s, b);
    lemma_char_index_at_sound(s, b);
    if k == s.len() {
        assert(s.take(k) =~= s);
    }
    assert(s =~= s.take(k) + seq![s[k]] + s.skip(k + 1));
    assert(s.remove(k) =~= s.take(k) + s.skip(k + 1));
    lemma_byte_len_append(s.take(k) + seq![s[k]], s.skip(k + 1));
    lemma_byte_len_append(s.take(k), seq![s[k]]);
    lemma_byte_len_append(s.take(k), s.skip(k + 1));
    lemma_byte_len_single(s[k]);
    lemma_byte_len_nonneg(s.skip(k + 1));
}

proof fn lemma_word_left_bounds(s: Seq<char>, p: int)
    requires
        p >= 0,
    ensures
        0 <= word_left_pos(s, p) <= p,
    decreases p,
{
    if p > 0 && !space_at(s, p - 1) {
        lemma_word_left_bounds(s, p - 1);
    }
}

proof fn lemma_word_right_bounds(s: Seq<char>, p: int, end: int)
    requires
        p <= end,
    ensures
        p <= word_right_pos(s, p, end) <= end,
    decreases end - p,
{
    if p < end && !space_at(s, p) {
        lemma_word_right_bounds(s, p + 1, end);
    }
}

proof fn lemma_word_delete_start_bounds(s: Seq<char>, p: int)
    requires
        p >= 0,
    ensures
        0 <= word_delete_start(s, p) <= p,
{
    lemma_word_start_back_bounds(s, p);
    lemma_space_start_back_bounds(s, word_start_back(s, p));
}

proof fn lemma_word_start_back_bounds(s: Seq<char>, p: int)
    requires
        p >= 0,
    ensures
        0 <= word_start_back(s, p) <= p,
    decreases p,
{
    if p > 0 && !space_at(s, p - 1) {
        lemma_word_start_back_bounds(s, p - 1);
    }
}

proof fn lemma_space_start_back_bounds(s: Seq<char>, p: int)
    requires
        p >= 0,
    ensures
        0 <= space_start_back(s, p) <= p,
    decreases p,
{
    if p > 0 && space_at(s, p - 1) {
        lemma_space_start_back_bounds(s, p - 1);
    }
}

} // verus!
