//! A labelled single-line input box: what it shows for its value, cursor,
//! placeholder and masking, as styled text segments.
use vstd::prelude::*;

use crate::text::{byte_len, str_byte_len, char_at_or_space, char_index_at, char_or_space, on_boundary, repeat_star, stars, str_slice, string_of, string_push};

pub mod basic;
pub mod input_handler;

verus! {

/// How a segment of an input box is drawn.
#[derive(Clone, Copy, Debug, PartialEq, Eq, Structural)]
pub enum SegmentStyle {
    /// Dimmed italic hint shown in an empty box.
    Placeholder,
    /// The value itself.
    Value,
    /// The block caret drawn at the cursor.
    Caret,
    /// The character under the cursor, drawn inverted.
    UnderCursor,
}

/// A run of text drawn in one style.
#[derive(Clone, Debug)]
pub struct Segment {
    pub text: String,
    pub style: SegmentStyle,
}

/// The border colour of an input box.
#[derive(Clone, Copy, Debug, PartialEq, Eq, Structural)]
pub enum BorderStyle {
    /// Yellow: focused and being edited.
    Editing,
    /// Cyan: focused.
    Focused,
    /// Gray.
    Normal,
}

/// Abstract segment: text and style.
pub open spec fn seg(t: Seq<char>, st: SegmentStyle) -> (Seq<char>, SegmentStyle) {
    (t, st)
}

/// The caret glyph.
pub open spec fn caret() -> Seq<char> {
    seq!['▌']
}

pub open spec fn segments_view(v: Seq<Segment>) -> Seq<(Seq<char>, SegmentStyle)> {
    Seq::new(v.len(), |i: int| (v[i].text@, v[i].style))
}

pub struct TextInput<'a> {
    pub value: &'a str,
    pub cursor_position: usize,
    pub is_focused: bool,
    pub is_editing: bool,
    pub title: &'a str,
    pub placeholder: &'a str,
    pub is_password: bool,
}

impl<'a> TextInput<'a> {
    /// The value as shown: asterisks for a non-empty password, else the value.
    pub open spec fn shown(&self) -> Seq<char> {
        if self.is_password && self.value@.len() > 0 {
            stars(byte_len(self.value@) as nat)
        } else {
            self.value@
        }
    }

    /// What the box shows.
    pub open spec fn view_segments(&self) -> Seq<(Seq<char>, SegmentStyle)> {
        let v = self.value@;
        let c = self.cursor_position as int;
        if v.len() == 0 && !self.is_editing {
            seq![seg(self.placeholder@, SegmentStyle::Placeholder)]
        } else if !self.is_editing || !self.is_focused {
            seq![seg(self.shown(), SegmentStyle::Value)]
        } else if c == 0 {
            if v.len() > 0 {
                seq![seg(caret(), SegmentStyle::Caret), seg(self.shown(), SegmentStyle::Value)]
            } else {
                seq![seg(caret(), SegmentStyle::Caret)]
            }
        } else if c >= byte_len(v) {
            if v.len() > 0 {
                seq![seg(self.shown(), SegmentStyle::Value), seg(caret(), SegmentStyle::Caret)]
            } else {
                seq![seg(caret(), SegmentStyle::Caret)]
            }
        } else if !self.is_password {
            seq![
                seg(v.take(char_index_at(v, c)->0), SegmentStyle::Value),
                seg(seq![char_or_space(v, c)], SegmentStyle::UnderCursor),
                seg(v.skip(char_index_at(v, c + 1)->0), SegmentStyle::Value),
            ]
        } else {
            seq![seg(stars(byte_len(self.value@) as nat), SegmentStyle::Value), seg(caret(), SegmentStyle::Caret)]
        }
    }

    /// Drawing the box does not slice the value off a character boundary:
    /// with a visible cursor inside a plain value, the bytes on both sides
    /// of the cursor byte start characters.
    pub open spec fn renderable(&self) -> bool {
        let c = self.cursor_position as int;
        (self.is_editing && self.is_focused && 0 < c < byte_len(self.value@) && !self.is_password)
            ==> (on_boundary(self.value@, c) && on_boundary(self.value@, c + 1))
    }

    pub fn new(value: &'a str, cursor_position: usize, title: &'a str, placeholder: &'a str) -> (r: Self)
        ensures
            r.value == value,
            r.cursor_position == cursor_position,
            r.title == title,
            r.placeholder == placeholder,
            !r.is_focused,
            !r.is_editing,
            !r.is_password,
    {
        TextInput {
            value,
            cursor_position,
            is_focused: false,
            is_editing: false,
            title,
            placeholder,
            is_password: false,
        }
    }

    pub fn focused(self, focused: bool) -> (r: Self)
        ensures
            r == (Self { is_focused: focused, ..self }),
    {
        let mut s = self;
        s.is_focused = focused;
        s
    }

    pub fn editing(self, editing: bool) -> (r: Self)
        ensures
            r == (Self { is_editing: editing, ..self }),
    {
        let mut s = self;
        s.is_editing = editing;
        s
    }

    pub fn password(self, is_password: bool) -> (r: Self)
        ensures
            r == (Self { is_password: is_password, ..self }),
    {
        let mut s = self;
        s.is_password = is_password;
        s
    }

    fn shown_value(&self) -> (r: String)
        ensures
            r@ == self.shown(),
    {
        if self.is_password && !self.value.is_empty() {
            repeat_star(str_byte_len(self.value))
        } else {
            string_of(self.value)
        }
    }

    /// The segments of text the box shows.
    pub fn render_input_text(&self) -> (r: Vec<Segment>)
        requires
            self.renderable(),
        ensures
            segments_view(r@) == self.view_segments(),
    {
        let mut spans: Vec<Segment> = Vec::new();
        if self.value.is_empty() && !self.is_editing {
            // Show placeholder when empty and not editing
            spans.push(Segment { text: string_of(self.placeholder), style: SegmentStyle::Placeholder });
        } else if !self.is_editing || !self.is_focused {
            // Show value without cursor when not editing or not focused
            spans.push(Segment { text: self.shown_value(), style: SegmentStyle::Value });
        } else if self.cursor_position == 0 {
            // Cursor at the beginning
            spans.push(Segment { text: caret_text(), style: SegmentStyle::Caret });
            if !self.value.is_empty() {
                spans.push(Segment { text: self.shown_value(), style: SegmentStyle::Value });
            }
        } else if self.cursor_position >= str_byte_len(self.value) {
            // Cursor at the end
            if !self.value.is_empty() {
                spans.push(Segment { text: self.shown_value(), style: SegmentStyle::Value });
            }
            spans.push(Segment { text: caret_text(), style: SegmentStyle::Caret });
        } else if !self.is_password {
            // Cursor in the middle (only for non-password fields)
            let len = str_byte_len(self.value);
            let before_cursor = string_of(str_slice(self.value, 0, self.cursor_position));
            let mut at_cursor = String::new();
            let at_cursor_char = char_at_or_space(&string_of(self.value), self.cursor_position);
            string_push(&mut at_cursor, at_cursor_char);
            proof {
                crate::text::lemma_end_is_boundary(self.value@);
            }
            let after_cursor = string_of(str_slice(self.value, self.cursor_position + 1, len));
            spans.push(Segment { text: before_cursor, style: SegmentStyle::Value });
            spans.push(Segment { text: at_cursor, style: SegmentStyle::UnderCursor });
            spans.push(Segment { text: after_cursor, style: SegmentStyle::Value });
        } else {
            // For password fields, just show masked text with cursor at end
            spans.push(Segment { text: repeat_star(str_byte_len(self.value)), style: SegmentStyle::Value });
            spans.push(Segment { text: caret_text(), style: SegmentStyle::Caret });
        }
        proof {
            assert(segments_view(spans@) =~= self.view_segments());
        }
        spans
    }

    pub fn get_border_style(&self) -> (r: BorderStyle)
        ensures
            r == if self.is_editing && self.is_focused {
                BorderStyle::Editing
            } else if self.is_focused {
                BorderStyle::Focused
            } else {
                BorderStyle::Normal
            },
    {
        if self.is_editing && self.is_focused {
            BorderStyle::Editing
        } else if self.is_focused {
            BorderStyle::Focused
        } else {
            BorderStyle::Normal
        }
    }

    /// Create a basic text input that's ready for editing
    pub fn editable(value: &'a str, cursor_position: usize, title: &'a str, placeholder: &'a str) -> (r: Self)
        ensures
            r.value == value,
            r.cursor_position == cursor_position,
            r.title == title,
            r.placeholder == placeholder,
            r.is_focused,
            r.is_editing,
            !r.is_password,
    {
        Self::new(value, cursor_position, title, placeholder).focused(true).editing(true)
    }

    /// Create a password input field
    pub fn password_field(value: &'a str, cursor_position: usize, title: &'a str, placeholder: &'a str) -> (r: Self)
        ensures
            r.value == value,
            r.cursor_position == cursor_position,
            r.title == title,
            r.placeholder == placeholder,
            r.is_focused,
            r.is_editing,
            r.is_password,
    {
        Self::new(value, cursor_position, title, placeholder).focused(true).editing(true).password(true)
    }

    /// Create a readonly display field
    pub fn readonly(value: &'a str, title: &'a str) -> (r: Self)
        ensures
            r.value == value,
            r.cursor_position == 0,
            r.title == title,
            r.placeholder@ == Seq::<char>::empty(),
            !r.is_focused,
            !r.is_editing,
            !r.is_password,
    {
        proof {
            reveal_strlit("");
        }
        Self::new(value, 0, title, "").focused(false).editing(false)
    }
}

fn caret_text() -> (r: String)
    ensures
        r@ == caret(),
{
    let mut r = String::new();
    string_push(&mut r, '▌');
    proof {
        assert(r@ =~= caret());
    }
    r
}

} // verus!
