//! The basic input box: a value with the character under the cursor
//! highlighted, optionally masked.
use vstd::prelude::*;

use crate::text::{byte_len, repeat_star, stars, str_byte_len, string_of, string_push};
use crate::ui::text_input::{seg, segments_view, Segment, SegmentStyle};

verus! {

/// Border of the basic box: yellow when focused, gray otherwise.
#[derive(Clone, Copy, Debug, PartialEq, Eq, Structural)]
pub enum BasicBorder {
    Focused,
    Unfocused,
}

pub struct TextInput<'a> {
    pub value: &'a str,
    pub cursor_position: usize,
    pub is_focused: bool,
    pub title: &'a str,
    pub placeholder: &'a str,
    pub mask_input: bool,
}

impl<'a> TextInput<'a> {
    /// The value as drawn: one asterisk per byte when masked.
    pub open spec fn drawn(&self) -> Seq<char> {
        if self.mask_input {
            stars(byte_len(self.value@) as nat)
        } else {
            self.value@
        }
    }

    /// What the box shows: the placeholder for an empty value, else the
    /// drawn value split around the character at the cursor (a space past
    /// the end), which is highlighted.
    pub open spec fn view_segments(&self) -> Seq<(Seq<char>, SegmentStyle)> {
        let d = self.drawn();
        let c = self.cursor_position as int;
        if self.value@.len() == 0 {
            seq![seg(self.placeholder@, SegmentStyle::Placeholder)]
        } else {
            seq![
                seg(if c <= d.len() { d.take(c) } else { d }, SegmentStyle::Value),
                seg(seq![if c < d.len() { d[c] } else { ' ' }], SegmentStyle::UnderCursor),
                seg(if c + 1 <= d.len() { d.skip(c + 1) } else { Seq::empty() }, SegmentStyle::Value),
            ]
        }
    }

    pub fn new(
        value: &'a str,
        cursor_position: usize,
        title: &'a str,
        placeholder: &'a str,
        mask_input: bool,
        is_focused: bool,
    ) -> (r: Self)
        ensures
            r.value == value,
            r.cursor_position == cursor_position,
            r.title == title,
            r.placeholder == placeholder,
            r.mask_input == mask_input,
            r.is_focused == is_focused,
    {
        TextInput { value, cursor_position, is_focused, title, placeholder, mask_input }
    }

    /// The segments of text the box shows.
    pub fn render_text(&self) -> (r: Vec<Segment>)
        ensures
            segments_view(r@) == self.view_segments(),
    {
        let value = if self.mask_input {
            repeat_star(str_byte_len(self.value))
        } else {
            string_of(self.value)
        };
        let mut spans: Vec<Segment> = Vec::new();
        if self.value.is_empty() {
            spans.push(Segment { text: string_of(self.placeholder), style: SegmentStyle::Placeholder });
        } else {
            let d = value.as_str();
            let n = d.unicode_len();
            let c = self.cursor_position;
            let mut before_cursor = String::new();
            let mut i: usize = 0;
            while i < n && i < c
                invariant
                    n == d@.len(),
                    i <= n,
                    i <= c,
                    before_cursor@ == d@.take(i as int),
                decreases n - i,
            {
                string_push(&mut before_cursor, d.get_char(i));
                i += 1;
                assert(before_cursor@ =~= d@.take(i as int));
            }
            let mut at_cursor = String::new();
            string_push(&mut at_cursor, if c < n { d.get_char(c) } else { ' ' });
            let mut after_cursor = String::new();
            if c < n {
                let mut j: usize = c + 1;
                while j < n
                    invariant
                        n == d@.len(),
                        c < n,
                        c + 1 <= j <= n,
                        after_cursor@ == d@.subrange(c + 1, j as int),
                    decreases n - j,
                {
                    string_push(&mut after_cursor, d.get_char(j));
                    j += 1;
                    assert(after_cursor@ =~= d@.subrange(c + 1, j as int));
                }
            }
            proof {
                if c as int <= n as int {
                    assert(before_cursor@ =~= d@.take(c as int));
                } else {
                    assert(before_cursor@ =~= d@);
                }
                if (c as int) + 1 > n as int {
                    assert(after_cursor@ =~= Seq::<char>::empty());
                }
            }
            spans.push(Segment { text: before_cursor, style: SegmentStyle::Value });
            spans.push(Segment { text: at_cursor, style: SegmentStyle::UnderCursor });
            spans.push(Segment { text: after_cursor, style: SegmentStyle::Value });
        }
        proof {
            assert(segments_view(spans@) =~= self.view_segments());
        }
        spans
    }

    pub fn get_border_style(&self) -> (r: BasicBorder)
        ensures
            r == if self.is_focused {
                BasicBorder::Focused
            } else {
                BasicBorder::Unfocused
            },
    {
        if self.is_focused {
            BasicBorder::Focused
        } else {
            BasicBorder::Unfocused
        }
    }
}

} // verus!
