//! Styled text as the widgets lay it out: runs of text with a colour and
//! emphasis, grouped into lines. The terminal front end draws them.
use vstd::prelude::*;

use crate::text::string_of;

verus! {

/// A foreground colour.
#[derive(Clone, Copy, Debug, PartialEq, Eq, Structural)]
pub enum Tone {
    /// The terminal's own colour.
    Plain,
    White,
    Gray,
    DarkGray,
    Red,
    Green,
    Yellow,
    Blue,
    Cyan,
    Magenta,
}

/// Colour and emphasis of a run of text.
#[derive(Clone, Copy, Debug, PartialEq, Eq, Structural)]
pub struct Look {
    pub tone: Tone,
    pub bold: bool,
    pub italic: bool,
}

/// A run of text drawn with one look.
#[derive(Debug)]
pub struct StyledSpan {
    pub text: String,
    pub look: Look,
}

/// A line of runs.
#[derive(Debug)]
pub struct StyledLine {
    pub spans: Vec<StyledSpan>,
}

/// `tone` without emphasis.
pub open spec fn plain_look(tone: Tone) -> Look {
    Look { tone, bold: false, italic: false }
}

/// `tone` in bold.
pub open spec fn bold_look(tone: Tone) -> Look {
    Look { tone, bold: true, italic: false }
}

/// `tone` in italics.
pub open spec fn italic_look(tone: Tone) -> Look {
    Look { tone, bold: false, italic: true }
}

/// Text and look of a span.
pub open spec fn span_view(s: StyledSpan) -> (Seq<char>, Look) {
    (s.text@, s.look)
}

/// Texts and looks of a line's spans.
pub open spec fn line_view(l: StyledLine) -> Seq<(Seq<char>, Look)> {
    l.spans@.map_values(|s: StyledSpan| span_view(s))
}

/// Texts and looks of each line.
pub open spec fn lines_view(v: Seq<StyledLine>) -> Seq<Seq<(Seq<char>, Look)>> {
    v.map_values(|l: StyledLine| line_view(l))
}

impl Look {
    pub fn plain(tone: Tone) -> (l: Look)
        ensures
            l == plain_look(tone),
    {
        Look { tone, bold: false, italic: false }
    }

    pub fn bold(tone: Tone) -> (l: Look)
        ensures
            l == bold_look(tone),
    {
        Look { tone, bold: true, italic: false }
    }

    pub fn italic(tone: Tone) -> (l: Look)
        ensures
            l == italic_look(tone),
    {
        Look { tone, bold: false, italic: true }
    }
}

impl StyledSpan {
    pub fn new(text: String, look: Look) -> (s: Self)
        ensures
            s.text == text,
            s.look == look,
    {
        StyledSpan { text, look }
    }

    pub fn from_str(text: &str, look: Look) -> (s: Self)
        ensures
            s.text@ == text@,
            s.look == look,
    {
        StyledSpan { text: string_of(text), look }
    }
}

impl StyledLine {
    /// A line of one span.
    pub fn single(span: StyledSpan) -> (l: Self)
        ensures
            line_view(l) == seq![span_view(span)],
    {
        let mut spans: Vec<StyledSpan> = Vec::new();
        spans.push(span);
        let l = StyledLine { spans };
        assert(line_view(l) =~= seq![span_view(span)]);
        l
    }

    /// Appends a span.
    pub fn push(&mut self, span: StyledSpan)
        ensures
            line_view(*final(self)) == line_view(*old(self)).push(span_view(span)),
    {
        let ghost before = self.spans@;
        self.spans.push(span);
        assert(line_view(*self) =~= line_view(*old(self)).push(span_view(span)));
    }

    /// Puts a span in front.
    pub fn prepend(&mut self, span: StyledSpan)
        ensures
            line_view(*final(self)) == seq![span_view(span)] + line_view(*old(self)),
    {
        self.spans.insert(0, span);
        assert(line_view(*self) =~= seq![span_view(span)] + line_view(*old(self)));
    }
}

/// Appends a line.
pub fn push_line(lines: &mut Vec<StyledLine>, line: StyledLine)
    ensures
        lines_view(final(lines)@) == lines_view(old(lines)@).push(line_view(line)),
{
    lines.push(line);
    assert(lines_view(lines@) =~= lines_view(old(lines)@).push(line_view(line)));
}


} // verus!
