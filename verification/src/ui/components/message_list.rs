//! The message list: scrolling state and the text of each entry.
use vstd::prelude::*;

use crate::clock::{
    in_clock_range, lemma_time_text_nonempty, local_day_number, local_time_text, now_millis,
    time_text, TimePattern,
};
use crate::data::models::{presence_icon_text, Message, MessageContent};
use crate::text::{decimal, push_decimal, string_of};
use crate::ui::styled::{
    bold_look, italic_look, line_view, lines_view, plain_look, push_line, Look, StyledLine,
    StyledSpan, Tone,
};
use crate::ui::wrap::{views, wrap_text, wrapped};

verus! {

/// Largest scroll offset for `n` messages with `visible` lines on screen
/// (`n.saturating_sub(visible)`).
pub open spec fn max_scroll(n: int, visible: int) -> int {
    if n > visible {
        n - visible
    } else {
        0
    }
}


pub struct MessageList<'a> {
    pub messages: &'a [Message],
    pub current_user_id: Option<&'a str>,
    pub show_timestamps: bool,
    pub show_reactions: bool,
    pub auto_scroll: bool,
}

/// The entry's body lines, and, for a file with a known size, that size:
/// its text, ` (<size>)`, belongs in the last span of the first line.
#[derive(Debug)]
pub struct MessageContentView {
    pub lines: Vec<StyledLine>,
    pub file_size: Option<u64>,
}

/// An entry of the list, and, for a file with a known size, the line whose
/// last span is to read ` (<size>)` and the size.
#[derive(Debug)]
pub struct MessageItemView {
    pub lines: Vec<StyledLine>,
    pub file_size: Option<(usize, u64)>,
}

/// What the list shows: its title, and its entries, or a notice when there
/// is no message.
#[derive(Debug)]
pub struct MessageListView {
    pub title: String,
    pub empty_notice: Option<&'static str>,
    pub items: Vec<MessageItemView>,
}

/// The 32-bit hash of a sender id, `h * 31 + byte` over its UTF-8 bytes
/// with wrapping arithmetic.
pub open spec fn sender_hash(b: Seq<u8>) -> u32
    decreases b.len(),
{
    if b.len() == 0 {
        0
    } else {
        vstd::wrapping::u32_specs::wrapping_add(
            vstd::wrapping::u32_specs::wrapping_mul(sender_hash(b.drop_last()), 31),
            b.last() as u32,
        )
    }
}

/// The colour given to a sender by the hash of its id.
pub open spec fn hash_tone(h: u32) -> Tone {
    let k = h % 6;
    if k == 0 {
        Tone::Cyan
    } else if k == 1 {
        Tone::Magenta
    } else if k == 2 {
        Tone::Yellow
    } else if k == 3 {
        Tone::Blue
    } else if k == 4 {
        Tone::Red
    } else {
        Tone::White
    }
}

/// `n` written with at least two digits (`{:02}`).
pub open spec fn two_digits(n: nat) -> Seq<char> {
    if n < 10 {
        seq!['0'] + decimal(n)
    } else {
        decimal(n)
    }
}

/// A duration in seconds as `h:mm:ss`, or `m:ss` under an hour.
pub open spec fn duration_text(s: nat) -> Seq<char> {
    let h = s / 3600;
    let m = (s % 3600) / 60;
    let x = s % 60;
    if h > 0 {
        decimal(h) + seq![':'] + two_digits(m) + seq![':'] + two_digits(x)
    } else {
        decimal(m) + seq![':'] + two_digits(x)
    }
}

/// How a message time is written, from the local day numbers of today
/// and of the message: the time of day for today, with the weekday within
/// a week, with the date otherwise.
pub open spec fn time_pattern_for(today: int, day: int) -> TimePattern {
    if today == day {
        TimePattern::HourMinute
    } else if today - day < 7 {
        TimePattern::WeekdayHourMinute
    } else {
        TimePattern::MonthDayHourMinute
    }
}

/// Lines of one span each, `text` wrapped to `width`, in `look`.
pub open spec fn wrapped_lines(text: Seq<char>, width: int, look: Look) -> Seq<Seq<(Seq<char>, Look)>> {
    wrapped(text, width).map_values(|l: Seq<char>| seq![(l, look)])
}

/// ` (text)` when there is a text, else nothing.
pub open spec fn in_parens(t: Option<Seq<char>>) -> Seq<char> {
    match t {
        Some(x) => " ("@ + x + ")"@,
        None => Seq::empty(),
    }
}

/// Body lines of a message for a list `area_width` columns wide (text
/// wraps to four columns less). A file's size is left out (see
/// `MessageContentView`).
pub open spec fn content_lines(c: MessageContent, area_width: int) -> Seq<Seq<(Seq<char>, Look)>> {
    let w = if area_width >= 4 {
        area_width - 4
    } else {
        0
    };
    match c {
        MessageContent::Text { body } => wrapped_lines(body@, w, plain_look(Tone::White)),
        MessageContent::Emote { body } => wrapped_lines("* "@ + body@, w, italic_look(Tone::Yellow)),
        MessageContent::Notice { body } => wrapped_lines("ℹ️ "@ + body@, w, italic_look(Tone::Blue)),
        MessageContent::System { message } => wrapped_lines(
            "🔧 "@ + message@,
            w,
            italic_look(Tone::DarkGray),
        ),
        MessageContent::Image { body, .. } => seq![
            seq![("📷 "@, plain_look(Tone::Yellow)), (body@, plain_look(Tone::White))],
        ],
        MessageContent::File { filename, .. } => seq![
            seq![
                ("📎 "@, plain_look(Tone::Yellow)),
                (filename@, plain_look(Tone::White)),
                (Seq::empty(), plain_look(Tone::DarkGray)),
            ],
        ],
        MessageContent::Audio { body, duration, .. } => seq![
            seq![
                ("🎵 "@, plain_look(Tone::Yellow)),
                (body@, plain_look(Tone::White)),
                (
                    in_parens(
                        match duration {
                            Some(d) => Some(duration_text(d as nat)),
                            None => None,
                        },
                    ),
                    plain_look(Tone::DarkGray),
                ),
            ],
        ],
        MessageContent::Video { body, duration, .. } => seq![
            seq![
                ("🎥 "@, plain_look(Tone::Yellow)),
                (body@, plain_look(Tone::White)),
                (
                    in_parens(
                        match duration {
                            Some(d) => Some(duration_text(d as nat)),
                            None => None,
                        },
                    ),
                    plain_look(Tone::DarkGray),
                ),
            ],
        ],
    }
}

/// The size of a file message, when known.
pub open spec fn file_size_of(c: MessageContent) -> Option<u64> {
    match c {
        MessageContent::File { size, .. } => size,
        _ => None,
    }
}

/// `lines` each led by a two-space indent.
pub open spec fn indented(lines: Seq<Seq<(Seq<char>, Look)>>) -> Seq<Seq<(Seq<char>, Look)>> {
    lines.map_values(|l: Seq<(Seq<char>, Look)>| seq![("  "@, plain_look(Tone::Plain))] + l)
}

/// One line of one span.
fn one_span_line(text: String, look: Look) -> (l: StyledLine)
    ensures
        line_view(l) == seq![(text@, look)],
{
    StyledLine::single(StyledSpan::new(text, look))
}

/// `text` wrapped to `width`, one span per line in `look`.
fn wrapped_styled(text: &str, width: usize, look: Look) -> (r: Vec<StyledLine>)
    ensures
        lines_view(r@) == wrapped_lines(text@, width as int, look),
{
    let parts = wrap_text(text, width);
    let ghost ps = views(parts@);
    let mut out: Vec<StyledLine> = Vec::new();
    let mut i: usize = 0;
    while i < parts.len()
        invariant
            ps == views(parts@),
            ps == wrapped(text@, width as int),
            i <= parts@.len(),
            lines_view(out@) == ps.take(i as int).map_values(|l: Seq<char>| seq![(l, look)]),
        decreases parts@.len() - i,
    {
        let line = one_span_line(string_of(parts[i].as_str()), look);
        push_line(&mut out, line);
        i += 1;
        assert(ps.take(i as int).map_values(|l: Seq<char>| seq![(l, look)]) =~= ps.take(
            (i - 1) as int,
        ).map_values(|l: Seq<char>| seq![(l, look)]).push(seq![(ps[i - 1], look)]));
    }
    assert(ps.take(parts@.len() as int) =~= ps);
    out
}

/// `prefix` followed by `body`.
fn joined(prefix: &str, body: &str) -> (r: String)
    ensures
        r@ == prefix@ + body@,
{
    let mut t = string_of(prefix);
    t.append(body);
    t
}

/// A two-digit rendering of `n < 100`.
fn push_two_digits(s: &mut String, n: u64)
    requires
        n < 100,
    ensures
        final(s)@ == old(s)@ + two_digits(n as nat),
{
    if n < 10 {
        crate::text::string_push(s, '0');
        push_decimal(s, n);
        assert(old(s)@.push('0') + decimal(n as nat) =~= old(s)@ + (seq!['0'] + decimal(n as nat)));
    } else {
        push_decimal(s, n);
    }
}

/// ` (detail)` for a known duration, else the empty text.
fn duration_suffix(duration: Option<u64>) -> (r: String)
    ensures
        r@ == in_parens(
            match duration {
                Some(d) => Some(duration_text(d as nat)),
                None => None,
            },
        ),
{
    match duration {
        Some(d) => {
            let mut t = string_of(" (");
            let ghost before = t@;
            let body = format_duration_text(d);
            t.append(body.as_str());
            t.append(")");
            t
        },
        None => String::new(),
    }
}

/// `seconds` as `h:mm:ss`, or `m:ss` under an hour.
fn format_duration_text(seconds: u64) -> (r: String)
    ensures
        r@ == duration_text(seconds as nat),
{
    let hours = seconds / 3600;
    let minutes = (seconds % 3600) / 60;
    let secs = seconds % 60;
    let mut t = String::new();
    if hours > 0 {
        push_decimal(&mut t, hours);
        crate::text::string_push(&mut t, ':');
        push_two_digits(&mut t, minutes);
        crate::text::string_push(&mut t, ':');
        push_two_digits(&mut t, secs);
        assert(t@ =~= decimal(hours as nat) + seq![':'] + two_digits(minutes as nat) + seq![':']
            + two_digits(secs as nat));
    } else {
        push_decimal(&mut t, minutes);
        crate::text::string_push(&mut t, ':');
        push_two_digits(&mut t, secs);
        assert(t@ =~= decimal(minutes as nat) + seq![':'] + two_digits(secs as nat));
    }
    t
}

/// The time pattern for a message on local day `day` seen on local day
/// `today`.
pub fn choose_time_pattern(today: i32, day: i32) -> (p: TimePattern)
    ensures
        p == time_pattern_for(today as int, day as int),
{
    if today == day {
        TimePattern::HourMinute
    } else if (today as i64) - (day as i64) < 7 {
        TimePattern::WeekdayHourMinute
    } else {
        TimePattern::MonthDayHourMinute
    }
}

impl<'a> MessageList<'a> {
    pub fn new(messages: &'a [Message]) -> (r: Self)
        ensures
            r.messages == messages,
            r.current_user_id is None,
            r.show_timestamps,
            r.show_reactions,
            r.auto_scroll,
    {
        MessageList {
            messages,
            current_user_id: None,
            show_timestamps: true,
            show_reactions: true,
            auto_scroll: true,
        }
    }

    pub fn current_user(self, user_id: Option<&'a str>) -> (r: Self)
        ensures
            r == (Self { current_user_id: user_id, ..self }),
    {
        let mut s = self;
        s.current_user_id = user_id;
        s
    }

    pub fn show_timestamps(self, show: bool) -> (r: Self)
        ensures
            r == (Self { show_timestamps: show, ..self }),
    {
        let mut s = self;
        s.show_timestamps = show;
        s
    }

    pub fn show_reactions(self, show: bool) -> (r: Self)
        ensures
            r == (Self { show_reactions: show, ..self }),
    {
        let mut s = self;
        s.show_reactions = show;
        s
    }

    pub fn auto_scroll(self, auto_scroll: bool) -> (r: Self)
        ensures
            r == (Self { auto_scroll: auto_scroll, ..self }),
    {
        let mut s = self;
        s.auto_scroll = auto_scroll;
        s
    }

    /// The message was sent by the signed-in user.
    pub open spec fn owns(&self, m: Message) -> bool {
        self.current_user_id matches Some(id) && m.sender.user_id@ == id@
    }

    /// The sender as shown: `You` for the signed-in user.
    pub open spec fn sender_text(&self, m: Message) -> Seq<char> {
        if self.owns(m) {
            "You"@
        } else {
            m.sender.shown_name()
        }
    }

    /// The sender's colour: green for the signed-in user, else by the hash
    /// of the sender id.
    pub open spec fn sender_tone(&self, m: Message) -> Tone {
        if self.owns(m) {
            Tone::Green
        } else {
            hash_tone(sender_hash(vstd::utf8::encode_utf8(m.sender.user_id@)))
        }
    }

    /// The first line of an entry, with `time` as the message time.
    pub open spec fn header_line(&self, m: Message, time: Seq<char>) -> Seq<(Seq<char>, Look)> {
        let base = seq![
            (self.sender_text(m), bold_look(self.sender_tone(m))),
            (
                if self.show_timestamps {
                    " ["@ + time + "]"@
                } else {
                    Seq::empty()
                },
                plain_look(Tone::DarkGray),
            ),
            (
                if m.is_edited {
                    " (edited)"@
                } else {
                    Seq::empty()
                },
                italic_look(Tone::DarkGray),
            ),
        ];
        if self.owns(m) {
            base
        } else {
            seq![
                (presence_icon_text(m.sender.presence), plain_look(Tone::Green)),
                (" "@, plain_look(Tone::Plain)),
            ] + base
        }
    }

    /// The lines of an entry after its header.
    pub open spec fn entry_body(&self, m: Message, area_width: int) -> Seq<Seq<(Seq<char>, Look)>> {
        let reply = if m.reply_to is Some {
            seq![seq![("  ↳ replying to message"@, italic_look(Tone::DarkGray))]]
        } else {
            Seq::empty()
        };
        let reactions = if self.show_reactions && m.reactions@.len() > 0 {
            seq![seq![("  "@ + m.reactions_text(), plain_look(Tone::Yellow))]]
        } else {
            Seq::empty()
        };
        reply + indented(content_lines(m.content, area_width)) + reactions + seq![
            seq![(Seq::empty(), plain_look(Tone::Plain))],
        ]
    }

    /// `item` is the entry of `m` for a list `area_width` columns wide: a
    /// system message is its body alone; any other has a header (for some
    /// message time text), then its body, and, for a file of known size,
    /// the body's first line is where the size goes.
    pub open spec fn item_matches(&self, item: MessageItemView, m: Message, area_width: int) -> bool {
        if m.content is System {
            &&& lines_view(item.lines@) == content_lines(m.content, area_width)
            &&& item.file_size is None
        } else {
            &&& exists|t: Seq<char>|
                lines_view(item.lines@) == seq![#[trigger] self.header_line(m, t)] + self.entry_body(
                    m,
                    area_width,
                )
            &&& item.file_size == match file_size_of(m.content) {
                Some(size) => Some(((if m.reply_to is Some { 2int } else { 1int }) as usize, size)),
                None => None,
            }
        }
    }

    pub fn is_own_message(&self, message: &Message) -> (b: bool)
        ensures
            b == self.owns(*message),
    {
        match self.current_user_id {
            Some(id) => message.is_from_user(id),
            None => false,
        }
    }

    pub fn format_sender_name(&self, message: &Message) -> (r: String)
        ensures
            r@ == self.sender_text(*message),
    {
        if self.is_own_message(message) {
            string_of("You")
        } else {
            string_of(message.sender.display_name())
        }
    }

    pub fn get_sender_color(&self, message: &Message) -> (t: Tone)
        ensures
            t == self.sender_tone(*message),
    {
        if self.is_own_message(message) {
            return Tone::Green;
        }
        let bytes = message.sender.user_id.as_str().as_bytes();
        let mut hash: u32 = 0;
        let mut i: usize = 0;
        while i < bytes.len()
            invariant
                bytes@ == vstd::utf8::encode_utf8(message.sender.user_id@),
                i <= bytes@.len(),
                hash == sender_hash(bytes@.take(i as int)),
            decreases bytes@.len() - i,
        {
            assert(bytes@.take(i + 1).drop_last() =~= bytes@.take(i as int));
            hash = hash.wrapping_mul(31).wrapping_add(bytes[i] as u32);
            i += 1;
        }
        assert(bytes@.take(bytes@.len() as int) =~= bytes@);
        match hash % 6 {
            0 => Tone::Cyan,
            1 => Tone::Magenta,
            2 => Tone::Yellow,
            3 => Tone::Blue,
            4 => Tone::Red,
            _ => Tone::White,
        }
    }

    pub fn format_duration(&self, seconds: u64) -> (r: String)
        ensures
            r@ == duration_text(seconds as nat),
    {
        format_duration_text(seconds)
    }

    /// The message time in the local time zone, written by how long ago it
    /// was (see `time_pattern_for`): `HH:MM`, `Www HH:MM` or `mm/dd HH:MM`.
    /// Empty only where chrono cannot place the instant, which never
    /// happens inside `in_clock_range`. Which time, and which local days
    /// choose the pattern, depend on the clock and the time zone.
    pub fn format_timestamp(&self, message: &Message) -> (r: String)
        ensures
            r@.len() == 0 || exists|today: int, day: int|
                time_text(#[trigger] time_pattern_for(today, day), r@),
            in_clock_range(message.timestamp as int) ==> r@.len() > 0,
    {
        let now = now_millis();
        let pattern = match (local_day_number(now), local_day_number(message.timestamp)) {
            (Some(today), Some(day)) => choose_time_pattern(today, day),
            _ => TimePattern::MonthDayHourMinute,
        };
        proof {
            assert(time_pattern_for(0, 0) == TimePattern::HourMinute);
            assert(time_pattern_for(1, 0) == TimePattern::WeekdayHourMinute);
            assert(time_pattern_for(7, 0) == TimePattern::MonthDayHourMinute);
        }
        match local_time_text(message.timestamp, pattern) {
            Some(t) => {
                proof {
                    lemma_time_text_nonempty(pattern, t@);
                }
                t
            },
            None => String::new(),
        }
    }

    /// `text` wrapped to `width` bytes (see `wrapped`).
    pub fn wrap_text(&self, text: &str, width: usize) -> (r: Vec<String>)
        ensures
            views(r@) == wrapped(text@, width as int),
    {
        wrap_text(text, width)
    }

    /// The entry of a message (see `item_matches`).
    #[verifier::rlimit(40)]
    #[verifier::spinoff_prover]
    pub fn format_message_item(&self, message: &Message, area_width: u16) -> (r: MessageItemView)
        ensures
            self.item_matches(r, *message, area_width as int),
    {
        if let MessageContent::System { .. } = &message.content {
            let content = self.format_message_content(message, area_width);
            return MessageItemView { lines: content.lines, file_size: None };
        }
        let own = self.is_own_message(message);
        let sender_name = self.format_sender_name(message);
        let sender_color = self.get_sender_color(message);
        let ghost mut time: Seq<char> = Seq::empty();
        let timestamp = if self.show_timestamps {
            let t = self.format_timestamp(message);
            proof {
                time = t@;
            }
            let mut s = string_of(" [");
            s.append(t.as_str());
            s.append("]");
            s
        } else {
            String::new()
        };
        let edited_indicator = if message.is_edited {
            " (edited)"
        } else {
            proof {
                reveal_strlit("");
            }
            ""
        };
        let mut header = StyledLine { spans: Vec::new() };
        assert(line_view(header) =~= Seq::<(Seq<char>, Look)>::empty());
        if !own {
            header.push(StyledSpan::from_str(message.sender.presence_icon(), Look::plain(Tone::Green)));
            header.push(StyledSpan::from_str(" ", Look::plain(Tone::Plain)));
        }
        header.push(StyledSpan::new(sender_name, Look::bold(sender_color)));
        header.push(StyledSpan::new(timestamp, Look::plain(Tone::DarkGray)));
        header.push(StyledSpan::from_str(edited_indicator, Look::italic(Tone::DarkGray)));
        proof {
            let ts_text: Seq<char> = if self.show_timestamps {
                " ["@ + time + "]"@
            } else {
                Seq::empty()
            };
            let ed_text: Seq<char> = if message.is_edited {
                " (edited)"@
            } else {
                Seq::empty()
            };
            assert(timestamp@ == ts_text);
            assert(edited_indicator@ == ed_text);
            assert(sender_name@ == self.sender_text(*message));
            assert(line_view(header) =~= self.header_line(*message, time));
        }
        let mut lines: Vec<StyledLine> = Vec::new();
        push_line(&mut lines, header);
        let ghost head = lines_view(lines@);
        if message.reply_to.is_some() {
            push_line(
                &mut lines,
                StyledLine::single(
                    StyledSpan::from_str("  ↳ replying to message", Look::italic(Tone::DarkGray)),
                ),
            );
        }
        let ghost with_reply = lines_view(lines@);
        let first_content = lines.len();
        let content = self.format_message_content(message, area_width);
        let ghost body = lines_view(content.lines@);
        let mut rest = content.lines;
        let mut k: usize = 0;
        let n = rest.len();
        while rest.len() > 0
            invariant
                body == content_lines(message.content, area_width as int),
                body.len() == n,
                k + rest@.len() == n,
                lines_view(rest@) == body.skip(k as int),
                lines_view(lines@) == with_reply + indented(body.take(k as int)),
            decreases rest@.len(),
        {
            let ghost before = rest@;
            let mut line = rest.remove(0);
            assert(body.skip(k as int)[0] == line_view(line));
            line.prepend(StyledSpan::from_str("  ", Look::plain(Tone::Plain)));
            push_line(&mut lines, line);
            proof {
                assert(rest@ =~= before.subrange(1, before.len() as int));
                assert(lines_view(before) == body.skip(k as int));
                assert forall|j: int| 0 <= j < rest@.len() implies lines_view(rest@)[j] == body.skip(
                    k + 1,
                )[j] by {
                    assert(rest@[j] == before[j + 1]);
                    assert(lines_view(before)[j + 1] == body.skip(k as int)[j + 1]);
                }
                assert(lines_view(rest@) =~= body.skip(k + 1));
                assert(indented(body.take(k + 1)) =~= indented(body.take(k as int)).push(
                    seq![("  "@, plain_look(Tone::Plain))] + body[k as int],
                ));
            }
            k += 1;
        }
        assert(body.take(n as int) =~= body);
        if self.show_reactions && message.reactions.len() > 0 {
            let reactions_text = message.format_reactions();
            push_line(
                &mut lines,
                StyledLine::single(
                    StyledSpan::new(joined("  ", reactions_text.as_str()), Look::plain(Tone::Yellow)),
                ),
            );
        }
        push_line(&mut lines, StyledLine::single(StyledSpan::new(String::new(), Look::plain(Tone::Plain))));
        proof {
            assert(lines_view(lines@) =~= seq![self.header_line(*message, time)] + self.entry_body(
                *message,
                area_width as int,
            ));
        }
        let file_size = match content.file_size {
            Some(size) => Some((first_content, size)),
            None => None,
        };
        MessageItemView { lines, file_size }
    }

    /// What the list shows: `Messages (n)` over the entries, or, with no
    /// message, `Messages` over a notice.
    pub fn layout(&self, area_width: u16) -> (r: MessageListView)
        ensures
            self.messages@.len() == 0 ==> {
                &&& r.title@ == "Messages"@
                &&& r.empty_notice matches Some(t) && t@ == "No messages yet. Start the conversation!"@
                &&& r.items@.len() == 0
            },
            self.messages@.len() > 0 ==> {
                &&& r.title@ == "Messages ("@ + decimal(self.messages@.len()) + ")"@
                &&& r.empty_notice is None
                &&& r.items@.len() == self.messages@.len()
                &&& forall|i: int|
                    0 <= i < r.items@.len() ==> self.item_matches(
                        #[trigger] r.items@[i],
                        self.messages@[i],
                        area_width as int,
                    )
            },
    {
        let mut items: Vec<MessageItemView> = Vec::new();
        if self.messages.len() == 0 {
            return MessageListView {
                title: string_of("Messages"),
                empty_notice: Some("No messages yet. Start the conversation!"),
                items,
            };
        }
        let mut i: usize = 0;
        while i < self.messages.len()
            invariant
                i <= self.messages@.len(),
                items@.len() == i,
                forall|j: int|
                    0 <= j < i ==> self.item_matches(
                        #[trigger] items@[j],
                        self.messages@[j],
                        area_width as int,
                    ),
            decreases self.messages@.len() - i,
        {
            items.push(self.format_message_item(&self.messages[i], area_width));
            i += 1;
        }
        let mut title = string_of("Messages (");
        push_decimal(&mut title, self.messages.len() as u64);
        title.append(")");
        MessageListView { title, empty_notice: None, items }
    }

    /// Body lines of a message (see `content_lines`).
    pub fn format_message_content(&self, message: &Message, area_width: u16) -> (r:
        MessageContentView)
        ensures
            lines_view(r.lines@) == content_lines(message.content, area_width as int),
            r.file_size == file_size_of(message.content),
    {
        let content_width = area_width.saturating_sub(4) as usize;  // Account for padding
        match &message.content {
            MessageContent::Text { body } => MessageContentView {
                lines: wrapped_styled(body.as_str(), content_width, Look::plain(Tone::White)),
                file_size: None,
            },
            MessageContent::Emote { body } => {
                let text = joined("* ", body.as_str());
                MessageContentView {
                    lines: wrapped_styled(text.as_str(), content_width, Look::italic(Tone::Yellow)),
                    file_size: None,
                }
            },
            MessageContent::Notice { body } => {
                let text = joined("ℹ️ ", body.as_str());
                MessageContentView {
                    lines: wrapped_styled(text.as_str(), content_width, Look::italic(Tone::Blue)),
                    file_size: None,
                }
            },
            MessageContent::System { message: msg } => {
                let text = joined("🔧 ", msg.as_str());
                MessageContentView {
                    lines: wrapped_styled(text.as_str(), content_width, Look::italic(Tone::DarkGray)),
                    file_size: None,
                }
            },
            MessageContent::Image { body, .. } => {
                let mut line = StyledLine::single(StyledSpan::from_str("📷 ", Look::plain(Tone::Yellow)));
                line.push(StyledSpan::from_str(body.as_str(), Look::plain(Tone::White)));
                let mut lines: Vec<StyledLine> = Vec::new();
                push_line(&mut lines, line);
                assert(lines_view(lines@) =~~= content_lines(message.content, area_width as int));
                MessageContentView { lines, file_size: None }
            },
            MessageContent::File { filename, size, .. } => {
                let mut line = StyledLine::single(StyledSpan::from_str("📎 ", Look::plain(Tone::Yellow)));
                line.push(StyledSpan::from_str(filename.as_str(), Look::plain(Tone::White)));
                line.push(StyledSpan::new(String::new(), Look::plain(Tone::DarkGray)));
                let mut lines: Vec<StyledLine> = Vec::new();
                push_line(&mut lines, line);
                assert(lines_view(lines@) =~~= content_lines(message.content, area_width as int));
                MessageContentView { lines, file_size: *size }
            },
            MessageContent::Audio { body, duration, .. } => {
                let mut line = StyledLine::single(StyledSpan::from_str("🎵 ", Look::plain(Tone::Yellow)));
                line.push(StyledSpan::from_str(body.as_str(), Look::plain(Tone::White)));
                line.push(StyledSpan::new(duration_suffix(*duration), Look::plain(Tone::DarkGray)));
                let mut lines: Vec<StyledLine> = Vec::new();
                push_line(&mut lines, line);
                assert(lines_view(lines@) =~~= content_lines(message.content, area_width as int));
                MessageContentView { lines, file_size: None }
            },
            MessageContent::Video { body, duration, .. } => {
                let mut line = StyledLine::single(StyledSpan::from_str("🎥 ", Look::plain(Tone::Yellow)));
                line.push(StyledSpan::from_str(body.as_str(), Look::plain(Tone::White)));
                line.push(StyledSpan::new(duration_suffix(*duration), Look::plain(Tone::DarkGray)));
                let mut lines: Vec<StyledLine> = Vec::new();
                push_line(&mut lines, line);
                assert(lines_view(lines@) =~~= content_lines(message.content, area_width as int));
                MessageContentView { lines, file_size: None }
            },
        }
    }
}

/// Stateful wrapper for MessageList that manages scrolling
#[derive(Debug)]
pub struct StatefulMessageList {
    pub scroll_offset: usize,
    pub auto_scroll: bool,
}

impl StatefulMessageList {
    pub fn default() -> (r: Self)
        ensures
            r.scroll_offset == 0,
            r.auto_scroll,
    {
        StatefulMessageList { scroll_offset: 0, auto_scroll: true }
    }

    pub fn new() -> (r: Self)
        ensures
            r.scroll_offset == 0,
            r.auto_scroll,
    {
        Self::default()
    }

    /// One line up; leaving the bottom turns automatic scrolling off.
    pub fn scroll_up(&mut self)
        ensures
            old(self).scroll_offset > 0 ==> final(self).scroll_offset == old(self).scroll_offset - 1
                && !final(self).auto_scroll,
            old(self).scroll_offset == 0 ==> *final(self) == *old(self),
    {
        if self.scroll_offset > 0 {
            self.scroll_offset -= 1;
            self.auto_scroll = false;
        }
    }

    /// One line down, up to the bottom; at the bottom automatic scrolling
    /// turns on.
    pub fn scroll_down(&mut self, messages: &[Message], visible_lines: usize)
        ensures
            old(self).scroll_offset < max_scroll(messages@.len() as int, visible_lines as int) ==> {
                &&& final(self).scroll_offset == old(self).scroll_offset + 1
                &&& final(self).auto_scroll == old(self).auto_scroll
            },
            old(self).scroll_offset >= max_scroll(messages@.len() as int, visible_lines as int) ==> {
                &&& final(self).scroll_offset == old(self).scroll_offset
                &&& final(self).auto_scroll
            },
    {
        let max_scroll = messages.len().saturating_sub(visible_lines);
        if self.scroll_offset < max_scroll {
            self.scroll_offset += 1;
        } else {
            // If we're at the bottom, enable auto-scroll
            self.auto_scroll = true;
        }
    }

    pub fn scroll_to_bottom(&mut self, messages: &[Message], visible_lines: usize)
        ensures
            final(self).scroll_offset == max_scroll(messages@.len() as int, visible_lines as int),
            final(self).auto_scroll,
    {
        self.scroll_offset = messages.len().saturating_sub(visible_lines);
        self.auto_scroll = true;
    }

    pub fn scroll_to_top(&mut self)
        ensures
            final(self).scroll_offset == 0,
            !final(self).auto_scroll,
    {
        self.scroll_offset = 0;
        self.auto_scroll = false;
    }

    pub fn page_up(&mut self, page_size: usize)
        ensures
            final(self).scroll_offset == if old(self).scroll_offset > page_size {
                old(self).scroll_offset - page_size
            } else {
                0
            },
            !final(self).auto_scroll,
    {
        self.scroll_offset = self.scroll_offset.saturating_sub(page_size);
        self.auto_scroll = false;
    }

    /// A page down, up to the bottom; reaching the bottom turns automatic
    /// scrolling on.
    pub fn page_down(&mut self, messages: &[Message], visible_lines: usize, page_size: usize)
        requires
            old(self).scroll_offset + page_size <= usize::MAX,
        ensures
            ({
                let m = max_scroll(messages@.len() as int, visible_lines as int);
                let target = old(self).scroll_offset + page_size;
                &&& final(self).scroll_offset == if target < m {
                    target
                } else {
                    m
                }
                &&& final(self).auto_scroll == (old(self).auto_scroll || target >= m)
            }),
    {
        let max_scroll = messages.len().saturating_sub(visible_lines);
        let target = self.scroll_offset + page_size;
        self.scroll_offset = if target < max_scroll {
            target
        } else {
            max_scroll
        };

        // Check if we're at the bottom
        if self.scroll_offset >= max_scroll {
            self.auto_scroll = true;
        }
    }

    pub fn on_new_message(&mut self, messages: &[Message], visible_lines: usize)
        ensures
            old(self).auto_scroll ==> final(self).scroll_offset == max_scroll(
                messages@.len() as int,
                visible_lines as int,
            ) && final(self).auto_scroll,
            !old(self).auto_scroll ==> *final(self) == *old(self),
    {
        if self.auto_scroll {
            self.scroll_to_bottom(messages, visible_lines);
        }
    }

    pub fn toggle_auto_scroll(&mut self)
        ensures
            final(self).auto_scroll == !old(self).auto_scroll,
            final(self).scroll_offset == old(self).scroll_offset,
    {
        self.auto_scroll = !self.auto_scroll;
    }
}

/// Scrolling never passes the bottom: from a position within range, a
/// step or a page down stays within range.
pub proof fn lemma_scroll_stays_in_range(offset: int, page: int, n: int, visible: int)
    requires
        0 <= offset <= max_scroll(n, visible),
        page >= 0,
    ensures
        (if offset < max_scroll(n, visible) { offset + 1 } else { offset }) <= max_scroll(n, visible),
        (if offset + page < max_scroll(n, visible) { offset + page } else { max_scroll(n, visible) }) <= max_scroll(n, visible),
{
}

} // verus!
