//! The system clock and time rendering. UTC times of day are stated
//! exactly; local times depend on the machine's time zone, so only the
//! shape of their text, and that an instant in range gets one, is promised.
use chrono::{Datelike, TimeZone};
use vstd::prelude::*;

verus! {

/// How a time of day is written.
#[derive(Clone, Copy, Debug, PartialEq, Eq, Structural)]
pub enum TimePattern {
    /// `14:05` (`%H:%M`)
    HourMinute,
    /// `Mon 14:05` (`%a %H:%M`)
    WeekdayHourMinute,
    /// `07/31 14:05` (`%m/%d %H:%M`)
    MonthDayHourMinute,
}

/// `chrono::Local::now()`, as milliseconds since the Unix epoch.
#[verifier::external_body]
pub(crate) fn now_millis() -> (t: i64) {
    chrono::Local::now().timestamp_millis()
}

/// Whether chrono can place the instant `ms` (milliseconds since the Unix
/// epoch) on its calendar: from the first instant of January 1 of year
/// -262143 to the last millisecond of December 31 of year 262142.
pub open spec fn utc_representable(ms: int) -> bool {
    -8_334_601_228_800_000 <= ms <= 8_210_266_876_799_999
}

/// Instants well inside chrono's calendar: about 253,000 years either side
/// of 1970.
pub open spec fn in_clock_range(ms: int) -> bool {
    -8_000_000_000_000_000 <= ms <= 8_000_000_000_000_000
}

/// `n` (0 to 99) written with two digits.
pub open spec fn two_digit_text(n: int) -> Seq<char> {
    seq![(48 + n / 10) as char, (48 + n % 10) as char]
}

/// The UTC time of day of the instant `ms` as `HH:MM:SS`: the whole
/// seconds since the epoch (rounded down), taken modulo one day.
pub open spec fn utc_time_of_day(ms: int) -> Seq<char> {
    let day_seconds = (ms / 1000) % 86400;
    two_digit_text(day_seconds / 3600) + seq![':'] + two_digit_text(day_seconds % 3600 / 60)
        + seq![':'] + two_digit_text(day_seconds % 60)
}

/// `chrono::Utc.timestamp_millis_opt(ms)` formatted as `%H:%M:%S`. Claimed,
/// from chrono's source: the instant is split into whole seconds
/// (`div_euclid`) and a millisecond rest, so the text is the time of day
/// of those seconds; `None` exactly where chrono cannot place the
/// instant (its calendar spans years -262143 to 262142).
#[verifier::external_body]
pub(crate) fn utc_clock_text(ms: i64) -> (r: Option<String>)
    ensures
        r is Some <==> utc_representable(ms as int),
        r matches Some(t) ==> t@ == utc_time_of_day(ms as int),
{
    match chrono::Utc.timestamp_millis_opt(ms) {
        chrono::offset::MappedLocalTime::Single(d) => Some(d.format("%H:%M:%S").to_string()),
        chrono::offset::MappedLocalTime::Ambiguous(..) => None,
        chrono::offset::MappedLocalTime::None => None,
    }
}

/// `chrono::Local::now().timestamp()`: whole seconds since the Unix epoch.
#[verifier::external_body]
pub(crate) fn now_seconds() -> (t: i64) {
    chrono::Local::now().timestamp()
}

/// `c` is an ASCII digit.
pub open spec fn is_digit(c: char) -> bool {
    '0' <= c <= '9'
}

/// The two digits `a` and `b` write a number from `lo` to `hi`.
pub open spec fn two_digits_in(a: char, b: char, lo: int, hi: int) -> bool {
    &&& is_digit(a)
    &&& is_digit(b)
    &&& lo <= 10 * (a as int - '0' as int) + (b as int - '0' as int) <= hi
}

/// `HH:MM`: an hour 00 to 23 and a minute 00 to 59, both zero-padded.
pub open spec fn hour_minute_text(t: Seq<char>) -> bool {
    &&& t.len() == 5
    &&& two_digits_in(t[0], t[1], 0, 23)
    &&& t[2] == ':'
    &&& two_digits_in(t[3], t[4], 0, 59)
}

/// One of the English three-letter weekday names.
pub open spec fn weekday_abbreviation(t: Seq<char>) -> bool {
    ||| t == seq!['S', 'u', 'n']
    ||| t == seq!['M', 'o', 'n']
    ||| t == seq!['T', 'u', 'e']
    ||| t == seq!['W', 'e', 'd']
    ||| t == seq!['T', 'h', 'u']
    ||| t == seq!['F', 'r', 'i']
    ||| t == seq!['S', 'a', 't']
}

/// `t` has the shape that `pattern` writes: `HH:MM`, `Www HH:MM`, or
/// `mm/dd HH:MM` with a month 01 to 12 and a day 01 to 31.
pub open spec fn time_text(pattern: TimePattern, t: Seq<char>) -> bool {
    match pattern {
        TimePattern::HourMinute => hour_minute_text(t),
        TimePattern::WeekdayHourMinute => {
            &&& t.len() == 9
            &&& weekday_abbreviation(t.take(3))
            &&& t[3] == ' '
            &&& hour_minute_text(t.skip(4))
        },
        TimePattern::MonthDayHourMinute => {
            &&& t.len() == 11
            &&& two_digits_in(t[0], t[1], 1, 12)
            &&& t[2] == '/'
            &&& two_digits_in(t[3], t[4], 1, 31)
            &&& t[5] == ' '
            &&& hour_minute_text(t.skip(6))
        },
    }
}

/// A time written in any pattern is not empty.
pub proof fn lemma_time_text_nonempty(pattern: TimePattern, t: Seq<char>)
    requires
        time_text(pattern, t),
    ensures
        t.len() > 0,
{
}

/// `chrono::Local.timestamp_millis_opt(ms)` formatted with `pattern`;
/// `None` for an instant chrono cannot represent. Claimed: a text has the
/// shape of its pattern, as chrono's `strftime` table gives `%H`, `%M`,
/// `%m`, `%d` (zero-padded, in range) and `%a` (English names without a
/// locale); inside `in_clock_range` chrono always places the instant
/// (`timestamp_millis_opt` gives `Single` whenever the UTC instant exists).
/// Which time it writes depends on the machine's time zone and is left
/// unsaid.
#[verifier::external_body]
pub(crate) fn local_time_text(ms: i64, pattern: TimePattern) -> (r: Option<String>)
    ensures
        r matches Some(t) ==> time_text(pattern, t@),
        in_clock_range(ms as int) ==> r is Some,
{
    let fmt = match pattern {
        TimePattern::HourMinute => "%H:%M",
        TimePattern::WeekdayHourMinute => "%a %H:%M",
        TimePattern::MonthDayHourMinute => "%m/%d %H:%M",
    };
    match chrono::Local.timestamp_millis_opt(ms) {
        chrono::offset::MappedLocalTime::Single(d) => Some(d.format(fmt).to_string()),
        chrono::offset::MappedLocalTime::Ambiguous(..) => None,
        chrono::offset::MappedLocalTime::None => None,
    }
}

/// The local calendar day of the instant `ms`, as chrono's count of days
/// from the common era (`date_naive().num_days_from_ce()`); `None` for an
/// instant chrono cannot represent, which never happens inside
/// `in_clock_range`. Which day depends on the machine's time zone.
#[verifier::external_body]
pub(crate) fn local_day_number(ms: i64) -> (r: Option<i32>)
    ensures
        in_clock_range(ms as int) ==> r is Some,
{
    match chrono::Local.timestamp_millis_opt(ms) {
        chrono::offset::MappedLocalTime::Single(d) => Some(d.date_naive().num_days_from_ce()),
        chrono::offset::MappedLocalTime::Ambiguous(..) => None,
        chrono::offset::MappedLocalTime::None => None,
    }
}

} // verus!
