//! Text primitives shared by the editors and views: UTF-8 byte positions
//! over a string's characters, decimal rendering, and searching.
use vstd::prelude::*;
use vstd::utf8::*;

verus! {

/// Number of bytes of the UTF-8 encoding of `c`.
pub open spec fn char_width(c: char) -> int {
    encode_scalar(c as u32).len() as int
}

/// Number of bytes of the UTF-8 encoding of a character sequence
/// (what `String::len` reports).
pub open spec fn byte_len(s: Seq<char>) -> int {
    encode_utf8(s).len() as int
}

/// The index of the character that starts at byte offset `b`, if `b`
/// falls on a character boundary (the end of the text counts).
pub open spec fn char_index_at(s: Seq<char>, b: int) -> Option<int>
    decreases s.len(),
{
    if b == 0 {
        Some(0)
    } else if b < 0 || s.len() == 0 {
        None
    } else {
        match char_index_at(s.drop_first(), b - char_width(s[0])) {
            Some(k) => Some(k + 1),
            None => None,
        }
    }
}

/// `b` is a byte offset on a character boundary of `s`.
pub open spec fn on_boundary(s: Seq<char>, b: int) -> bool {
    char_index_at(s, b) is Some
}

pub proof fn lemma_char_width(c: char)
    ensures
        1 <= char_width(c) <= 4,
        (c as u32) < 0x80 ==> char_width(c) == 1,
{
    char_is_scalar(c);
}

pub proof fn lemma_byte_len_cons(s: Seq<char>)
    requires
        s.len() > 0,
    ensures
        byte_len(s) == char_width(s[0]) + byte_len(s.drop_first()),
{
}

pub proof fn lemma_byte_len_append(a: Seq<char>, b: Seq<char>)
    ensures
        byte_len(a + b) == byte_len(a) + byte_len(b),
        encode_utf8(a + b) == encode_utf8(a) + encode_utf8(b),
    decreases a.len(),
{
    if a.len() == 0 {
        assert(a + b =~= b);
        assert(encode_utf8(a) + encode_utf8(b) =~= encode_utf8(b));
    } else {
        assert((a + b).drop_first() =~= a.drop_first() + b);
        lemma_byte_len_append(a.drop_first(), b);
        assert(encode_utf8(a + b) =~= encode_utf8(a) + encode_utf8(b));
    }
}

pub proof fn lemma_byte_len_nonneg(s: Seq<char>)
    ensures
        byte_len(s) >= s.len(),
    decreases s.len(),
{
    if s.len() > 0 {
        lemma_char_width(s[0]);
        lemma_byte_len_nonneg(s.drop_first());
    }
}

pub proof fn lemma_byte_len_single(c: char)
    ensures
        byte_len(seq![c]) == char_width(c),
{
    reveal_with_fuel(encode_utf8, 2);
    assert(seq![c].drop_first() =~= Seq::<char>::empty());
}

/// A boundary offset names a character index whose prefix has that many bytes.
pub proof fn lemma_char_index_at_sound(s: Seq<char>, b: int)
    requires
        on_boundary(s, b),
    ensures
        0 <= char_index_at(s, b)->0 <= s.len(),
        byte_len(s.take(char_index_at(s, b)->0)) == b,
    decreases s.len(),
{
    if b == 0 {
        assert(s.take(0) =~= Seq::<char>::empty());
    } else {
        let k = char_index_at(s.drop_first(), b - char_width(s[0]))->0;
        lemma_char_index_at_sound(s.drop_first(), b - char_width(s[0]));
        assert(s.take(k + 1).drop_first() =~= s.drop_first().take(k));
        lemma_byte_len_cons(s.take(k + 1));
    }
}

/// The byte length of any prefix is a boundary naming that prefix.
pub proof fn lemma_char_index_at_complete(s: Seq<char>, k: int)
    requires
        0 <= k <= s.len(),
    ensures
        char_index_at(s, byte_len(s.take(k))) == Some(k),
    decreases s.len(),
{
    if k == 0 {
        assert(s.take(0) =~= Seq::<char>::empty());
    } else {
        lemma_char_width(s[0]);
        assert(s.take(k).drop_first() =~= s.drop_first().take(k - 1));
        lemma_byte_len_cons(s.take(k));
        lemma_char_index_at_complete(s.drop_first(), k - 1);
    }
}

/// The end of the text is a boundary naming the character count.
pub proof fn lemma_end_is_boundary(s: Seq<char>)
    ensures
        char_index_at(s, byte_len(s)) == Some(s.len() as int),
{
    assert(s.take(s.len() as int) =~= s);
    lemma_char_index_at_complete(s, s.len() as int);
}

/// A boundary lies within the text.
pub proof fn lemma_boundary_within(s: Seq<char>, b: int)
    requires
        on_boundary(s, b),
    ensures
        0 <= b <= byte_len(s),
{
    let k = char_index_at(s, b)->0;
    lemma_char_index_at_sound(s, b);
    assert(s =~= s.take(k) + s.skip(k));
    lemma_byte_len_append(s.take(k), s.skip(k));
    lemma_byte_len_nonneg(s.skip(k));
}

/// A byte offset is a character boundary of the encoding exactly when it
/// is one of the characters.
pub proof fn lemma_char_boundary_bytes(s: Seq<char>, b: int)
    ensures
        is_char_boundary(encode_utf8(s), b) == on_boundary(s, b),
    decreases s.len(),
{
    encode_utf8_valid_utf8(s);
    if on_boundary(s, b) {
        lemma_boundary_within(s, b);
    }
    if b != 0 && b >= 0 && s.len() > 0 && b <= encode_utf8(s).len() {
        let bytes = encode_utf8(s);
        encode_utf8_first_scalar(s);
        assert(pop_first_scalar(bytes) =~= encode_utf8(s.drop_first()));
        lemma_char_boundary_bytes(s.drop_first(), b - char_width(s[0]));
    }
}

/// Whether the byte offset `b` falls between two characters of `s` (or
/// at its end).
pub fn char_boundary(s: &str, b: usize) -> (r: bool)
    ensures
        r == on_boundary(s@, b as int),
{
    let r = s.is_char_boundary(b);
    proof {
        lemma_char_boundary_bytes(s@, b as int);
    }
    r
}

/// Number of bytes of the UTF-8 encoding of `s` (`str::len`).
pub fn str_byte_len(s: &str) -> (n: usize)
    ensures
        n == byte_len(s@),
{
    s.as_bytes().len()
}

/// Number of bytes of the UTF-8 encoding of `s` (`String::len`).
pub fn string_len(s: &String) -> (n: usize)
    ensures
        n == byte_len(s@),
{
    str_byte_len(s.as_str())
}

/// `String::insert`: puts `c` at byte offset `idx`.
#[verifier::external_body]
pub(crate) fn string_insert(s: &mut String, idx: usize, c: char)
    requires
        on_boundary(old(s)@, idx as int),
    ensures
        final(s)@ == old(s)@.insert(char_index_at(old(s)@, idx as int)->0, c),
{
    s.insert(idx, c)
}

/// `String::remove`: takes out the character that starts at byte offset `idx`.
#[verifier::external_body]
pub(crate) fn string_remove(s: &mut String, idx: usize) -> (c: char)
    requires
        on_boundary(old(s)@, idx as int),
        (idx as int) < byte_len(old(s)@),
    ensures
        c == old(s)@[char_index_at(old(s)@, idx as int)->0],
        final(s)@ == old(s)@.remove(char_index_at(old(s)@, idx as int)->0),
{
    s.remove(idx)
}

/// `String::push`: appends one character.
#[verifier::external_body]
pub(crate) fn string_push(s: &mut String, c: char)
    ensures
        final(s)@ == old(s)@.push(c),
{
    s.push(c)
}

/// `String::clear`: empties the string.
#[verifier::external_body]
pub(crate) fn string_clear(s: &mut String)
    ensures
        final(s)@ == Seq::<char>::empty(),
{
    s.clear()
}

/// `String::truncate`: keeps the first `new_len` bytes; no effect when
/// `new_len` is at least the length.
#[verifier::external_body]
pub(crate) fn string_truncate(s: &mut String, new_len: usize)
    requires
        (new_len as int) < byte_len(old(s)@) ==> on_boundary(old(s)@, new_len as int),
    ensures
        (new_len as int) >= byte_len(old(s)@) ==> final(s)@ == old(s)@,
        (new_len as int) < byte_len(old(s)@) ==> final(s)@ == old(s)@.take(
            char_index_at(old(s)@, new_len as int)->0,
        ),
{
    s.truncate(new_len)
}

/// `String::drain` over the byte range `start..end`, discarding what it yields.
#[verifier::external_body]
pub(crate) fn string_drain(s: &mut String, start: usize, end: usize)
    requires
        start <= end,
        on_boundary(old(s)@, start as int),
        on_boundary(old(s)@, end as int),
    ensures
        final(s)@ == old(s)@.take(char_index_at(old(s)@, start as int)->0) + old(s)@.skip(
            char_index_at(old(s)@, end as int)->0,
        ),
{
    s.drain(start..end);
}

/// Characters with the Unicode `White_Space` property.
pub open spec fn is_whitespace(c: char) -> bool {
    let u = c as u32;
    ||| 0x9 <= u <= 0xD
    ||| u == 0x20
    ||| u == 0x85
    ||| u == 0xA0
    ||| u == 0x1680
    ||| 0x2000 <= u <= 0x200A
    ||| u == 0x2028
    ||| u == 0x2029
    ||| u == 0x202F
    ||| u == 0x205F
    ||| u == 0x3000
}

/// Whether `c` is whitespace, as `char::is_whitespace` decides it: the
/// Unicode `White_Space` property.
pub fn char_is_whitespace(c: char) -> (b: bool)
    ensures
        b == is_whitespace(c),
{
    let u = c as u32;
    (0x9 <= u && u <= 0xD) || u == 0x20 || u == 0x85 || u == 0xA0 || u == 0x1680 || (0x2000 <= u
        && u <= 0x200A) || u == 0x2028 || u == 0x2029 || u == 0x202F || u == 0x205F || u == 0x3000
}

/// `s` without its leading whitespace.
pub open spec fn trim_front(s: Seq<char>) -> Seq<char>
    decreases s.len(),
{
    if s.len() > 0 && is_whitespace(s[0]) {
        trim_front(s.drop_first())
    } else {
        s
    }
}

/// `s` without its trailing whitespace.
pub open spec fn trim_back(s: Seq<char>) -> Seq<char>
    decreases s.len(),
{
    if s.len() > 0 && is_whitespace(s.last()) {
        trim_back(s.drop_last())
    } else {
        s
    }
}

/// `s` without leading and trailing whitespace.
pub open spec fn trimmed(s: Seq<char>) -> Seq<char> {
    trim_back(trim_front(s))
}

/// `s` without leading and trailing whitespace, as `str::trim` gives it.
pub fn str_trim(s: &str) -> (r: &str)
    ensures
        r@ == trimmed(s@),
{
    let n = s.unicode_len();
    let mut i: usize = 0;
    assert(s@.subrange(0, n as int) =~= s@);
    while i < n && char_is_whitespace(s.get_char(i))
        invariant
            n == s@.len(),
            i <= n,
            trim_front(s@) == trim_front(s@.subrange(i as int, n as int)),
        decreases n - i,
    {
        assert(s@.subrange(i as int, n as int).drop_first() =~= s@.subrange(i + 1, n as int));
        i += 1;
    }
    let mut j: usize = n;
    while j > i && char_is_whitespace(s.get_char(j - 1))
        invariant
            n == s@.len(),
            i <= j <= n,
            trim_back(s@.subrange(i as int, n as int)) == trim_back(s@.subrange(i as int, j as int)),
        decreases j - i,
    {
        assert(s@.subrange(i as int, j as int).drop_last() =~= s@.subrange(i as int, j - 1));
        j -= 1;
    }
    s.substring_char(i, j)
}

/// The character at character index `i`, or a space past the end
/// (`chars().nth(i).unwrap_or(' ')`).
pub open spec fn char_or_space(s: Seq<char>, i: int) -> char {
    if 0 <= i < s.len() {
        s[i]
    } else {
        ' '
    }
}

/// Whether the character at index `i` (a space past the end) is whitespace.
pub open spec fn space_at(s: Seq<char>, i: int) -> bool {
    is_whitespace(char_or_space(s, i))
}

pub fn char_at_or_space(s: &String, i: usize) -> (c: char)
    ensures
        c == char_or_space(s@, i as int),
{
    let st = s.as_str();
    if i < st.unicode_len() {
        st.get_char(i)
    } else {
        ' '
    }
}

/// Every character of `s` is whitespace (so that trimming leaves nothing).
pub open spec fn is_blank(s: Seq<char>) -> bool {
    forall|i: int| 0 <= i < s.len() ==> is_whitespace(#[trigger] s[i])
}

/// `s.trim().is_empty()`.
pub fn str_is_blank(s: &str) -> (b: bool)
    ensures
        b == is_blank(s@),
{
    let n = s.unicode_len();
    let mut i: usize = 0;
    while i < n
        invariant
            n == s@.len(),
            i <= n,
            forall|j: int| 0 <= j < i ==> is_whitespace(#[trigger] s@[j]),
        decreases n - i,
    {
        if !char_is_whitespace(s.get_char(i)) {
            return false;
        }
        i += 1;
    }
    true
}

/// Decimal digit character for `d < 10`.
pub open spec fn digit_char(d: int) -> char {
    if d == 0 {
        '0'
    } else if d == 1 {
        '1'
    } else if d == 2 {
        '2'
    } else if d == 3 {
        '3'
    } else if d == 4 {
        '4'
    } else if d == 5 {
        '5'
    } else if d == 6 {
        '6'
    } else if d == 7 {
        '7'
    } else if d == 8 {
        '8'
    } else {
        '9'
    }
}

/// The decimal rendering of a natural number, as `format!("{}", n)` prints it.
pub open spec fn decimal(n: nat) -> Seq<char>
    decreases n,
{
    if n < 10 {
        seq![digit_char(n as int)]
    } else {
        decimal(n / 10).push(digit_char((n % 10) as int))
    }
}

fn digit(d: u64) -> (c: char)
    requires
        d < 10,
    ensures
        c == digit_char(d as int),
{
    match d {
        0 => '0',
        1 => '1',
        2 => '2',
        3 => '3',
        4 => '4',
        5 => '5',
        6 => '6',
        7 => '7',
        8 => '8',
        _ => '9',
    }
}

/// Appends the decimal rendering of `n`.
pub fn push_decimal(s: &mut String, n: u64)
    ensures
        final(s)@ == old(s)@ + decimal(n as nat),
    decreases n,
{
    if n >= 10 {
        push_decimal(s, n / 10);
    }
    string_push(s, digit(n % 10));
    proof {
        if n >= 10 {
            assert(old(s)@ + decimal((n / 10) as nat) + seq![digit_char((n % 10) as int)] =~= old(
                s,
            )@ + decimal(n as nat));
        } else {
            assert(old(s)@.push(digit_char(n as int)) =~= old(s)@ + decimal(n as nat));
        }
    }
}

/// The decimal rendering of an integer, with a `-` before a negative one.
pub open spec fn signed_decimal(n: int) -> Seq<char> {
    if n < 0 {
        "-"@ + decimal((-n) as nat)
    } else {
        decimal(n as nat)
    }
}

/// Appends the decimal rendering of `n`, signed.
pub fn push_signed_decimal(s: &mut String, n: i64)
    ensures
        final(s)@ == old(s)@ + signed_decimal(n as int),
{
    proof {
        reveal_strlit("-");
    }
    if n < 0 {
        string_push(s, '-');
        let m: u64 = (0i128 - (n as i128)) as u64;
        push_decimal(s, m);
        assert(old(s)@.push('-') + decimal(m as nat) =~= old(s)@ + ("-"@ + decimal(m as nat)));
    } else {
        push_decimal(s, n as u64);
    }
}

/// A fresh string holding the text of `s`.
pub fn string_of(s: &str) -> (r: String)
    ensures
        r@ == s@,
{
    s.to_owned()
}

/// `needle` occurs as a contiguous run inside `hay`.
pub open spec fn contains_seq(hay: Seq<char>, needle: Seq<char>) -> bool {
    exists|i: int| 0 <= i && i + needle.len() <= hay.len() && #[trigger] hay.subrange(i, i + needle.len()) == needle
}

/// `&s[start..end]`: the text between two byte offsets.
#[verifier::external_body]
pub(crate) fn str_slice(s: &str, start: usize, end: usize) -> (r: &str)
    requires
        start <= end,
        on_boundary(s@, start as int),
        on_boundary(s@, end as int),
    ensures
        r@ == s@.subrange(char_index_at(s@, start as int)->0, char_index_at(s@, end as int)->0),
{
    &s[start..end]
}

/// `n` asterisks, the masked rendering of a secret.
pub open spec fn stars(n: nat) -> Seq<char> {
    Seq::new(n, |i: int| '*')
}

/// A string of `n` asterisks (`"*".repeat(n)`).
pub fn repeat_star(n: usize) -> (r: String)
    ensures
        r@ == stars(n as nat),
{
    let mut r = String::new();
    let mut i: usize = 0;
    while i < n
        invariant
            i <= n,
            r@ == stars(i as nat),
        decreases n - i,
    {
        string_push(&mut r, '*');
        i += 1;
        assert(r@ =~= stars(i as nat));
    }
    r
}

/// The first `n` characters and then `...`, or the whole text when it has
/// at most `max` bytes (a preview cut).
pub open spec fn ellipsize(s: Seq<char>, max: int, keep: int) -> Seq<char> {
    if byte_len(s) > max {
        s.take(char_index_at(s, keep)->0) + "..."@
    } else {
        s
    }
}

/// Whether two texts are equal (`a == b` on strings).
pub fn str_eq(a: &str, b: &str) -> (r: bool)
    ensures
        r == (a@ == b@),
{
    let x = a.as_bytes();
    let y = b.as_bytes();
    proof {
        vstd::utf8::encode_utf8_decode_utf8(a@);
        vstd::utf8::encode_utf8_decode_utf8(b@);
    }
    if x.len() != y.len() {
        return false;
    }
    let n = x.len();
    let mut i: usize = 0;
    while i < n
        invariant
            n == x@.len(),
            n == y@.len(),
            x@ == encode_utf8(a@),
            y@ == encode_utf8(b@),
            i <= n,
            forall|j: int| 0 <= j < i ==> x@[j] == y@[j],
        decreases n - i,
    {
        if x[i] != y[i] {
            return false;
        }
        i += 1;
    }
    proof {
        assert(x@ =~= y@);
    }
    true
}

/// A copy of a string (`String::clone`).
pub fn copy_string(s: &String) -> (r: String)
    ensures
        r@ == s@,
{
    s.clone()
}

/// A copy of an optional string.
pub fn copy_opt_string(s: &Option<String>) -> (r: Option<String>)
    ensures
        r is Some <==> s is Some,
        r is Some ==> r->0@ == s->0@,
{
    match s {
        Some(t) => Some(t.clone()),
        None => None,
    }
}

/// Names of people typing, as one sentence: "A is typing...",
/// "A and B are typing...", "A, B and N others are typing...".
pub open spec fn typing_sentence(names: Seq<Seq<char>>) -> Seq<char> {
    if names.len() == 0 {
        Seq::empty()
    } else if names.len() == 1 {
        names[0] + " is typing..."@
    } else if names.len() == 2 {
        names[0] + " and "@ + names[1] + " are typing..."@
    } else {
        names[0] + ", "@ + names[1] + " and "@ + decimal((names.len() - 2) as nat)
            + " others are typing..."@
    }
}

/// `s` ends with `tail`.
pub open spec fn ends_with(s: Seq<char>, tail: Seq<char>) -> bool {
    tail.len() <= s.len() && s.skip(s.len() - tail.len()) == tail
}

/// The typing sentence starts with the first typist's name and names the
/// second typist too; it says "is typing..." of one typist and "are
/// typing..." of more; with more than two it gives the number of the
/// others; with nobody typing it is empty.
pub proof fn lemma_typing_sentence_names(names: Seq<Seq<char>>)
    ensures
        names.len() == 0 ==> typing_sentence(names).len() == 0,
        names.len() >= 1 ==> typing_sentence(names).take(names[0].len() as int) == names[0],
        names.len() >= 2 ==> contains_seq(typing_sentence(names), names[1]),
        names.len() == 1 ==> ends_with(typing_sentence(names), " is typing..."@),
        names.len() >= 2 ==> ends_with(typing_sentence(names), " are typing..."@),
        names.len() > 2 ==> contains_seq(
            typing_sentence(names),
            decimal((names.len() - 2) as nat) + " others"@,
        ),
{
    let t = typing_sentence(names);
    if names.len() == 1 {
        assert(t.take(names[0].len() as int) =~= names[0]);
        assert(t.skip(t.len() - " is typing..."@.len()) =~= " is typing..."@);
    } else if names.len() == 2 {
        let a = names[0];
        let b = names[1];
        assert(t.take(a.len() as int) =~= a);
        let i: int = a.len() as int + " and "@.len() as int;
        assert(t.subrange(i, i + b.len()) =~= b);
        assert(t.skip(t.len() - " are typing..."@.len()) =~= " are typing..."@);
    } else if names.len() > 2 {
        let a = names[0];
        let b = names[1];
        let d = decimal((names.len() - 2) as nat);
        assert(t.take(a.len() as int) =~= a);
        let i: int = a.len() as int + ", "@.len() as int;
        assert(t.subrange(i, i + b.len()) =~= b);
        let j: int = i + b.len() + " and "@.len();
        reveal_strlit(" others are typing...");
        reveal_strlit(" others");
        reveal_strlit(" are typing...");
        assert(t.subrange(j, j + (d + " others"@).len()) =~= d + " others"@);
        assert(t.skip(t.len() - " are typing..."@.len()) =~= " are typing..."@);
    }
}

/// The sentence for the typists of `names`.
pub fn format_typing(names: &[String]) -> (r: String)
    ensures
        r@ == typing_sentence(names@.map_values(|n: String| n@)),
{
    let ghost v = names@.map_values(|n: String| n@);
    let n = names.len();
    if n == 0 {
        String::new()
    } else if n == 1 {
        let mut t = copy_string(&names[0]);
        t.append(" is typing...");
        t
    } else if n == 2 {
        let mut t = copy_string(&names[0]);
        t.append(" and ");
        t.append(names[1].as_str());
        t.append(" are typing...");
        t
    } else {
        let mut t = copy_string(&names[0]);
        t.append(", ");
        t.append(names[1].as_str());
        t.append(" and ");
        push_decimal(&mut t, (n - 2) as u64);
        t.append(" others are typing...");
        t
    }
}

/// Offset 0 starts the text.
pub proof fn lemma_start_index(s: Seq<char>)
    ensures
        char_index_at(s, 0) == Some(0int),
        s.take(0) + s == s,
{
    assert(s.take(0) + s =~= s);
}

/// What `str::to_lowercase` makes of a text (Unicode lowercase mapping).
pub uninterp spec fn lowercase(s: Seq<char>) -> Seq<char>;

/// `str::to_lowercase`.
#[verifier::external_body]
pub(crate) fn to_lowercase(s: &str) -> (r: String)
    ensures
        r@ == lowercase(s@),
{
    s.to_lowercase()
}

/// The characters of a text (`s.chars().collect()`).
pub fn chars_of(s: &str) -> (v: Vec<char>)
    ensures
        v@ == s@,
{
    let n = s.unicode_len();
    let mut v: Vec<char> = Vec::new();
    let mut i: usize = 0;
    while i < n
        invariant
            n == s@.len(),
            i <= n,
            v@ == s@.take(i as int),
        decreases n - i,
    {
        v.push(s.get_char(i));
        i += 1;
        assert(v@ =~= s@.take(i as int));
    }
    assert(s@.take(n as int) =~= s@);
    v
}

/// `needle` occurs in `hay` starting at `i`.
pub open spec fn occurs_at(hay: Seq<char>, needle: Seq<char>, i: int) -> bool {
    0 <= i && i + needle.len() <= hay.len() && forall|k: int|
        0 <= k < needle.len() ==> #[trigger] hay[i + k] == needle[k]
}

proof fn lemma_occurs_at_subrange(hay: Seq<char>, needle: Seq<char>, i: int)
    requires
        0 <= i && i + needle.len() <= hay.len(),
    ensures
        occurs_at(hay, needle, i) <==> hay.subrange(i, i + needle.len()) == needle,
{
    if occurs_at(hay, needle, i) {
        assert forall|k: int| 0 <= k < needle.len() implies hay.subrange(i, i + needle.len())[k]
            == needle[k] by {
            assert(hay[i + k] == needle[k]);
        }
        assert(hay.subrange(i, i + needle.len()) =~= needle);
    }
    if hay.subrange(i, i + needle.len()) == needle {
        assert forall|k: int| 0 <= k < needle.len() implies #[trigger] hay[i + k] == needle[k] by {
            assert(hay.subrange(i, i + needle.len())[k] == hay[i + k]);
        }
    }
}

/// Whether `needle` occurs in `hay` (`str::contains` with a string pattern).
pub fn str_contains(hay: &str, needle: &str) -> (r: bool)
    ensures
        r == contains_seq(hay@, needle@),
{
    let h = chars_of(hay);
    let n = chars_of(needle);
    let hl = h.len();
    let nl = n.len();
    if nl > hl {
        proof {
            assert forall|i: int| 0 <= i && i + needle@.len() <= hay@.len() implies #[trigger] hay@.subrange(i, i + needle@.len()) != needle@ by {}
        }
        return false;
    }
    let mut i: usize = 0;
    while i <= hl - nl
        invariant
            h@ == hay@,
            n@ == needle@,
            hl == h@.len(),
            nl == n@.len(),
            nl <= hl,
            i <= hl - nl + 1,
            forall|j: int| 0 <= j < i ==> !occurs_at(hay@, needle@, j),
        decreases hl - nl + 1 - i,
    {
        let mut k: usize = 0;
        let mut same = true;
        while k < nl
            invariant
                h@ == hay@,
                n@ == needle@,
                hl == h@.len(),
                nl == n@.len(),
                i + nl <= hl,
                k <= nl,
                same == forall|q: int| 0 <= q < k ==> hay@[i + q] == needle@[q],
            decreases nl - k,
        {
            if h[i + k] != n[k] {
                same = false;
            }
            k += 1;
        }
        if same {
            proof {
                assert(occurs_at(hay@, needle@, i as int));
                lemma_occurs_at_subrange(hay@, needle@, i as int);
            }
            return true;
        }
        i += 1;
    }
    proof {
        assert forall|j: int| 0 <= j && j + needle@.len() <= hay@.len() implies #[trigger] hay@.subrange(j, j + needle@.len()) != needle@ by {
            lemma_occurs_at_subrange(hay@, needle@, j);
        }
    }
    false
}

/// Distinct characters have distinct code points.
pub proof fn lemma_char_ne_u32(a: char, b: char)
    ensures
        a != b ==> (a as u32) != (b as u32),
{
    if (a as u32) == (b as u32) {
        vstd::utf8::char_u32_cast(a, a as u32);
        vstd::utf8::char_u32_cast(b, b as u32);
    }
}

} // verus!
