//! Greedy word wrapping of text to a width counted in bytes: the text is
//! cut into lines (as `str::lines` does), and a line longer than the width
//! is cut into words (as `str::split_whitespace` does) that are packed,
//! one space apart, as long as they fit.
use vstd::prelude::*;

use crate::text::{
    byte_len, char_is_whitespace, chars_of, copy_string, is_whitespace, lemma_byte_len_append,
    lemma_byte_len_nonneg, lemma_byte_len_single, string_len, string_of, string_push,
};

verus! {

/// The texts of a list of strings.
pub open spec fn views(v: Seq<String>) -> Seq<Seq<char>> {
    v.map_values(|s: String| s@)
}

/// A line without the `\r` of a `\r\n` ending.
pub open spec fn strip_cr(s: Seq<char>) -> Seq<char> {
    if s.len() > 0 && s.last() == '\r' {
        s.drop_last()
    } else {
        s
    }
}

/// The finished pieces and the piece in progress, as one list: the piece
/// in progress counts when it is not empty.
pub open spec fn flush(p: (Seq<Seq<char>>, Seq<char>)) -> Seq<Seq<char>> {
    if p.1.len() > 0 {
        p.0.push(p.1)
    } else {
        p.0
    }
}

/// Lines read so far from `s`, and the line in progress.
pub open spec fn lines_fold(s: Seq<char>) -> (Seq<Seq<char>>, Seq<char>)
    decreases s.len(),
{
    if s.len() == 0 {
        (Seq::empty(), Seq::empty())
    } else {
        let p = lines_fold(s.drop_last());
        if s.last() == '\n' {
            (p.0.push(strip_cr(p.1)), Seq::empty())
        } else {
            (p.0, p.1.push(s.last()))
        }
    }
}

/// The lines of `s`: cut at each `\n` (a `\r` before it goes too), with no
/// empty line after a final `\n`.
pub open spec fn lines_of(s: Seq<char>) -> Seq<Seq<char>> {
    flush(lines_fold(s))
}

/// Words read so far from `s`, and the word in progress.
pub open spec fn words_fold(s: Seq<char>) -> (Seq<Seq<char>>, Seq<char>)
    decreases s.len(),
{
    if s.len() == 0 {
        (Seq::empty(), Seq::empty())
    } else {
        let p = words_fold(s.drop_last());
        if is_whitespace(s.last()) {
            (flush(p), Seq::empty())
        } else {
            (p.0, p.1.push(s.last()))
        }
    }
}

/// The maximal runs of non-whitespace characters of `s`.
pub open spec fn words_of(s: Seq<char>) -> Seq<Seq<char>> {
    flush(words_fold(s))
}

/// Lines filled so far from `words`, and the line being filled: a word
/// joins the line, after a space, while the line stays within `width`
/// bytes, and starts a new line otherwise.
pub open spec fn pack_fold(words: Seq<Seq<char>>, width: int) -> (Seq<Seq<char>>, Seq<char>)
    decreases words.len(),
{
    if words.len() == 0 {
        (Seq::empty(), Seq::empty())
    } else {
        let p = pack_fold(words.drop_last(), width);
        let w = words.last();
        if p.1.len() == 0 {
            (p.0, w)
        } else if byte_len(p.1) + byte_len(w) + 1 <= width {
            (p.0, p.1 + seq![' '] + w)
        } else {
            (p.0.push(p.1), w)
        }
    }
}

/// A line as wrapped: kept when it fits, else its words packed.
pub open spec fn wrap_line(line: Seq<char>, width: int) -> Seq<Seq<char>> {
    if byte_len(line) <= width {
        seq![line]
    } else {
        flush(pack_fold(words_of(line), width))
    }
}

/// The wrapped forms of `lines`, one after the other.
pub open spec fn wrap_all(lines: Seq<Seq<char>>, width: int) -> Seq<Seq<char>>
    decreases lines.len(),
{
    if lines.len() == 0 {
        Seq::empty()
    } else {
        wrap_all(lines.drop_last(), width) + wrap_line(lines.last(), width)
    }
}

/// `text` wrapped to `width` bytes; width 0 leaves it whole, and a text
/// with no line gives one empty line.
pub open spec fn wrapped(text: Seq<char>, width: int) -> Seq<Seq<char>> {
    if width == 0 {
        seq![text]
    } else {
        let out = wrap_all(lines_of(text), width);
        if out.len() == 0 {
            seq![Seq::<char>::empty()]
        } else {
            out
        }
    }
}

/// Every line is at most `width` bytes long.
pub open spec fn all_fit(lines: Seq<Seq<char>>, width: int) -> bool {
    forall|i: int| 0 <= i < lines.len() ==> byte_len(#[trigger] lines[i]) <= width
}

/// Every word of every line of `text` is at most `width` bytes long.
pub open spec fn words_fit(text: Seq<char>, width: int) -> bool {
    forall|i: int| 0 <= i < lines_of(text).len() ==> all_fit(words_of(#[trigger] lines_of(text)[i]), width)
}

proof fn lemma_pack_fits(words: Seq<Seq<char>>, width: int)
    requires
        all_fit(words, width),
    ensures
        all_fit(pack_fold(words, width).0, width),
        byte_len(pack_fold(words, width).1) <= width || pack_fold(words, width).1.len() == 0,
    decreases words.len(),
{
    if words.len() > 0 {
        let p = pack_fold(words.drop_last(), width);
        assert(all_fit(words.drop_last(), width)) by {
            assert forall|i: int| 0 <= i < words.drop_last().len() implies byte_len(
                #[trigger] words.drop_last()[i],
            ) <= width by {
                assert(words.drop_last()[i] == words[i]);
            }
        }
        lemma_pack_fits(words.drop_last(), width);
        let w = words.last();
        assert(byte_len(w) <= width);
        if p.1.len() != 0 && byte_len(p.1) + byte_len(w) + 1 <= width {
            lemma_byte_len_append(p.1 + seq![' '], w);
            lemma_byte_len_append(p.1, seq![' ']);
            lemma_byte_len_single(' ');
        }
    } else {
        lemma_byte_len_nonneg(Seq::<char>::empty());
    }
}

proof fn lemma_flush_fits(p: (Seq<Seq<char>>, Seq<char>), width: int)
    requires
        all_fit(p.0, width),
        byte_len(p.1) <= width || p.1.len() == 0,
    ensures
        all_fit(flush(p), width),
{
}

proof fn lemma_wrap_all_fits(lines: Seq<Seq<char>>, width: int)
    requires
        forall|i: int| 0 <= i < lines.len() ==> all_fit(words_of(#[trigger] lines[i]), width),
    ensures
        all_fit(wrap_all(lines, width), width),
    decreases lines.len(),
{
    if lines.len() > 0 {
        assert forall|i: int| 0 <= i < lines.drop_last().len() implies all_fit(
            words_of(#[trigger] lines.drop_last()[i]),
            width,
        ) by {
            assert(lines.drop_last()[i] == lines[i]);
        }
        lemma_wrap_all_fits(lines.drop_last(), width);
        let l = lines.last();
        assert(all_fit(words_of(lines[lines.len() - 1]), width));
        if byte_len(l) > width {
            lemma_pack_fits(words_of(l), width);
            lemma_flush_fits(pack_fold(words_of(l), width), width);
        }
        let a = wrap_all(lines.drop_last(), width);
        let b = wrap_line(l, width);
        assert forall|i: int| 0 <= i < (a + b).len() implies byte_len(#[trigger] (a + b)[i]) <= width by {
            if i < a.len() {
                assert((a + b)[i] == a[i]);
            } else {
                assert((a + b)[i] == b[i - a.len()]);
            }
        }
    }
}

/// When no word of the text is wider than the width, no wrapped line is.
pub proof fn lemma_wrapped_lines_fit(text: Seq<char>, width: int)
    requires
        width > 0,
        words_fit(text, width),
    ensures
        all_fit(wrapped(text, width), width),
{
    lemma_wrap_all_fits(lines_of(text), width);
    lemma_byte_len_nonneg(Seq::<char>::empty());
    assert(byte_len(Seq::<char>::empty()) == 0) by {
        reveal_with_fuel(vstd::utf8::encode_utf8, 1);
    }
}

proof fn lemma_views_push(v: Seq<String>, s: String)
    ensures
        views(v.push(s)) == views(v).push(s@),
{
    assert(views(v.push(s)) =~= views(v).push(s@));
}

/// A string holding the characters of `v`.
fn string_from_chars(v: &Vec<char>) -> (s: String)
    ensures
        s@ == v@,
{
    let mut s = String::new();
    let mut i: usize = 0;
    while i < v.len()
        invariant
            i <= v@.len(),
            s@ == v@.take(i as int),
        decreases v@.len() - i,
    {
        string_push(&mut s, v[i]);
        i += 1;
        assert(s@ =~= v@.take(i as int));
    }
    assert(v@.take(v@.len() as int) =~= v@);
    s
}

/// The lines of `text` (`str::lines`).
fn split_lines(text: &str) -> (r: Vec<String>)
    ensures
        views(r@) == lines_of(text@),
{
    let chars = chars_of(text);
    let mut done: Vec<String> = Vec::new();
    let mut cur: Vec<char> = Vec::new();
    let mut i: usize = 0;
    assert(text@.take(0) =~= Seq::<char>::empty());
    while i < chars.len()
        invariant
            chars@ == text@,
            i <= chars@.len(),
            (views(done@), cur@) == lines_fold(text@.take(i as int)),
        decreases chars@.len() - i,
    {
        let c = chars[i];
        assert(text@.take(i + 1).drop_last() =~= text@.take(i as int));
        assert(text@.take(i + 1).last() == c);
        if c == '\n' {
            let n = cur.len();
            if n > 0 && cur[n - 1] == '\r' {
                cur.pop();
                assert(cur@ =~= strip_cr(lines_fold(text@.take(i as int)).1));
            }
            let line = string_from_chars(&cur);
            proof {
                lemma_views_push(done@, line);
            }
            done.push(line);
            cur = Vec::new();
        } else {
            cur.push(c);
        }
        i += 1;
    }
    assert(text@.take(chars@.len() as int) =~= text@);
    if cur.len() > 0 {
        let line = string_from_chars(&cur);
        proof {
            lemma_views_push(done@, line);
        }
        done.push(line);
    }
    done
}

/// The words of `line` (`str::split_whitespace`).
fn split_words(line: &str) -> (r: Vec<String>)
    ensures
        views(r@) == words_of(line@),
{
    let chars = chars_of(line);
    let mut done: Vec<String> = Vec::new();
    let mut cur: Vec<char> = Vec::new();
    let mut i: usize = 0;
    assert(line@.take(0) =~= Seq::<char>::empty());
    while i < chars.len()
        invariant
            chars@ == line@,
            i <= chars@.len(),
            (views(done@), cur@) == words_fold(line@.take(i as int)),
        decreases chars@.len() - i,
    {
        let c = chars[i];
        assert(line@.take(i + 1).drop_last() =~= line@.take(i as int));
        assert(line@.take(i + 1).last() == c);
        if char_is_whitespace(c) {
            if cur.len() > 0 {
                let word = string_from_chars(&cur);
                proof {
                    lemma_views_push(done@, word);
                }
                done.push(word);
            }
            cur = Vec::new();
        } else {
            cur.push(c);
        }
        i += 1;
    }
    assert(line@.take(chars@.len() as int) =~= line@);
    if cur.len() > 0 {
        let word = string_from_chars(&cur);
        proof {
            lemma_views_push(done@, word);
        }
        done.push(word);
    }
    done
}

/// `words` packed into lines of at most `width` bytes where they fit.
fn pack_words(words: &Vec<String>, width: usize) -> (r: Vec<String>)
    ensures
        views(r@) == flush(pack_fold(views(words@), width as int)),
{
    let ghost ws = views(words@);
    let mut done: Vec<String> = Vec::new();
    let mut cur = String::new();
    let mut k: usize = 0;
    assert(ws.take(0) =~= Seq::<Seq<char>>::empty());
    while k < words.len()
        invariant
            ws == views(words@),
            k <= words@.len(),
            (views(done@), cur@) == pack_fold(ws.take(k as int), width as int),
        decreases words@.len() - k,
    {
        let w = &words[k];
        assert(ws.take(k + 1).drop_last() =~= ws.take(k as int));
        assert(ws.take(k + 1).last() == w@);
        if cur.as_str().is_empty() {
            cur = copy_string(w);
        } else if (string_len(&cur) as u128) + (string_len(w) as u128) + 1 <= width as u128 {
            string_push(&mut cur, ' ');
            cur.append(w.as_str());
        } else {
            proof {
                lemma_views_push(done@, cur);
            }
            done.push(cur);
            cur = copy_string(w);
        }
        k += 1;
    }
    assert(ws.take(words@.len() as int) =~= ws);
    if !cur.as_str().is_empty() {
        proof {
            lemma_views_push(done@, cur);
        }
        done.push(cur);
    }
    done
}

/// `text` wrapped to `width` bytes.
pub fn wrap_text(text: &str, width: usize) -> (r: Vec<String>)
    ensures
        views(r@) == wrapped(text@, width as int),
{
    if width == 0 {
        let mut one: Vec<String> = Vec::new();
        one.push(string_of(text));
        assert(views(one@) =~= seq![text@]);
        return one;
    }
    let lines = split_lines(text);
    let ghost ls = views(lines@);
    let mut out: Vec<String> = Vec::new();
    let mut k: usize = 0;
    assert(ls.take(0) =~= Seq::<Seq<char>>::empty());
    while k < lines.len()
        invariant
            ls == views(lines@),
            ls == lines_of(text@),
            width > 0,
            k <= lines@.len(),
            views(out@) == wrap_all(ls.take(k as int), width as int),
        decreases lines@.len() - k,
    {
        let line = &lines[k];
        assert(ls.take(k + 1).drop_last() =~= ls.take(k as int));
        assert(ls.take(k + 1).last() == line@);
        if string_len(line) <= width {
            let copy = copy_string(line);
            proof {
                lemma_views_push(out@, copy);
            }
            out.push(copy);
            assert(views(out@) =~= wrap_all(ls.take(k + 1), width as int));
        } else {
            let words = split_words(line.as_str());
            let mut packed = pack_words(&words, width);
            let ghost before = views(out@);
            out.append(&mut packed);
            assert(views(out@) =~= before + wrap_line(line@, width as int));
        }
        k += 1;
    }
    assert(ls.take(lines@.len() as int) =~= ls);
    if out.len() == 0 {
        out.push(String::new());
        assert(views(out@) =~= seq![Seq::<char>::empty()]);
    }
    out
}

} // verus!
