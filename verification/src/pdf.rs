//! PDF preview support: recognising a PDF and reading its page count from
//! the output of `pdfinfo`.
use vstd::prelude::*;

use vstd::utf8::{decode_utf8, valid_utf8};

use crate::text::{chars_of, owned};

verus! {

/// Whether the content starts with the PDF magic `%PDF`.
pub open spec fn is_pdf_of(bytes: Seq<u8>) -> bool {
    bytes.len() >= 4 && bytes[0] == 0x25u8 && bytes[1] == 0x50u8 && bytes[2] == 0x44u8
        && bytes[3] == 0x46u8
}

/// Whether the content is a PDF (starts with `%PDF`).
pub fn is_pdf(bytes: &[u8]) -> (b: bool)
    ensures
        b == is_pdf_of(bytes@),
{
    bytes.len() >= 4 && bytes[0] == 0x25u8 && bytes[1] == 0x50u8 && bytes[2] == 0x44u8 && bytes[3]
        == 0x46u8
}

/// The message for content that cannot be previewed.
pub fn not_pdf_message() -> (r: String)
    ensures
        r@ == "solo hay preview para PDFs (el contenido no es PDF)"@,
{
    owned("solo hay preview para PDFs (el contenido no es PDF)")
}

/// Only PDFs can be previewed: anything else is refused with a message.
pub fn check_pdf(bytes: &[u8]) -> (r: Result<(), String>)
    ensures
        r is Ok == is_pdf_of(bytes@),
        r matches Err(m) ==> m@ == "solo hay preview para PDFs (el contenido no es PDF)"@,
{
    if is_pdf(bytes) {
        Ok(())
    } else {
        Err(not_pdf_message())
    }
}

/// `String::from_utf8_lossy` of the bytes.
pub uninterp spec fn utf8_lossy_of(bytes: Seq<u8>) -> Seq<char>;

/// Calls `String::from_utf8_lossy`; valid UTF-8 is decoded as it is.
#[verifier::external_body]
fn utf8_lossy(bytes: &[u8]) -> (r: String)
    ensures
        r@ == utf8_lossy_of(bytes@),
        valid_utf8(bytes@) ==> r@ == decode_utf8(bytes@),
{
    String::from_utf8_lossy(bytes).into_owned()
}

/// Index of the first `\n` at or after `i`, else the length.
pub open spec fn line_end(s: Seq<char>, i: int) -> int
    decreases s.len() - i,
{
    if i >= s.len() {
        s.len() as int
    } else if s[i] == '\n' {
        i
    } else {
        line_end(s, i + 1)
    }
}

/// Whether `s` starts with `p`.
pub open spec fn starts_with(s: Seq<char>, p: Seq<char>) -> bool {
    p.len() <= s.len() && s.take(p.len() as int) == p
}

pub proof fn lemma_line_end_bounds(s: Seq<char>, i: int)
    requires
        0 <= i,
    ensures
        i <= s.len() ==> i <= line_end(s, i) <= s.len(),
        line_end(s, i) < s.len() ==> s[line_end(s, i)] == '\n',
        forall|k: int| i <= k < line_end(s, i) ==> s[k] != '\n',
    decreases s.len() - i,
{
    if i < s.len() && s[i] != '\n' {
        lemma_line_end_bounds(s, i + 1);
    }
}

/// The first line that starts with `Pages:`, with lines split as
/// `str::lines` does (at `\n`, dropping a `\r` just before it).
pub open spec fn pages_line(s: Seq<char>) -> Option<Seq<char>>
    decreases s.len(),
{
    if s.len() == 0 {
        None
    } else {
        let e = line_end(s, 0);
        proof {
            lemma_line_end_bounds(s, 0);
        }
        let raw = s.take(e);
        let line = if e < s.len() && raw.len() > 0 && raw.last() == '\r' {
            raw.drop_last()
        } else {
            raw
        };
        if starts_with(line, "Pages:"@) {
            Some(line)
        } else if e < s.len() {
            pages_line(s.skip(e + 1))
        } else {
            None
        }
    }
}

/// `char::is_whitespace`: the Unicode `White_Space` characters.
pub open spec fn is_ws(c: char) -> bool {
    ('\u{9}' <= c && c <= '\u{d}') || c == ' ' || c == '\u{85}' || c == '\u{a0}' || c
        == '\u{1680}' || ('\u{2000}' <= c && c <= '\u{200a}') || c == '\u{2028}' || c
        == '\u{2029}' || c == '\u{202f}' || c == '\u{205f}' || c == '\u{3000}'
}

/// First index at or after `i` that is not whitespace, else the length.
pub open spec fn skip_ws(s: Seq<char>, i: int) -> int
    decreases s.len() - i,
{
    if i >= s.len() {
        s.len() as int
    } else if is_ws(s[i]) {
        skip_ws(s, i + 1)
    } else {
        i
    }
}

/// First index at or after `i` that is whitespace, else the length.
pub open spec fn skip_word(s: Seq<char>, i: int) -> int
    decreases s.len() - i,
{
    if i >= s.len() {
        s.len() as int
    } else if is_ws(s[i]) {
        i
    } else {
        skip_word(s, i + 1)
    }
}

/// The second whitespace-separated word (`split_whitespace().nth(1)`).
pub open spec fn second_word(s: Seq<char>) -> Option<Seq<char>> {
    let a = skip_ws(s, 0);
    let b = skip_word(s, a);
    let c = skip_ws(s, b);
    if c < s.len() {
        Some(s.subrange(c, skip_word(s, c)))
    } else {
        None
    }
}

/// Whether a character is an ASCII decimal digit.
pub open spec fn is_digit(c: char) -> bool {
    '0' <= c && c <= '9'
}

/// The value of a run of decimal digits.
pub open spec fn digits_value(d: Seq<char>) -> nat
    decreases d.len(),
{
    if d.len() == 0 {
        0
    } else {
        digits_value(d.drop_last()) * 10 + ((d.last() as u32 - '0' as u32) as nat)
    }
}

/// The digits part of a number: without its optional leading `+`.
pub open spec fn digits_part(t: Seq<char>) -> Seq<char> {
    if t.len() > 0 && t[0] == '+' {
        t.drop_first()
    } else {
        t
    }
}

/// Whether every character is a decimal digit.
pub open spec fn all_digits(d: Seq<char>) -> bool {
    forall|i: int| 0 <= i < d.len() ==> is_digit(#[trigger] d[i])
}

/// `usize::from_str`: an optional `+`, then one or more decimal digits,
/// whose value fits in a `usize`.
pub open spec fn parse_usize_of(t: Seq<char>) -> Option<nat> {
    let d = digits_part(t);
    if d.len() > 0 && all_digits(d) && digits_value(d) <= usize::MAX {
        Some(digits_value(d))
    } else {
        None
    }
}

/// The page count that `pdfinfo` reports in its output.
pub open spec fn pdf_pages_of(text: Seq<char>) -> Option<nat> {
    match pages_line(text) {
        Some(line) => match second_word(line) {
            Some(w) => parse_usize_of(w),
            None => None,
        },
        None => None,
    }
}

proof fn lemma_digits_value_monotone(d: Seq<char>, i: int)
    requires
        0 <= i <= d.len(),
        forall|k: int| 0 <= k < d.len() ==> is_digit(#[trigger] d[k]),
    ensures
        digits_value(d.take(i)) <= digits_value(d),
    decreases d.len() - i,
{
    if i < d.len() {
        lemma_digits_value_monotone(d, i + 1);
        assert(d.take(i + 1).drop_last() =~= d.take(i));
    } else {
        assert(d.take(i) =~= d);
    }
}

/// Parses a decimal `usize` as `usize::from_str` does.
pub fn parse_usize(t: &[char]) -> (r: Option<usize>)
    ensures
        match parse_usize_of(t@) {
            Some(v) => r == Some(v as usize),
            None => r is None,
        },
{
    let start: usize = if t.len() > 0 && t[0] == '+' {
        1
    } else {
        0
    };
    let ghost d = digits_part(t@);
    assert(d =~= t@.skip(start as int));
    if start == t.len() {
        return None;
    }
    let mut v: usize = 0;
    let mut i: usize = start;
    assert(d.take(0) =~= Seq::<char>::empty());
    while i < t.len()
        invariant
            start <= i <= t@.len(),
            d =~= t@.skip(start as int),
            d == digits_part(t@),
            v == digits_value(d.take(i - start)),
            forall|k: int| 0 <= k < i - start ==> is_digit(#[trigger] d[k]),
        decreases t@.len() - i,
    {
        let c = t[i];
        if !('0' <= c && c <= '9') {
            assert(d[i - start] == c);
            assert(!is_digit(d[i - start]));
            assert(!all_digits(d));
            assert(parse_usize_of(t@) is None);
            return None;
        }
        let dv = (c as u32 - '0' as u32) as usize;
        assert(d.take(i - start + 1).drop_last() =~= d.take(i - start));
        assert(d.take(i - start + 1).last() == c);
        if v > (usize::MAX - dv) / 10 {
            proof {
                assert(digits_value(d.take(i - start + 1)) == v * 10 + dv);
                assert(v * 10 + dv > usize::MAX) by (nonlinear_arith)
                    requires
                        v > (usize::MAX - dv) / 10,
                        dv <= 9,
                ;
                if all_digits(d) {
                    lemma_digits_value_monotone(d, (i - start + 1) as int);
                    assert(digits_value(d) > usize::MAX);
                }
                assert(parse_usize_of(t@) is None);
            }
            return None;
        }
        v = v * 10 + dv;
        i = i + 1;
    }
    assert(d.take(i - start) =~= d);
    Some(v)
}

/// A copy of `v[a..b]`.
fn sub_vec(v: &Vec<char>, a: usize, b: usize) -> (r: Vec<char>)
    requires
        a <= b <= v@.len(),
    ensures
        r@ == v@.subrange(a as int, b as int),
{
    let mut r: Vec<char> = Vec::new();
    let mut i = a;
    while i < b
        invariant
            a <= i <= b <= v@.len(),
            r@ == v@.subrange(a as int, i as int),
        decreases b - i,
    {
        r.push(v[i]);
        assert(v@.subrange(a as int, i + 1) =~= v@.subrange(a as int, i as int).push(v@[i as int]));
        i = i + 1;
    }
    r
}

proof fn lemma_line_end_shift(s: Seq<char>, p: int, k: int)
    requires
        0 <= p <= s.len(),
        0 <= k,
    ensures
        line_end(s.skip(p), k) == if p + k >= s.len() {
            s.len() - p
        } else {
            line_end(s, p + k) - p
        },
    decreases s.len() - p - k,
{
    let t = s.skip(p);
    assert(t.len() == s.len() - p);
    if p + k < s.len() {
        assert(t[k] == s[p + k]);
        if s[p + k] != '\n' {
            lemma_line_end_shift(s, p, k + 1);
        }
    }
}

/// Whether `v[a..b]` starts with `p`.
fn starts_with_at(v: &Vec<char>, a: usize, b: usize, p: &Vec<char>) -> (r: bool)
    requires
        a <= b <= v@.len(),
    ensures
        r == starts_with(v@.subrange(a as int, b as int), p@),
{
    if p.len() > b - a {
        return false;
    }
    let mut i: usize = 0;
    while i < p.len()
        invariant
            a <= b <= v@.len(),
            p@.len() <= b - a,
            0 <= i <= p@.len(),
            forall|k: int| 0 <= k < i ==> v@[a + k] == p@[k],
        decreases p@.len() - i,
    {
        if v[a + i] != p[i] {
            assert(v@.subrange(a as int, b as int).take(p@.len() as int)[i as int] != p@[i as int]);
            return false;
        }
        i = i + 1;
    }
    assert(v@.subrange(a as int, b as int).take(p@.len() as int) =~= p@);
    true
}

/// Start and end of the first line that starts with `Pages:`.
fn find_pages_line(s: &Vec<char>) -> (r: Option<(usize, usize)>)
    ensures
        match pages_line(s@) {
            Some(line) => r matches Some((a, b)) && a <= b <= s@.len() && s@.subrange(
                a as int,
                b as int,
            ) == line,
            None => r is None,
        },
{
    let prefix = chars_of("Pages:");
    let mut pos: usize = 0;
    assert(s@.skip(0) =~= s@);
    while pos < s.len()
        invariant
            0 <= pos <= s@.len(),
            prefix@ == "Pages:"@,
            pages_line(s@) == pages_line(s@.skip(pos as int)),
        decreases s@.len() - pos,
    {
        let mut e = pos;
        while e < s.len() && s[e] != '\n'
            invariant
                pos <= e <= s@.len(),
                line_end(s@, pos as int) == line_end(s@, e as int),
            decreases s@.len() - e,
        {
            e = e + 1;
        }
        let ghost t = s@.skip(pos as int);
        proof {
            lemma_line_end_shift(s@, pos as int, 0);
            assert(line_end(t, 0) == e - pos);
            assert(t.take(e - pos) =~= s@.subrange(pos as int, e as int));
        }
        let b = if e < s.len() && e > pos && s[e - 1] == '\r' {
            e - 1
        } else {
            e
        };
        proof {
            if e < s@.len() && e > pos && s@[e - 1] == '\r' {
                assert(s@.subrange(pos as int, e as int).drop_last() =~= s@.subrange(
                    pos as int,
                    b as int,
                ));
            }
        }
        if starts_with_at(s, pos, b, &prefix) {
            return Some((pos, b));
        }
        if e == s.len() {
            return None;
        }
        proof {
            assert(t.skip(e - pos + 1) =~= s@.skip(e + 1));
        }
        pos = e + 1;
    }
    proof {
        assert(s@.skip(pos as int).len() == 0);
    }
    None
}

/// Start and end of the second whitespace-separated word.
fn second_word_bounds(s: &Vec<char>) -> (r: Option<(usize, usize)>)
    ensures
        match second_word(s@) {
            Some(w) => r matches Some((c, d)) && c <= d <= s@.len() && s@.subrange(
                c as int,
                d as int,
            ) == w,
            None => r is None,
        },
{
    let mut i: usize = 0;
    while i < s.len() && is_whitespace(s[i])
        invariant
            0 <= i <= s@.len(),
            skip_ws(s@, 0) == skip_ws(s@, i as int),
        decreases s@.len() - i,
    {
        i = i + 1;
    }
    let ghost a = i as int;
    while i < s.len() && !is_whitespace(s[i])
        invariant
            a <= i <= s@.len(),
            skip_ws(s@, 0) == a,
            skip_word(s@, a) == skip_word(s@, i as int),
        decreases s@.len() - i,
    {
        i = i + 1;
    }
    let ghost b = i as int;
    while i < s.len() && is_whitespace(s[i])
        invariant
            b <= i <= s@.len(),
            skip_ws(s@, 0) == a,
            skip_word(s@, a) == b,
            skip_ws(s@, b) == skip_ws(s@, i as int),
        decreases s@.len() - i,
    {
        i = i + 1;
    }
    if i == s.len() {
        return None;
    }
    let c = i;
    while i < s.len() && !is_whitespace(s[i])
        invariant
            c <= i <= s@.len(),
            skip_word(s@, c as int) == skip_word(s@, i as int),
        decreases s@.len() - i,
    {
        i = i + 1;
    }
    Some((c, i))
}

/// `char::is_whitespace`.
pub(crate) fn is_whitespace(c: char) -> (b: bool)
    ensures
        b == is_ws(c),
{
    ('\u{9}' <= c && c <= '\u{d}') || c == ' ' || c == '\u{85}' || c == '\u{a0}' || c
        == '\u{1680}' || ('\u{2000}' <= c && c <= '\u{200a}') || c == '\u{2028}' || c
        == '\u{2029}' || c == '\u{202f}' || c == '\u{205f}' || c == '\u{3000}'
}

/// The page count in the output of `pdfinfo`: the second word of its first
/// `Pages:` line, read as a number.
pub fn pdf_pages_from_output(stdout: &[u8]) -> (r: Option<usize>)
    ensures
        match pdf_pages_of(utf8_lossy_of(stdout@)) {
            Some(n) => r == Some(n as usize),
            None => r is None,
        },
{
    let text = utf8_lossy(stdout);
    let s = chars_of(text.as_str());
    let (a, b) = match find_pages_line(&s) {
        Some(p) => p,
        None => {
            return None;
        },
    };
    let line = sub_vec(&s, a, b);
    let (c, d) = match second_word_bounds(&line) {
        Some(w) => w,
        None => {
            return None;
        },
    };
    let word = sub_vec(&line, c, d);
    parse_usize(word.as_slice())
}

} // verus!
