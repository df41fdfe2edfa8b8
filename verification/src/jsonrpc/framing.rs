//! The `Content-Length` framing of messages on a byte stream: a header
//! line, an empty line, then the JSON text.

use vstd::prelude::*;
use crate::text::{chars_of, trim, trim_start, trim_end, is_whitespace, is_digit, lemma_decimal_digits,
    lemma_parse_decimal, trim_bounds, string_of_range, parse_unsigned, parse_unsigned_range,
    has_prefix_at, lit, decimal, push_str, push_decimal};
use crate::display::utils::{utf8_len, utf8_len_of};

verus! {

/// What a header line announces.
#[derive(Debug, Clone, Copy, PartialEq, Eq, Structural)]
pub enum HeaderLine {
    /// An empty line (between messages); it is skipped.
    Blank,
    /// The byte length of the JSON text that follows.
    ContentLength(usize),
}

/// A header line that is not understood.
#[derive(Debug, Clone)]
pub enum FramingError {
    /// The length after `Content-Length: ` is not a number.
    InvalidContentLength,
    /// The line (trimmed) is not a `Content-Length` header.
    ExpectedHeader(String),
}

/// The header prefix.
pub open spec fn header_prefix() -> Seq<char> {
    "Content-Length: "@
}

/// What a header line (trimmed) says: nothing when empty; a length when it
/// starts with `Content-Length: ` and the rest is a `usize` number; else
/// it is no header (`None` inside `Err` for a bad number).
pub open spec fn header_of(line: Seq<char>) -> Result<HeaderLine, Option<Seq<char>>> {
    let t = trim(line);
    let p = header_prefix();
    if t.len() == 0 {
        Ok(HeaderLine::Blank)
    } else if t.len() >= p.len() && t.subrange(0, p.len() as int) == p {
        match parse_unsigned(t.subrange(p.len() as int, t.len() as int), usize::MAX as nat) {
            Some(n) => Ok(HeaderLine::ContentLength(n as usize)),
            None => Err(None),
        }
    } else {
        Err(Some(t))
    }
}

/// Reads a header line.
pub fn parse_header_line(line: &str) -> (r: Result<HeaderLine, FramingError>)
    ensures
        match header_of(line@) {
            Ok(h) => r == Ok::<HeaderLine, FramingError>(h),
            Err(None) => r matches Err(FramingError::InvalidContentLength),
            Err(Some(t)) => r matches Err(FramingError::ExpectedHeader(s)) && s@ == t,
        },
{
    let v = chars_of(line);
    let (a, b) = trim_bounds(&v);
    let ghost t = v@.subrange(a as int, b as int);
    if a == b {
        return Ok(HeaderLine::Blank);
    }
    let p = lit("Content-Length: ");
    assert(p@ == header_prefix());
    proof {
        if b - a >= p@.len() {
            assert(v@.subrange(a as int, a + p@.len()) =~= t.subrange(0, p@.len() as int));
            assert(v@.subrange(a + p@.len(), b as int) =~= t.subrange(p@.len() as int, t.len() as int));
        }
    }
    if b - a >= p.len() && has_prefix_at(&v, a, &p) {
        let max = usize::MAX as u64;
        assert(max as nat == usize::MAX as nat);
        let parsed = parse_unsigned_range(&v, a + p.len(), b, max);
        match parsed {
            Some(n) => {
                assert(n <= usize::MAX);
                Ok(HeaderLine::ContentLength(n as usize))
            },
            None => Err(FramingError::InvalidContentLength),
        }
    } else {
        Err(FramingError::ExpectedHeader(string_of_range(&v, a, b)))
    }
}

/// A framed message: the header with the byte length of the text, an
/// empty line, and the text.
pub open spec fn framed(json: Seq<char>) -> Seq<char> {
    header_prefix() + decimal(utf8_len(json)) + "\r\n\r\n"@ + json
}

/// Frames a JSON text for sending.
pub fn frame_message(json: &str) -> (r: String)
    requires
        utf8_len(json@) <= usize::MAX,
    ensures
        r@ == framed(json@),
{
    let n = utf8_len_of(&chars_of(json));
    let mut s = String::new();
    push_str(&mut s, "Content-Length: ");
    push_decimal(&mut s, n as u64);
    push_str(&mut s, "\r\n\r\n");
    push_str(&mut s, json);
    s
}

/// The header line that starts the frame of a text of `n` bytes, as a
/// reader sees it (with its line end).
pub open spec fn header_text(n: nat) -> Seq<char> {
    header_prefix() + decimal(n) + "\r\n"@
}

/// A frame is its header line, an empty line and the text; and its header
/// line reads back as the byte length of the text.
pub proof fn lemma_frame_header_round_trip(json: Seq<char>)
    requires
        utf8_len(json) <= usize::MAX,
    ensures
        framed(json) == header_text(utf8_len(json)) + "\r\n"@ + json,
        header_of(header_text(utf8_len(json))) == Ok::<HeaderLine, Option<Seq<char>>>(
            HeaderLine::ContentLength(utf8_len(json) as usize),
        ),
{
    let n = utf8_len(json);
    reveal_strlit("\r\n\r\n");
    reveal_strlit("\r\n");
    reveal_strlit("Content-Length: ");
    assert("\r\n\r\n"@ =~= "\r\n"@ + "\r\n"@);
    assert(framed(json) =~= header_text(n) + "\r\n"@ + json);
    let p = header_prefix();
    let d = decimal(n);
    lemma_decimal_digits(n);
    lemma_parse_decimal(n, usize::MAX as nat);
    let s = header_text(n);
    let body = p + d;
    assert(s =~= body.push('\r').push('\n'));
    assert(!is_whitespace(s[0]));
    assert(trim_start(s) == s);
    assert(s.drop_last() =~= body.push('\r'));
    assert(body.push('\r').drop_last() =~= body);
    assert(is_whitespace(s.last()));
    assert(is_whitespace(body.push('\r').last()));
    assert(body.last() == d.last());
    assert(is_digit(d[d.len() - 1]));
    assert(!is_whitespace(body.last()));
    assert(trim_end(body) == body);
    assert(trim_end(body.push('\r')) == trim_end(body));
    assert(trim_end(s) == trim_end(s.drop_last()));
    assert(trim_end(s) == body);
    assert(trim(s) == body);
    assert(body.subrange(0, p.len() as int) =~= p);
    assert(body.subrange(p.len() as int, body.len() as int) =~= d);
}

} // verus!
