//! Helpers shared by the formatters: colour codes, relative and shortened
//! paths, byte lengths and the preview of a line around a match.

use vstd::prelude::*;
use crate::display::Color;
use crate::text::{chars_of, push_char, push_str, push_range, string_of, string_of_range, trim,
    expand_tabs, expand_tabs_vec, trim_bounds};
use crate::vimgrep::{find_from, find_char_from};
use crate::pathutil::{strip_prefix_of, path_strip_prefix};

verus! {

/// The ANSI escape sequence of a colour.
pub open spec fn ansi_code(c: Color) -> Seq<char> {
    match c {
        Color::Reset => "\x1b[0m"@,
        Color::Gray => "\x1b[90m"@,
        Color::Blue => "\x1b[34m"@,
        Color::Green => "\x1b[32m"@,
        Color::Yellow => "\x1b[33m"@,
        Color::Red => "\x1b[31m"@,
        Color::Cyan => "\x1b[36m"@,
        Color::White => "\x1b[37m"@,
    }
}

/// The ANSI escape sequence that switches to `color`.
pub fn color_to_ansi(color: &Color) -> (r: &'static str)
    ensures
        r@ == ansi_code(*color),
{
    match color {
        Color::Reset => "\x1b[0m",
        Color::Gray => "\x1b[90m",
        Color::Blue => "\x1b[34m",
        Color::Green => "\x1b[32m",
        Color::Yellow => "\x1b[33m",
        Color::Red => "\x1b[31m",
        Color::Cyan => "\x1b[36m",
        Color::White => "\x1b[37m",
    }
}

/// `text` in `c`, followed by the reset sequence.
pub open spec fn colored(text: Seq<char>, c: Color) -> Seq<char> {
    ansi_code(c) + text + ansi_code(Color::Reset)
}

/// `text` in `color` when `enable` holds, else `text` unchanged.
pub fn apply_color(text: &str, color: &Color, enable: bool) -> (r: String)
    ensures
        r@ == (if enable { colored(text@, *color) } else { text@ }),
{
    let mut s = String::new();
    if enable {
        push_str(&mut s, color_to_ansi(color));
        push_str(&mut s, text);
        push_str(&mut s, color_to_ansi(&Color::Reset));
    } else {
        push_str(&mut s, text);
    }
    s
}

/// A path relative to the project root: the path with the root's components
/// taken off its front, or the path itself when the root does not begin it.
pub open spec fn relative_path(abs: Seq<char>, root: Seq<char>) -> Seq<char> {
    match strip_prefix_of(abs, root) {
        Some(r) => r,
        None => abs,
    }
}

/// `absolute_path` relative to `project_root`.
pub fn get_relative_path(absolute_path: &str, project_root: &str) -> (r: String)
    ensures
        r@ == relative_path(absolute_path@, project_root@),
{
    match path_strip_prefix(absolute_path, project_root) {
        Some(r) => r,
        None => absolute_path.to_owned(),
    }
}

// ---------------------------------------------------------------------------
// Byte lengths
// ---------------------------------------------------------------------------

/// The number of bytes of a character in UTF-8.
pub open spec fn utf8_width(c: char) -> nat {
    if (c as u32) < 0x80 {
        1
    } else if (c as u32) < 0x800 {
        2
    } else if (c as u32) < 0x10000 {
        3
    } else {
        4
    }
}

/// The number of bytes of a text in UTF-8 (what `str::len` gives).
pub open spec fn utf8_len(s: Seq<char>) -> nat
    decreases s.len(),
{
    if s.len() == 0 {
        0
    } else {
        utf8_len(s.drop_last()) + utf8_width(s.last())
    }
}

/// The UTF-8 width of a character.
pub fn char_utf8_width(c: char) -> (w: u128)
    ensures
        w == utf8_width(c),
        1 <= w <= 4,
{
    let u = c as u32;
    if u < 0x80 {
        1
    } else if u < 0x800 {
        2
    } else if u < 0x10000 {
        3
    } else {
        4
    }
}

/// The UTF-8 length of the characters `v[start..end]`.
pub fn utf8_len_range(v: &Vec<char>, start: usize, end: usize) -> (n: u128)
    requires
        start <= end <= v@.len(),
    ensures
        n == utf8_len(v@.subrange(start as int, end as int)),
        n <= 4 * (end - start),
{
    let mut n: u128 = 0;
    let mut i: usize = start;
    while i < end
        invariant
            start <= i <= end <= v@.len(),
            n == utf8_len(v@.subrange(start as int, i as int)),
            n <= 4 * (i - start),
        decreases end - i,
    {
        let w = char_utf8_width(v[i]);
        assert(v@.subrange(start as int, i + 1).drop_last() =~= v@.subrange(start as int, i as int));
        n = n + w;
        i = i + 1;
    }
    n
}

/// The UTF-8 length of the characters in `v`.
pub fn utf8_len_of(v: &Vec<char>) -> (n: u128)
    ensures
        n == utf8_len(v@),
        n <= 4 * v@.len(),
        v@.len() <= usize::MAX,
{
    let n = utf8_len_range(v, 0, v.len());
    assert(v@.subrange(0, v@.len() as int) =~= v@);
    n
}

// ---------------------------------------------------------------------------
// Shortened paths
// ---------------------------------------------------------------------------

/// The index of the last `c` in `s`.
pub open spec fn last_index_of(s: Seq<char>, c: char) -> Option<int>
    decreases s.len(),
{
    if s.len() == 0 {
        None
    } else if s.last() == c {
        Some(s.len() - 1)
    } else {
        last_index_of(s.drop_last(), c)
    }
}

/// The index of the last `c` in `v`.
pub fn last_char_index(v: &Vec<char>, c: char) -> (r: Option<usize>)
    ensures
        match last_index_of(v@, c) {
            Some(k) => r == Some(k as usize) && 0 <= k < v@.len(),
            None => r is None,
        },
        r matches Some(k) ==> k < v@.len(),
{
    let mut j = v.len();
    assert(v@.take(j as int) =~= v@);
    while j > 0 && v[j - 1] != c
        invariant
            j <= v@.len(),
            last_index_of(v@, c) == last_index_of(v@.take(j as int), c),
        decreases j,
    {
        assert(v@.take(j as int).drop_last() =~= v@.take(j - 1));
        j = j - 1;
    }
    if j == 0 {
        None
    } else {
        Some(j - 1)
    }
}

/// The shortened form of a long path: its first component, `/.../` and its
/// last component (`.../` and the last component for an absolute path).
pub open spec fn abbreviated_path(first: Seq<char>, last: Seq<char>) -> Seq<char> {
    if first.len() == 0 {
        seq!['.', '.', '.', '/'] + last
    } else {
        first + seq!['/', '.', '.', '.', '/'] + last
    }
}

/// The longest path, in bytes, that is shown unshortened.
pub const MAX_PATH_LENGTH: u128 = 50;

/// A path as the interactive view shows it: unchanged up to 50 bytes or
/// with fewer than three components; otherwise abbreviated to its first and
/// last component, if that is shorter.
pub open spec fn truncated_path(p: Seq<char>) -> Seq<char> {
    if utf8_len(p) <= MAX_PATH_LENGTH {
        p
    } else {
        match (find_from(p, 0, '/'), last_index_of(p, '/')) {
            (Some(f), Some(l)) => {
                if f < l {
                    let a = abbreviated_path(p.subrange(0, f), p.subrange(l + 1, p.len() as int));
                    if utf8_len(a) < utf8_len(p) { a } else { p }
                } else {
                    p
                }
            },
            _ => p,
        }
    }
}

proof fn lemma_last_index_of_bounds(s: Seq<char>, c: char)
    ensures
        last_index_of(s, c) matches Some(k) ==> 0 <= k < s.len() && s[k] == c,
    decreases s.len(),
{
    if s.len() > 0 && s.last() != c {
        lemma_last_index_of_bounds(s.drop_last(), c);
    }
}

/// A shown path is never longer than the path: a path of at most 50 bytes
/// is shown as it is, a longer one as it is or shortened; and the part after
/// the last `/` is always kept at the end.
pub proof fn lemma_truncated_path_shorter(p: Seq<char>)
    ensures
        utf8_len(p) <= MAX_PATH_LENGTH ==> truncated_path(p) == p,
        truncated_path(p) == p || utf8_len(truncated_path(p)) < utf8_len(p),
        last_index_of(p, '/') matches Some(l) ==> {
            let last = p.subrange(l + 1, p.len() as int);
            let shown = truncated_path(p);
            &&& shown.len() >= last.len()
            &&& shown.subrange(shown.len() - last.len(), shown.len() as int) == last
        },
{
    let shown = truncated_path(p);
    lemma_last_index_of_bounds(p, '/');
    if let Some(l) = last_index_of(p, '/') {
        let last = p.subrange(l + 1, p.len() as int);
        if shown != p {
            let f = find_from(p, 0, '/').unwrap();
            let first = p.subrange(0, f);
            if first.len() == 0 {
                assert(shown.subrange(shown.len() - last.len(), shown.len() as int) =~= last);
            } else {
                assert(shown.subrange(shown.len() - last.len(), shown.len() as int) =~= last);
            }
        } else {
            assert(p.subrange(p.len() - last.len(), p.len() as int) =~= last);
        }
    }
}

/// Shortens a long path to its first and last component.
pub fn truncate_path(path: &str) -> (r: String)
    ensures
        r@ == truncated_path(path@),
{
    let v = chars_of(path);
    if utf8_len_of(&v) <= MAX_PATH_LENGTH {
        return string_of(&v);
    }
    let f = match find_char_from(&v, 0, '/') {
        Some(f) => f,
        None => return string_of(&v),
    };
    let lr = last_char_index(&v, '/');
    let l = match lr {
        Some(l) => l,
        None => return string_of(&v),
    };
    let n = v.len();
    if f >= l {
        return string_of(&v);
    }
    let mut a = String::new();
    if f == 0 {
        push_char(&mut a, '.');
        push_char(&mut a, '.');
        push_char(&mut a, '.');
        push_char(&mut a, '/');
    } else {
        push_range(&mut a, &v, 0, f);
        push_char(&mut a, '/');
        push_char(&mut a, '.');
        push_char(&mut a, '.');
        push_char(&mut a, '.');
        push_char(&mut a, '/');
    }
    push_range(&mut a, &v, l + 1, n);
    assert(a@ =~= abbreviated_path(v@.subrange(0, f as int), v@.subrange(l + 1, v@.len() as int)));
    let ac = chars_of(a.as_str());
    if utf8_len_of(&ac) < utf8_len_of(&v) {
        a
    } else {
        string_of(&v)
    }
}

// ---------------------------------------------------------------------------
// Previews
// ---------------------------------------------------------------------------

/// `a - b`, or zero when `b` is larger (`usize::saturating_sub`).
pub open spec fn sat_sub(a: nat, b: nat) -> nat {
    if a >= b { (a - b) as nat } else { 0 }
}

/// `s.chars().skip(start).take(count)`.
pub open spec fn skip_take(s: Seq<char>, start: nat, count: nat) -> Seq<char> {
    let a = if start <= s.len() { start } else { s.len() };
    let b = if a + count <= s.len() { a + count } else { s.len() };
    s.subrange(a as int, b as int)
}

/// The bounds of `skip_take(s, start, count)` for a sequence of length `len`.
fn skip_take_bounds(len: usize, start: usize, count: usize) -> (r: (usize, usize))
    ensures
        r.0 <= r.1 <= len,
        r.0 == (if start <= len { start } else { len }),
        r.1 == (if r.0 + count <= len { r.0 + count } else { len as int }),
{
    let a = if start <= len { start } else { len };
    let b = if count <= len - a { a + count } else { len };
    (a, b)
}

/// The three dots that mark left-out text.
pub open spec fn ellipsis() -> Seq<char> {
    seq!['.', '.', '.']
}

/// The context kept on each side of a match that fits in `w` columns:
/// `(before, after)`.
pub open spec fn context_sides(ms: nat, me: nat, w: nat) -> (nat, nat) {
    let rem = sat_sub(w, sat_sub(me, ms));
    let before = rem / 2;
    (before, sat_sub(rem, before))
}

/// The bytes `[start, end)` of the line that a preview of width `w` shows,
/// when the match fits: `start` is `before` bytes ahead of the match, `end`
/// `after` bytes past it but not past the line.
pub open spec fn preview_span(line: Seq<char>, ms: nat, me: nat, w: nat) -> (nat, nat) {
    let (before, after) = context_sides(ms, me, w);
    let total = utf8_len(line);
    (sat_sub(ms, before), if total <= me + after { total } else { me + after })
}

/// The inputs on which a preview is defined: the width is small, or the
/// match does not fit, or the end of the shown span does not overflow and
/// does not lie before its start.
pub open spec fn preview_defined(line: Seq<char>, ms: nat, me: nat, w: nat) -> bool {
    ||| w < 10
    ||| sat_sub(me, ms) >= w
    ||| me + context_sides(ms, me, w).1 <= usize::MAX && preview_span(line, ms, me, w).0
        <= preview_span(line, ms, me, w).1
}

/// A line shortened to about `w` columns around the match `[ms, me)`.
/// Below ten columns it is `...`; a match as wide as `w` is shown from its
/// start, cut to `w - 3` characters, followed by `...`; otherwise the span
/// around the match is shown with `...` where text was left out on either
/// side, tabs widened to four spaces and surrounding whitespace trimmed.
/// (The span is measured in bytes and taken in characters.)
pub open spec fn context_preview(line: Seq<char>, ms: nat, me: nat, w: nat) -> Seq<char> {
    if w < 10 {
        ellipsis()
    } else if sat_sub(me, ms) >= w {
        skip_take(line, ms, (w - 3) as nat) + ellipsis()
    } else {
        let (ps, pe) = preview_span(line, ms, me, w);
        let body = (if ps > 0 { ellipsis() } else { Seq::empty() }) + skip_take(line, ps, (pe - ps) as nat)
            + (if pe < utf8_len(line) { ellipsis() } else { Seq::empty() });
        trim(expand_tabs(body))
    }
}

fn push_ellipsis(v: &mut Vec<char>)
    ensures
        final(v)@ == old(v)@ + ellipsis(),
{
    v.push('.');
    v.push('.');
    v.push('.');
}

/// A preview of `line_content` of about `max_width` columns centred on the
/// match between the byte offsets `match_start` and `match_end`.
pub fn create_context_preview(line_content: &str, match_start: usize, match_end: usize, max_width: usize)
    -> (r: String)
    requires
        preview_defined(line_content@, match_start as nat, match_end as nat, max_width as nat),
    ensures
        r@ == context_preview(line_content@, match_start as nat, match_end as nat, max_width as nat),
{
    if max_width < 10 {
        let mut e: Vec<char> = Vec::new();
        push_ellipsis(&mut e);
        return string_of(&e);
    }
    let v = chars_of(line_content);
    let match_length = match_end.saturating_sub(match_start);
    if match_length >= max_width {
        let (a, b) = skip_take_bounds(v.len(), match_start, max_width - 3);
        let mut out: Vec<char> = Vec::new();
        let mut k = a;
        while k < b
            invariant
                a <= k <= b <= v@.len(),
                out@ == v@.subrange(a as int, k as int),
            decreases b - k,
        {
            out.push(v[k]);
            k = k + 1;
        }
        push_ellipsis(&mut out);
        return string_of(&out);
    }
    let remaining = max_width - match_length;
    let before = remaining / 2;
    let after = remaining - before;
    let preview_start = match_start.saturating_sub(before);
    let total = utf8_len_of(&v);
    let reach = match_end + after;
    let preview_end: usize = if total <= reach as u128 { total as usize } else { reach };
    assert(preview_span(v@, match_start as nat, match_end as nat, max_width as nat)
        == (preview_start as nat, preview_end as nat));
    let mut body: Vec<char> = Vec::new();
    if preview_start > 0 {
        push_ellipsis(&mut body);
    }
    let ghost head = body@;
    let (a, b) = skip_take_bounds(v.len(), preview_start, preview_end - preview_start);
    let mut k = a;
    while k < b
        invariant
            a <= k <= b <= v@.len(),
            body@ == head + v@.subrange(a as int, k as int),
        decreases b - k,
    {
        body.push(v[k]);
        k = k + 1;
    }
    if (preview_end as u128) < total {
        push_ellipsis(&mut body);
    }
    let e = expand_tabs_vec(&body);
    let (x, y) = trim_bounds(&e);
    string_of_range(&e, x, y)
}

// ---------------------------------------------------------------------------
// Column padding
// ---------------------------------------------------------------------------

/// `s` padded with spaces to `width` characters (`format!("{:<width$}")`).
pub open spec fn pad_right(s: Seq<char>, width: nat) -> Seq<char> {
    if s.len() >= width {
        s
    } else {
        s + Seq::new((width - s.len()) as nat, |i: int| ' ')
    }
}

/// Appends `s` padded with spaces to `width` characters.
pub fn push_padded(out: &mut String, s: &str, width: usize)
    ensures
        final(out)@ == old(out)@ + pad_right(s@, width as nat),
{
    push_str(out, s);
    let n = chars_of(s).len();
    if n >= width {
        assert(out@ =~= old(out)@ + pad_right(s@, width as nat));
        return;
    }
    let ghost base = old(out)@ + s@;
    let mut k = n;
    assert(out@ =~= base + Seq::new((k - n) as nat, |i: int| ' '));
    while k < width
        invariant
            n == s@.len(),
            n <= k <= width,
            out@ == base + Seq::new((k - n) as nat, |i: int| ' '),
        decreases width - k,
    {
        push_char(out, ' ');
        assert(Seq::new((k + 1 - n) as nat, |i: int| ' ') =~= Seq::new((k - n) as nat, |i: int| ' ').push(' '));
        k = k + 1;
    }
    assert(out@ =~= old(out)@ + pad_right(s@, width as nat));
}

} // verus!
