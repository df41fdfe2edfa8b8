//! Layouts of content search hits with the match highlighted: under a file
//! heading (`line:text`) or inline (`path:line:text`).

use vstd::prelude::*;
use crate::display::{SearchResult, DisplayInfo, FormattedResult, FormattedView, Color, ResultFormatter,
    content_colors, make_content_colors};
use crate::display::utils::{ansi_code, color_to_ansi, relative_path, get_relative_path, utf8_width, utf8_len,
    char_utf8_width, utf8_len_range, sat_sub};
use crate::text::{decimal, trim, trim_start, expand_tabs, expand_tabs_vec, trim_bounds, chars_of, push_decimal,
    push_str, push_char, push_range};

verus! {

/// The number of leading characters of `s` that fit in `b` bytes: the
/// character boundary at or before byte `b` (the end for `b` past it).
pub open spec fn chars_within(s: Seq<char>, b: int) -> nat
    decreases s.len(),
{
    if s.len() == 0 || b < utf8_width(s[0]) {
        0
    } else {
        1 + chars_within(s.drop_first(), b - utf8_width(s[0]))
    }
}

/// The number of leading characters of `s` needed to cover `b` bytes: the
/// character boundary at or after byte `b` (the end for `b` past it).
pub open spec fn chars_reaching(s: Seq<char>, b: int) -> nat
    decreases s.len(),
{
    if s.len() == 0 || b <= 0 {
        0
    } else {
        1 + chars_reaching(s.drop_first(), b - utf8_width(s[0]))
    }
}

/// `content` with the bytes `[s, e)`, widened to character boundaries,
/// in the highlight colour and the rest in white; unchanged when the
/// widened range is empty or starts at the end.
pub open spec fn highlighted(content: Seq<char>, s: nat, e: nat) -> Seq<char> {
    let a = chars_within(content, s as int);
    let b = chars_reaching(content, e as int);
    if a >= content.len() || a >= b {
        content
    } else {
        ansi_code(Color::White) + content.take(a as int) + ansi_code(Color::Yellow) + content.subrange(
            a as int,
            b as int,
        ) + ansi_code(Color::Reset) + ansi_code(Color::White) + content.skip(b as int)
    }
}

/// The shown text of a hit: the line with tabs widened and whitespace
/// trimmed, the match (moved by the trimmed bytes) highlighted when colours
/// are on and it lies non-empty within the text.
pub open spec fn shown_content(line: Seq<char>, ms: nat, me: nat, colors: bool) -> Seq<char> {
    let t = expand_tabs(line);
    let shift = sat_sub(utf8_len(t), utf8_len(trim_start(t)));
    let content = trim(t);
    let s = sat_sub(ms, shift);
    let e = sat_sub(me, shift);
    if colors && s < utf8_len(content) && e <= utf8_len(content) && s < e {
        highlighted(content, s, e)
    } else {
        content
    }
}

fn chars_within_of(v: &Vec<char>, b: u128) -> (k: usize)
    ensures
        k == chars_within(v@, b as int),
        k <= v@.len(),
{
    let mut i: usize = 0;
    let mut acc: u128 = 0;
    assert(v@.skip(0) =~= v@);
    while i < v.len() && acc + char_utf8_width(v[i]) <= b
        invariant
            i <= v@.len(),
            acc <= b,
            acc <= 4 * i,
            chars_within(v@, b as int) == i + chars_within(v@.skip(i as int), b - acc),
        decreases v@.len() - i,
    {
        let w = char_utf8_width(v[i]);
        assert(v@.skip(i as int).drop_first() =~= v@.skip(i + 1));
        acc = acc + w;
        i = i + 1;
    }
    i
}

fn chars_reaching_of(v: &Vec<char>, b: u128) -> (k: usize)
    ensures
        k == chars_reaching(v@, b as int),
        k <= v@.len(),
{
    let mut i: usize = 0;
    let mut acc: u128 = 0;
    assert(v@.skip(0) =~= v@);
    while i < v.len() && acc < b
        invariant
            i <= v@.len(),
            acc <= b + 4,
            acc <= 4 * i,
            chars_reaching(v@, b as int) == i + chars_reaching(v@.skip(i as int), b - acc),
        decreases v@.len() - i,
    {
        let w = char_utf8_width(v[i]);
        assert(v@.skip(i as int).drop_first() =~= v@.skip(i + 1));
        acc = acc + w;
        i = i + 1;
    }
    i
}

/// Appends `highlighted(content, s, e)`.
fn push_highlighted(out: &mut String, content: &Vec<char>, s: u128, e: u128)
    ensures
        final(out)@ == old(out)@ + highlighted(content@, s as nat, e as nat),
{
    let a = chars_within_of(content, s);
    let b = chars_reaching_of(content, e);
    if a >= content.len() || a >= b {
        push_range(out, content, 0, content.len());
        assert(content@.subrange(0, content@.len() as int) =~= content@);
        return;
    }
    push_str(out, color_to_ansi(&Color::White));
    push_range(out, content, 0, a);
    push_str(out, color_to_ansi(&Color::Yellow));
    push_range(out, content, a, b);
    push_str(out, color_to_ansi(&Color::Reset));
    push_str(out, color_to_ansi(&Color::White));
    push_range(out, content, b, content.len());
    assert(final(out)@ =~= old(out)@ + highlighted(content@, s as nat, e as nat));
}

/// Appends `shown_content(line, ms, me, colors)`.
fn push_shown_content(out: &mut String, line: &str, ms: usize, me: usize, colors: bool)
    ensures
        final(out)@ == old(out)@ + shown_content(line@, ms as nat, me as nat, colors),
{
    let t = expand_tabs_vec(&chars_of(line));
    let (x, y) = trim_bounds(&t);
    let total = utf8_len_range(&t, 0, t.len());
    let rest = utf8_len_range(&t, x, t.len());
    assert(t@.subrange(0, t@.len() as int) =~= t@);
    let shift: u128 = if total >= rest { total - rest } else { 0 };
    let content: Vec<char> = {
        let mut c: Vec<char> = Vec::new();
        let mut k = x;
        while k < y
            invariant
                x <= k <= y <= t@.len(),
                c@ == t@.subrange(x as int, k as int),
            decreases y - k,
        {
            c.push(t[k]);
            k = k + 1;
        }
        c
    };
    let clen = utf8_len_range(&content, 0, content.len());
    assert(content@.subrange(0, content@.len() as int) =~= content@);
    let s: u128 = if (ms as u128) >= shift { ms as u128 - shift } else { 0 };
    let e: u128 = if (me as u128) >= shift { me as u128 - shift } else { 0 };
    if colors && s < clen && e <= clen && s < e {
        push_highlighted(out, &content, s, e);
    } else {
        push_range(out, &content, 0, content.len());
        assert(content@.subrange(0, content@.len() as int) =~= content@);
    }
}

/// Content hits under a file heading: `line:text`, with the path as the
/// right column for the heading.
pub struct ContentHeadingFormatter {
    project_root: String,
    enable_colors: bool,
}

/// Content hits one per line: `path:line:text`.
pub struct ContentInlineFormatter {
    project_root: String,
    enable_colors: bool,
}

/// The settings of a content formatter.
pub struct ContentSettings {
    pub root: Seq<char>,
    pub colors: bool,
}

impl View for ContentHeadingFormatter {
    type V = ContentSettings;

    closed spec fn view(&self) -> ContentSettings {
        ContentSettings { root: self.project_root@, colors: self.enable_colors }
    }
}

impl View for ContentInlineFormatter {
    type V = ContentSettings;

    closed spec fn view(&self) -> ContentSettings {
        ContentSettings { root: self.project_root@, colors: self.enable_colors }
    }
}

/// The heading layout of a content hit.
pub open spec fn heading_layout(root: Seq<char>, colors: bool, r: SearchResult) -> FormattedView {
    match r.display_info {
        DisplayInfo::Content { line_content, match_start, match_end } => FormattedView {
            left: decimal(r.line as nat) + seq![':'] + shown_content(
                line_content@,
                match_start as nat,
                match_end as nat,
                colors,
            ),
            right: relative_path(r.file_path@, root),
            colors: content_colors(),
        },
        _ => FormattedView { left: Seq::empty(), right: Seq::empty(), colors: content_colors() },
    }
}

/// The inline layout of a content hit.
pub open spec fn inline_layout(root: Seq<char>, colors: bool, r: SearchResult) -> FormattedView {
    match r.display_info {
        DisplayInfo::Content { line_content, match_start, match_end } => FormattedView {
            left: relative_path(r.file_path@, root) + seq![':'] + decimal(r.line as nat) + seq![':']
                + shown_content(line_content@, match_start as nat, match_end as nat, colors),
            right: Seq::empty(),
            colors: content_colors(),
        },
        _ => FormattedView { left: Seq::empty(), right: Seq::empty(), colors: content_colors() },
    }
}

/// A highlighted entry as output: with colours on, followed by a reset.
pub open spec fn highlighted_line(f: FormattedView, colors: bool) -> Seq<char> {
    if colors { f.left + ansi_code(Color::Reset) } else { f.left }
}

fn highlighted_line_of(formatted: &FormattedResult, colors: bool) -> (r: String)
    ensures
        r@ == highlighted_line(formatted@, colors),
{
    let mut s = String::new();
    push_str(&mut s, formatted.left_part.as_str());
    if colors {
        push_str(&mut s, color_to_ansi(&Color::Reset));
    }
    s
}

impl ContentHeadingFormatter {
    /// A formatter for paths below `project_root`; colours are on.
    pub fn new(project_root: String) -> (f: ContentHeadingFormatter)
        ensures
            f@ == (ContentSettings { root: project_root@, colors: true }),
    {
        ContentHeadingFormatter { project_root, enable_colors: true }
    }
}

impl ContentInlineFormatter {
    /// A formatter for paths below `project_root`, with colours when output
    /// goes to a terminal.
    pub fn new(project_root: String, enable_colors: bool) -> (f: ContentInlineFormatter)
        ensures
            f@ == (ContentSettings { root: project_root@, colors: enable_colors }),
    {
        ContentInlineFormatter { project_root, enable_colors }
    }
}

impl ResultFormatter for ContentHeadingFormatter {
    /// Only content hits.
    open spec fn accepts(&self, result: &SearchResult) -> bool {
        result.display_info is Content
    }

    fn format_result(&self, result: &SearchResult) -> (r: FormattedResult)
        ensures
            r@ == heading_layout(self@.root, self@.colors, *result),
    {
        match &result.display_info {
            DisplayInfo::Content { line_content, match_start, match_end } => {
                let rel = get_relative_path(result.file_path.as_str(), self.project_root.as_str());
                let mut left = String::new();
                push_decimal(&mut left, result.line as u64);
                push_char(&mut left, ':');
                push_shown_content(&mut left, line_content.as_str(), *match_start, *match_end, self.enable_colors);
                assert(left@ =~= decimal(result.line as nat) + seq![':'] + shown_content(
                    line_content@, *match_start as nat, *match_end as nat, self.enable_colors));
                FormattedResult { left_part: left, right_part: rel, color_info: make_content_colors() }
            },
            _ => FormattedResult {
                left_part: String::new(),
                right_part: String::new(),
                color_info: make_content_colors(),
            },
        }
    }

    fn to_colored_string(&self, formatted: &FormattedResult) -> (r: String)
        ensures
            r@ == highlighted_line(formatted@, self@.colors),
    {
        highlighted_line_of(formatted, self.enable_colors)
    }
}

impl ResultFormatter for ContentInlineFormatter {
    /// Only content hits.
    open spec fn accepts(&self, result: &SearchResult) -> bool {
        result.display_info is Content
    }

    fn format_result(&self, result: &SearchResult) -> (r: FormattedResult)
        ensures
            r@ == inline_layout(self@.root, self@.colors, *result),
    {
        match &result.display_info {
            DisplayInfo::Content { line_content, match_start, match_end } => {
                let rel = get_relative_path(result.file_path.as_str(), self.project_root.as_str());
                let mut left = String::new();
                push_str(&mut left, rel.as_str());
                push_char(&mut left, ':');
                push_decimal(&mut left, result.line as u64);
                push_char(&mut left, ':');
                push_shown_content(&mut left, line_content.as_str(), *match_start, *match_end, self.enable_colors);
                assert(left@ =~= rel@ + seq![':'] + decimal(result.line as nat) + seq![':'] + shown_content(
                    line_content@, *match_start as nat, *match_end as nat, self.enable_colors));
                FormattedResult { left_part: left, right_part: String::new(), color_info: make_content_colors() }
            },
            _ => FormattedResult {
                left_part: String::new(),
                right_part: String::new(),
                color_info: make_content_colors(),
            },
        }
    }

    fn to_colored_string(&self, formatted: &FormattedResult) -> (r: String)
        ensures
            r@ == highlighted_line(formatted@, self@.colors),
    {
        highlighted_line_of(formatted, self.enable_colors)
    }
}

} // verus!
