//! The column layout of results: location on the left, line preview on the
//! right (or symbol and location, or file and directory).

use vstd::prelude::*;
use crate::display::{SearchResult, DisplayInfo, FormattedResult, FormattedView, Color, content_colors,
    symbol_colors, file_colors, make_content_colors, make_symbol_colors, make_file_colors};
use crate::display::utils::{ansi_code, color_to_ansi, relative_path, get_relative_path, truncated_path,
    truncate_path, utf8_len, utf8_len_of, sat_sub, preview_defined, context_preview,
    create_context_preview, pad_right, push_padded};
use crate::types::symbol_type_icon;
use crate::text::{decimal, trim, expand_tabs, normalize_line, push_decimal, push_str, push_char, chars_of};
use crate::pathutil::{parent_of, path_parent};

verus! {

/// The location of a hit: `path:line:column`.
pub open spec fn location_text(rel: Seq<char>, line: u32, column: u32) -> Seq<char> {
    rel + seq![':'] + decimal(line as nat) + seq![':'] + decimal(column as nat)
}

/// The path shown for a result: relative to the root, and shortened when
/// the layout truncates.
pub open spec fn shown_path(abs: Seq<char>, root: Seq<char>, truncate: bool) -> Seq<char> {
    let rel = relative_path(abs, root);
    if truncate { truncated_path(rel) } else { rel }
}

/// The width left for a preview beside a location, after a margin of four.
pub open spec fn preview_width(terminal_width: nat, location: Seq<char>) -> nat {
    sat_sub(terminal_width, utf8_len(location) + 4)
}

/// The directory of a relative path, or `./` when it has none.
pub open spec fn parent_dir(rel: Seq<char>) -> Seq<char> {
    match parent_of(rel) {
        Some(p) => p,
        None => "./"@,
    }
}

/// The columns of a content or pattern hit: its location, and the line
/// (previewed around the match when truncating, else whole with tabs
/// widened and whitespace trimmed).
pub open spec fn content_columns(
    rel: Seq<char>,
    line: u32,
    column: u32,
    text: Seq<char>,
    ms: nat,
    me: nat,
    terminal_width: nat,
    truncate: bool,
) -> FormattedView {
    let loc = location_text(rel, line, column);
    FormattedView {
        left: loc,
        right: if truncate {
            context_preview(text, ms, me, preview_width(terminal_width, loc))
        } else {
            trim(expand_tabs(text))
        },
        colors: content_colors(),
    }
}

/// The column layout of a result for the given root, width and truncation.
pub open spec fn column_layout(root: Seq<char>, terminal_width: nat, truncate: bool, r: SearchResult) -> FormattedView {
    let rel = shown_path(r.file_path@, root, truncate);
    match r.display_info {
        DisplayInfo::Content { line_content, match_start, match_end } => content_columns(
            rel, r.line, r.column, line_content@, match_start as nat, match_end as nat, terminal_width, truncate),
        DisplayInfo::Regex { line_content, matched_text, match_start, match_end } => content_columns(
            rel, r.line, r.column, line_content@, match_start as nat, match_end as nat, terminal_width, truncate),
        DisplayInfo::Symbol { name, symbol_type } => FormattedView {
            left: symbol_type_icon(symbol_type) + seq![' '] + name@,
            right: rel + seq![':'] + decimal(r.line as nat),
            colors: symbol_colors(),
        },
        DisplayInfo::File { path, is_directory } => FormattedView {
            left: "📄 "@ + path@,
            right: parent_dir(rel),
            colors: file_colors(),
        },
    }
}

/// A pattern hit is laid out exactly like a content hit with the same
/// line and match positions, whatever text it matched.
pub proof fn lemma_regex_laid_out_as_content(
    root: Seq<char>,
    terminal_width: nat,
    truncate: bool,
    r1: SearchResult,
    r2: SearchResult,
)
    requires
        r1.file_path == r2.file_path,
        r1.line == r2.line,
        r1.column == r2.column,
        r1.display_info matches DisplayInfo::Regex { line_content: l1, match_start: s1, match_end: e1, .. }
            && r2.display_info matches DisplayInfo::Content { line_content: l2, match_start: s2, match_end: e2 }
            && l1 == l2 && s1 == s2 && e1 == e2,
    ensures
        column_layout(root, terminal_width, truncate, r1) == column_layout(root, terminal_width, truncate, r2),
        previews_defined(root, r1, terminal_width) == previews_defined(root, r2, terminal_width),
{
}

/// The match positions of a content or pattern result admit the preview
/// that the shortened column layout makes of it (see [`preview_defined`]):
/// one as wide as the terminal leaves beside the result's location.
pub open spec fn previews_defined(root: Seq<char>, r: SearchResult, terminal_width: nat) -> bool {
    let loc = location_text(shown_path(r.file_path@, root, true), r.line, r.column);
    match r.display_info {
        DisplayInfo::Content { line_content, match_start, match_end } => preview_defined(
            line_content@, match_start as nat, match_end as nat, preview_width(terminal_width, loc)),
        DisplayInfo::Regex { line_content, matched_text, match_start, match_end } => preview_defined(
            line_content@, match_start as nat, match_end as nat, preview_width(terminal_width, loc)),
        _ => true,
    }
}

/// A formatted result as one line: the left column padded to `width`, a
/// space and the right column; with colours, the left column in the content
/// colour and the right one in the path colour, each followed by a reset.
pub open spec fn colored_columns(f: FormattedView, colors: bool, width: nat) -> Seq<char> {
    if colors {
        ansi_code(f.colors.content_color) + pad_right(f.left, width) + ansi_code(Color::Reset) + seq![' ']
            + ansi_code(f.colors.path_color) + f.right + ansi_code(Color::Reset)
    } else {
        pad_right(f.left, width) + seq![' '] + f.right
    }
}

/// The width of the left column in the column layout.
pub const LEFT_COLUMN_WIDTH: usize = 40;

/// The shown path of a result.
pub(crate) fn shown_path_of(abs: &str, root: &str, truncate: bool) -> (r: String)
    ensures
        r@ == shown_path(abs@, root@, truncate),
{
    let rel = get_relative_path(abs, root);
    if truncate {
        truncate_path(rel.as_str())
    } else {
        rel
    }
}

fn content_columns_of(
    rel: &str,
    line: u32,
    column: u32,
    text: &str,
    ms: usize,
    me: usize,
    terminal_width: usize,
    truncate: bool,
) -> (r: FormattedResult)
    requires
        truncate ==> preview_defined(
            text@,
            ms as nat,
            me as nat,
            preview_width(terminal_width as nat, location_text(rel@, line, column)),
        ),
    ensures
        r@ == content_columns(rel@, line, column, text@, ms as nat, me as nat, terminal_width as nat, truncate),
{
    let mut loc = String::new();
    push_str(&mut loc, rel);
    push_char(&mut loc, ':');
    push_decimal(&mut loc, line as u64);
    push_char(&mut loc, ':');
    push_decimal(&mut loc, column as u64);
    assert(loc@ =~= location_text(rel@, line, column));
    let right = if truncate {
        let lc = chars_of(loc.as_str());
        let ll = utf8_len_of(&lc);
        let avail: usize = if (terminal_width as u128) >= ll + 4 {
            (terminal_width as u128 - ll - 4) as usize
        } else {
            0
        };
        assert(avail as nat == preview_width(terminal_width as nat, loc@));
        assert(preview_defined(text@, ms as nat, me as nat, avail as nat));
        create_context_preview(text, ms, me, avail)
    } else {
        normalize_line(text)
    };
    FormattedResult { left_part: loc, right_part: right, color_info: make_content_colors() }
}

/// The column layout of `result` (see [`column_layout`]).
pub(crate) fn layout_columns(root: &str, terminal_width: usize, truncate: bool, result: &SearchResult)
    -> (r: FormattedResult)
    requires
        truncate ==> previews_defined(root@, *result, terminal_width as nat),
    ensures
        r@ == column_layout(root@, terminal_width as nat, truncate, *result),
{
    let rel = shown_path_of(result.file_path.as_str(), root, truncate);
    match &result.display_info {
        DisplayInfo::Content { line_content, match_start, match_end } => content_columns_of(
            rel.as_str(), result.line, result.column, line_content.as_str(), *match_start, *match_end,
            terminal_width, truncate),
        DisplayInfo::Regex { line_content, matched_text: _, match_start, match_end } => content_columns_of(
            rel.as_str(), result.line, result.column, line_content.as_str(), *match_start, *match_end,
            terminal_width, truncate),
        DisplayInfo::Symbol { name, symbol_type } => {
            let mut left = String::new();
            push_str(&mut left, symbol_type.icon());
            push_char(&mut left, ' ');
            push_str(&mut left, name.as_str());
            let mut right = String::new();
            push_str(&mut right, rel.as_str());
            push_char(&mut right, ':');
            push_decimal(&mut right, result.line as u64);
            assert(left@ =~= symbol_type_icon(*symbol_type) + seq![' '] + name@);
            assert(right@ =~= rel@ + seq![':'] + decimal(result.line as nat));
            FormattedResult { left_part: left, right_part: right, color_info: make_symbol_colors() }
        },
        DisplayInfo::File { path, is_directory: _ } => {
            let mut left = String::new();
            push_str(&mut left, "📄 ");
            push_str(&mut left, path.as_str());
            assert(left@ =~= "📄 "@ + path@);
            let right = match path_parent(rel.as_str()) {
                Some(p) => p,
                None => "./".to_owned(),
            };
            FormattedResult { left_part: left, right_part: right, color_info: make_file_colors() }
        },
    }
}

/// A formatted result as one line of the column layout.
pub(crate) fn columns_line(formatted: &FormattedResult, colors: bool) -> (r: String)
    ensures
        r@ == colored_columns(formatted@, colors, LEFT_COLUMN_WIDTH as nat),
{
    columns_line_width(formatted, colors, LEFT_COLUMN_WIDTH)
}

/// A formatted result as one line, its left column padded to `width`.
pub(crate) fn columns_line_width(formatted: &FormattedResult, colors: bool, width: usize) -> (r: String)
    ensures
        r@ == colored_columns(formatted@, colors, width as nat),
{
    let mut s = String::new();
    if colors {
        push_str(&mut s, color_to_ansi(&formatted.color_info.content_color));
        push_padded(&mut s, formatted.left_part.as_str(), width);
        push_str(&mut s, color_to_ansi(&Color::Reset));
        push_char(&mut s, ' ');
        push_str(&mut s, color_to_ansi(&formatted.color_info.path_color));
        push_str(&mut s, formatted.right_part.as_str());
        push_str(&mut s, color_to_ansi(&Color::Reset));
    } else {
        push_padded(&mut s, formatted.left_part.as_str(), width);
        push_char(&mut s, ' ');
        push_str(&mut s, formatted.right_part.as_str());
    }
    s
}

/// The settings of a [`DisplayFormatter`].
pub struct DisplaySettings {
    pub root: Seq<char>,
    pub width: nat,
    pub colors: bool,
    pub truncate: bool,
}

/// Lays out results in two columns; for the interactive view it shortens
/// paths and previews lines to the terminal width, for the command line it
/// shows them whole.
pub struct DisplayFormatter {
    terminal_width: usize,
    enable_colors: bool,
    project_root: String,
    enable_truncation: bool,
}

impl View for DisplayFormatter {
    type V = DisplaySettings;

    closed spec fn view(&self) -> DisplaySettings {
        DisplaySettings {
            root: self.project_root@,
            width: self.terminal_width as nat,
            colors: self.enable_colors,
            truncate: self.enable_truncation,
        }
    }
}

impl DisplayFormatter {
    /// A formatter for the interactive view (shortening on) for a terminal
    /// of `terminal_width` columns.
    pub fn new(project_root: String, terminal_width: usize, enable_colors: bool) -> (f: DisplayFormatter)
        ensures
            f@ == (DisplaySettings {
                root: project_root@,
                width: terminal_width as nat,
                colors: enable_colors,
                truncate: true,
            }),
    {
        DisplayFormatter { terminal_width, enable_colors, project_root, enable_truncation: true }
    }

    /// A formatter for command-line output (shortening off).
    pub fn new_for_cli(project_root: String, terminal_width: usize, enable_colors: bool) -> (f: DisplayFormatter)
        ensures
            f@ == (DisplaySettings {
                root: project_root@,
                width: terminal_width as nat,
                colors: enable_colors,
                truncate: false,
            }),
    {
        DisplayFormatter { terminal_width, enable_colors, project_root, enable_truncation: false }
    }

    /// A formatter with every setting given.
    pub fn with_settings(project_root: String, terminal_width: usize, enable_colors: bool, enable_truncation: bool)
        -> (f: DisplayFormatter)
        ensures
            f@ == (DisplaySettings {
                root: project_root@,
                width: terminal_width as nat,
                colors: enable_colors,
                truncate: enable_truncation,
            }),
    {
        DisplayFormatter { terminal_width, enable_colors, project_root, enable_truncation }
    }

    /// The result in the column layout.
    pub fn format_result(&self, result: &SearchResult) -> (r: FormattedResult)
        requires
            self@.truncate ==> previews_defined(self@.root, *result, self@.width),
        ensures
            r@ == column_layout(self@.root, self@.width, self@.truncate, *result),
    {
        layout_columns(self.project_root.as_str(), self.terminal_width, self.enable_truncation, result)
    }

    /// A formatted result as one output line, coloured if enabled.
    pub fn to_colored_string(&self, formatted: &FormattedResult) -> (r: String)
        ensures
            r@ == colored_columns(formatted@, self@.colors, LEFT_COLUMN_WIDTH as nat),
    {
        columns_line(formatted, self.enable_colors)
    }

    /// A path shortened as the interactive view shows it.
    pub fn truncate_path(&self, path: &str) -> (r: String)
        ensures
            r@ == truncated_path(path@),
    {
        truncate_path(path)
    }

    /// A preview of a line around a match (see [`context_preview`]).
    pub fn create_context_preview(&self, line_content: &str, match_start: usize, match_end: usize, max_width: usize)
        -> (r: String)
        requires
            preview_defined(line_content@, match_start as nat, match_end as nat, max_width as nat),
        ensures
            r@ == context_preview(line_content@, match_start as nat, match_end as nat, max_width as nat),
    {
        create_context_preview(line_content, match_start, match_end, max_width)
    }
}

} // verus!
