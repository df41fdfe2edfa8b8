//! Plain command-line output: one `path:line:text` entry per result, paths
//! relative to the project root and never shortened.

use vstd::prelude::*;
use crate::display::{SearchResult, DisplayInfo, FormattedResult, FormattedView, ResultFormatter,
    content_colors, symbol_colors, file_colors, make_content_colors, make_symbol_colors, make_file_colors};
use crate::display::utils::{colored, relative_path, get_relative_path, apply_color};
use crate::types::symbol_type_icon;
use crate::text::{decimal, trim, expand_tabs, normalize_line, push_decimal, push_str, push_char};

verus! {

/// The command-line entry of a result; the right column stays empty.
/// Content and pattern hits read `path:line:text` (tabs widened, whitespace
/// trimmed), symbols `icon name:path:line`, files `📄 path`.
pub open spec fn cli_layout(root: Seq<char>, r: SearchResult) -> FormattedView {
    let rel = relative_path(r.file_path@, root);
    match r.display_info {
        DisplayInfo::Content { line_content, match_start, match_end } => FormattedView {
            left: rel + seq![':'] + decimal(r.line as nat) + seq![':'] + trim(expand_tabs(line_content@)),
            right: Seq::empty(),
            colors: content_colors(),
        },
        DisplayInfo::Regex { line_content, matched_text, match_start, match_end } => FormattedView {
            left: rel + seq![':'] + decimal(r.line as nat) + seq![':'] + trim(expand_tabs(line_content@)),
            right: Seq::empty(),
            colors: content_colors(),
        },
        DisplayInfo::Symbol { name, symbol_type } => FormattedView {
            left: symbol_type_icon(symbol_type) + name@ + seq![':'] + rel + seq![':'] + decimal(r.line as nat),
            right: Seq::empty(),
            colors: symbol_colors(),
        },
        DisplayInfo::File { path, is_directory } => FormattedView {
            left: "📄 "@ + rel,
            right: Seq::empty(),
            colors: file_colors(),
        },
    }
}

/// The settings of a [`CliFormatter`].
pub struct CliSettings {
    pub root: Seq<char>,
    pub colors: bool,
}

/// Formatter for command-line output.
pub struct CliFormatter {
    project_root: String,
    enable_colors: bool,
}

impl View for CliFormatter {
    type V = CliSettings;

    closed spec fn view(&self) -> CliSettings {
        CliSettings { root: self.project_root@, colors: self.enable_colors }
    }
}

impl CliFormatter {
    /// A formatter for paths below `project_root`; colours are off.
    pub fn new(project_root: String) -> (f: CliFormatter)
        ensures
            f@ == (CliSettings { root: project_root@, colors: false }),
    {
        CliFormatter { project_root, enable_colors: false }
    }
}

fn content_line(rel: &str, line: u32, text: &str) -> (r: FormattedResult)
    ensures
        r@ == (FormattedView {
            left: rel@ + seq![':'] + decimal(line as nat) + seq![':'] + trim(expand_tabs(text@)),
            right: Seq::empty(),
            colors: content_colors(),
        }),
{
    let mut left = String::new();
    push_str(&mut left, rel);
    push_char(&mut left, ':');
    push_decimal(&mut left, line as u64);
    push_char(&mut left, ':');
    let content = normalize_line(text);
    push_str(&mut left, content.as_str());
    assert(left@ =~= rel@ + seq![':'] + decimal(line as nat) + seq![':'] + trim(expand_tabs(text@)));
    FormattedResult { left_part: left, right_part: String::new(), color_info: make_content_colors() }
}

impl ResultFormatter for CliFormatter {
    open spec fn accepts(&self, result: &SearchResult) -> bool {
        true
    }

    fn format_result(&self, result: &SearchResult) -> (r: FormattedResult)
        ensures
            r@ == cli_layout(self@.root, *result),
    {
        let rel = get_relative_path(result.file_path.as_str(), self.project_root.as_str());
        match &result.display_info {
            DisplayInfo::Content { line_content, match_start: _, match_end: _ } => content_line(
                rel.as_str(), result.line, line_content.as_str()),
            DisplayInfo::Regex { line_content, matched_text: _, match_start: _, match_end: _ } => content_line(
                rel.as_str(), result.line, line_content.as_str()),
            DisplayInfo::Symbol { name, symbol_type } => {
                let mut left = String::new();
                push_str(&mut left, symbol_type.icon());
                push_str(&mut left, name.as_str());
                push_char(&mut left, ':');
                push_str(&mut left, rel.as_str());
                push_char(&mut left, ':');
                push_decimal(&mut left, result.line as u64);
                assert(left@ =~= symbol_type_icon(*symbol_type) + name@ + seq![':'] + rel@ + seq![':']
                    + decimal(result.line as nat));
                FormattedResult { left_part: left, right_part: String::new(), color_info: make_symbol_colors() }
            },
            DisplayInfo::File { path: _, is_directory: _ } => {
                let mut left = String::new();
                push_str(&mut left, "📄 ");
                push_str(&mut left, rel.as_str());
                assert(left@ =~= "📄 "@ + rel@);
                FormattedResult { left_part: left, right_part: String::new(), color_info: make_file_colors() }
            },
        }
    }

    /// The entry itself, or in the path colour when colours are on.
    fn to_colored_string(&self, formatted: &FormattedResult) -> (r: String)
        ensures
            r@ == (if self@.colors {
                colored(formatted@.left, formatted@.colors.path_color)
            } else {
                formatted@.left
            }),
    {
        apply_color(formatted.left_part.as_str(), &formatted.color_info.path_color, self.enable_colors)
    }
}

} // verus!
