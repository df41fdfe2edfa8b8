//! Turning search results into display lines: one layout for the
//! interactive view (paths and previews shortened to the terminal width),
//! one for plain command-line output, and the heading and inline layouts of
//! content and file searches.

pub mod utils;
pub mod display_formatter;
pub mod cli_formatter;
pub mod column_cli;
pub mod tui_formatter;
pub mod content_formatters;
pub mod file_formatters;

use vstd::prelude::*;
use crate::types::SymbolType;

pub use utils::{truncate_path, create_context_preview};
pub use display_formatter::DisplayFormatter;
pub use cli_formatter::CliFormatter;
pub use tui_formatter::TuiFormatter;
pub use content_formatters::{ContentHeadingFormatter, ContentInlineFormatter};
pub use file_formatters::{FileHeadingFormatter, FileInlineFormatter};

verus! {

/// Terminal colours used by the formatters.
#[derive(Debug, Clone, Copy, PartialEq, Eq, Structural)]
pub enum Color {
    Reset,
    Gray,
    Blue,
    Green,
    Yellow,
    Red,
    Cyan,
    White,
}

/// The colours of the parts of a formatted result.
#[derive(Debug, Clone, Copy, PartialEq, Eq, Structural)]
pub struct ColorInfo {
    pub path_color: Color,
    pub location_color: Color,
    pub content_color: Color,
    pub highlight_color: Color,
}

/// A result laid out as a left and a right column.
#[derive(Debug, Clone)]
pub struct FormattedResult {
    pub left_part: String,
    pub right_part: String,
    pub color_info: ColorInfo,
}

/// The text content of a [`FormattedResult`].
pub struct FormattedView {
    pub left: Seq<char>,
    pub right: Seq<char>,
    pub colors: ColorInfo,
}

impl View for FormattedResult {
    type V = FormattedView;

    open spec fn view(&self) -> FormattedView {
        FormattedView { left: self.left_part@, right: self.right_part@, colors: self.color_info }
    }
}

/// What a result shows, by the kind of search that found it. Match
/// positions are byte offsets into the line.
#[derive(Debug, Clone)]
pub enum DisplayInfo {
    Content { line_content: String, match_start: usize, match_end: usize },
    Symbol { name: String, symbol_type: SymbolType },
    File { path: String, is_directory: bool },
    Regex { line_content: String, matched_text: String, match_start: usize, match_end: usize },
}

/// A search result as the formatters receive it.
#[derive(Debug, Clone)]
pub struct SearchResult {
    /// The absolute path of the file.
    pub file_path: String,
    pub line: u32,
    pub column: u32,
    pub display_info: DisplayInfo,
}

/// The colours of content and pattern results.
pub open spec fn content_colors() -> ColorInfo {
    ColorInfo {
        path_color: Color::Blue,
        location_color: Color::Gray,
        content_color: Color::White,
        highlight_color: Color::Yellow,
    }
}

/// The colours of symbol results.
pub open spec fn symbol_colors() -> ColorInfo {
    ColorInfo {
        path_color: Color::Blue,
        location_color: Color::Gray,
        content_color: Color::Green,
        highlight_color: Color::Yellow,
    }
}

/// The colours of file results in the column layouts.
pub open spec fn file_colors() -> ColorInfo {
    ColorInfo {
        path_color: Color::Blue,
        location_color: Color::Gray,
        content_color: Color::Cyan,
        highlight_color: Color::Yellow,
    }
}

pub(crate) fn make_content_colors() -> (c: ColorInfo)
    ensures
        c == content_colors(),
{
    ColorInfo {
        path_color: Color::Blue,
        location_color: Color::Gray,
        content_color: Color::White,
        highlight_color: Color::Yellow,
    }
}

pub(crate) fn make_symbol_colors() -> (c: ColorInfo)
    ensures
        c == symbol_colors(),
{
    ColorInfo {
        path_color: Color::Blue,
        location_color: Color::Gray,
        content_color: Color::Green,
        highlight_color: Color::Yellow,
    }
}

pub(crate) fn make_file_colors() -> (c: ColorInfo)
    ensures
        c == file_colors(),
{
    ColorInfo {
        path_color: Color::Blue,
        location_color: Color::Gray,
        content_color: Color::Cyan,
        highlight_color: Color::Yellow,
    }
}

/// A formatter of search results. `accepts` says which results it lays out.
pub trait ResultFormatter {
    spec fn accepts(&self, result: &SearchResult) -> bool;

    /// The result laid out in columns.
    fn format_result(&self, result: &SearchResult) -> (r: FormattedResult)
        requires
            self.accepts(result),
    ;

    /// A formatted result as one line of output, coloured if enabled.
    fn to_colored_string(&self, formatted: &FormattedResult) -> (r: String);
}

} // verus!
