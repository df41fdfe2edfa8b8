//! The interactive view's layout: the column layout with paths and
//! previews shortened to the terminal width.

use vstd::prelude::*;
use crate::display::{SearchResult, FormattedResult, FormattedView, ResultFormatter};
use crate::display::display_formatter::{DisplayFormatter, column_layout, previews_defined, colored_columns, layout_columns,
    columns_line, LEFT_COLUMN_WIDTH};

verus! {

/// The settings of a [`TuiFormatter`].
pub struct TuiSettings {
    pub root: Seq<char>,
    pub width: nat,
    pub colors: bool,
}

/// Formatter for the interactive view.
pub struct TuiFormatter {
    terminal_width: usize,
    enable_colors: bool,
    project_root: String,
}

impl View for TuiFormatter {
    type V = TuiSettings;

    closed spec fn view(&self) -> TuiSettings {
        TuiSettings { root: self.project_root@, width: self.terminal_width as nat, colors: self.enable_colors }
    }
}

impl TuiFormatter {
    /// A formatter for paths below `project_root` on a terminal of
    /// `terminal_width` columns.
    pub fn new(project_root: String, terminal_width: usize, enable_colors: bool) -> (f: TuiFormatter)
        ensures
            f@ == (TuiSettings { root: project_root@, width: terminal_width as nat, colors: enable_colors }),
    {
        TuiFormatter { terminal_width, enable_colors, project_root }
    }
}

impl ResultFormatter for TuiFormatter {
    open spec fn accepts(&self, result: &SearchResult) -> bool {
        previews_defined(self@.root, *result, self@.width)
    }

    /// The column layout, shortened to the terminal width.
    fn format_result(&self, result: &SearchResult) -> (r: FormattedResult)
        ensures
            r@ == column_layout(self@.root, self@.width, true, *result),
    {
        layout_columns(self.project_root.as_str(), self.terminal_width, true, result)
    }

    fn to_colored_string(&self, formatted: &FormattedResult) -> (r: String)
        ensures
            r@ == colored_columns(formatted@, self@.colors, LEFT_COLUMN_WIDTH as nat),
    {
        columns_line(formatted, self.enable_colors)
    }
}

/// The interactive view's formatter and a shortening display formatter
/// with the same root, width and colours lay out and print every result
/// alike.
pub proof fn lemma_tui_matches_display(t: TuiFormatter, d: DisplayFormatter, r: SearchResult, f: FormattedView)
    requires
        t@.root == d@.root,
        t@.width == d@.width,
        t@.colors == d@.colors,
        d@.truncate,
    ensures
        t.accepts(&r) == previews_defined(d@.root, r, d@.width),
        column_layout(t@.root, t@.width, true, r) == column_layout(d@.root, d@.width, d@.truncate, r),
        colored_columns(f, t@.colors, LEFT_COLUMN_WIDTH as nat) == colored_columns(f, d@.colors, LEFT_COLUMN_WIDTH as nat),
{
}

} // verus!
