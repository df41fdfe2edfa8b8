//! Two-column command-line output: the column layout with nothing
//! shortened, the left column padded to fifty characters.

use vstd::prelude::*;
use crate::display::{SearchResult, FormattedResult, ResultFormatter};
use crate::display::display_formatter::{column_layout, colored_columns, layout_columns, columns_line_width};

verus! {

/// The width of the left column in command-line output.
pub const CLI_LEFT_COLUMN_WIDTH: usize = 50;

/// The settings of a [`CliFormatter`].
pub struct ColumnCliSettings {
    pub root: Seq<char>,
    pub colors: bool,
}

/// Formats results for the command line in two columns, with whole paths
/// and lines.
pub struct CliFormatter {
    project_root: String,
    enable_colors: bool,
}

impl View for CliFormatter {
    type V = ColumnCliSettings;

    closed spec fn view(&self) -> ColumnCliSettings {
        ColumnCliSettings { root: self.project_root@, colors: self.enable_colors }
    }
}

impl CliFormatter {
    /// A formatter for paths below `project_root`, coloured when
    /// `enable_colors` (the terminal supports colours).
    pub fn new(project_root: String, enable_colors: bool) -> (f: CliFormatter)
        ensures
            f@ == (ColumnCliSettings { root: project_root@, colors: enable_colors }),
    {
        CliFormatter { project_root, enable_colors }
    }
}

impl ResultFormatter for CliFormatter {
    open spec fn accepts(&self, result: &SearchResult) -> bool {
        true
    }

    /// The column layout without shortening.
    fn format_result(&self, result: &SearchResult) -> (r: FormattedResult)
        ensures
            r@ == column_layout(self@.root, 0, false, *result),
    {
        layout_columns(self.project_root.as_str(), 0, false, result)
    }

    /// One output line, the left column padded to fifty characters.
    fn to_colored_string(&self, formatted: &FormattedResult) -> (r: String)
        ensures
            r@ == colored_columns(formatted@, self@.colors, CLI_LEFT_COLUMN_WIDTH as nat),
    {
        columns_line_width(formatted, self.enable_colors, CLI_LEFT_COLUMN_WIDTH)
    }
}

/// Without shortening the terminal width plays no part: the command-line
/// formatter lays results out as a display formatter made for the command
/// line does, at any width; only the padding of the left column differs.
pub proof fn lemma_cli_layout_ignores_width(root: Seq<char>, width: nat, r: SearchResult)
    ensures
        column_layout(root, 0, false, r) == column_layout(root, width, false, r),
{
}

} // verus!
