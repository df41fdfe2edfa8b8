//! Layouts of file search hits: with an icon under a heading, or as bare
//! paths with a `/` after directories.

use vstd::prelude::*;
use crate::display::{SearchResult, DisplayInfo, FormattedResult, FormattedView, ColorInfo, Color, ResultFormatter};
use crate::display::utils::{colored, apply_color};
use crate::text::{chars_of, push_char, push_str};

verus! {

/// The colours of a file hit: directories in blue, files in white.
pub open spec fn file_entry_colors(is_directory: bool) -> ColorInfo {
    ColorInfo {
        path_color: if is_directory { Color::Blue } else { Color::White },
        location_color: Color::Gray,
        content_color: Color::White,
        highlight_color: Color::Yellow,
    }
}

fn make_file_entry_colors(is_directory: bool) -> (c: ColorInfo)
    ensures
        c == file_entry_colors(is_directory),
{
    ColorInfo {
        path_color: if is_directory { Color::Blue } else { Color::White },
        location_color: Color::Gray,
        content_color: Color::White,
        highlight_color: Color::Yellow,
    }
}

/// What a file layout gives for a result that is not a file hit.
pub open spec fn empty_entry() -> FormattedView {
    FormattedView { left: Seq::empty(), right: Seq::empty(), colors: file_entry_colors(false) }
}

fn make_empty_entry() -> (r: FormattedResult)
    ensures
        r@ == empty_entry(),
{
    FormattedResult { left_part: String::new(), right_part: String::new(), color_info: make_file_entry_colors(false) }
}

/// The icon of a file hit.
pub open spec fn entry_icon(is_directory: bool) -> char {
    if is_directory { '📁' } else { '📄' }
}

/// The heading layout: icon, two spaces and the path.
pub open spec fn file_heading_layout(r: SearchResult) -> FormattedView {
    match r.display_info {
        DisplayInfo::File { path, is_directory } => FormattedView {
            left: seq![entry_icon(is_directory), ' ', ' '] + path@,
            right: Seq::empty(),
            colors: file_entry_colors(is_directory),
        },
        _ => empty_entry(),
    }
}

/// The inline layout: the path, with `/` after a directory.
pub open spec fn file_inline_layout(r: SearchResult) -> FormattedView {
    match r.display_info {
        DisplayInfo::File { path, is_directory } => FormattedView {
            left: path@ + (if is_directory { seq!['/'] } else { Seq::empty() }),
            right: Seq::empty(),
            colors: file_entry_colors(is_directory),
        },
        _ => empty_entry(),
    }
}

/// File hits with icons, for a terminal.
pub struct FileHeadingFormatter {
    project_root: String,
}

/// File hits as bare paths, for pipes.
pub struct FileInlineFormatter {
    project_root: String,
}

impl FileHeadingFormatter {
    /// The project root the formatter was made for.
    pub closed spec fn root(&self) -> Seq<char> {
        self.project_root@
    }

    /// A formatter for paths below `project_root` (the paths of file hits
    /// are shown as found).
    pub fn new(project_root: String) -> (f: FileHeadingFormatter)
        ensures
            f.root() == project_root@,
    {
        FileHeadingFormatter { project_root }
    }
}

impl FileInlineFormatter {
    /// The project root the formatter was made for.
    pub closed spec fn root(&self) -> Seq<char> {
        self.project_root@
    }

    /// A formatter for paths below `project_root` (the paths of file hits
    /// are shown as found).
    pub fn new(project_root: String) -> (f: FileInlineFormatter)
        ensures
            f.root() == project_root@,
    {
        FileInlineFormatter { project_root }
    }
}

impl ResultFormatter for FileHeadingFormatter {
    open spec fn accepts(&self, result: &SearchResult) -> bool {
        true
    }

    fn format_result(&self, result: &SearchResult) -> (r: FormattedResult)
        ensures
            r@ == file_heading_layout(*result),
    {
        match &result.display_info {
            DisplayInfo::File { path, is_directory } => {
                let mut left = String::new();
                push_char(&mut left, if *is_directory { '📁' } else { '📄' });
                push_char(&mut left, ' ');
                push_char(&mut left, ' ');
                push_str(&mut left, path.as_str());
                assert(left@ =~= seq![entry_icon(*is_directory), ' ', ' '] + path@);
                FormattedResult {
                    left_part: left,
                    right_part: String::new(),
                    color_info: make_file_entry_colors(*is_directory),
                }
            },
            _ => make_empty_entry(),
        }
    }

    /// A directory entry (one starting with the folder icon) in blue; any
    /// other entry unchanged.
    fn to_colored_string(&self, formatted: &FormattedResult) -> (r: String)
        ensures
            r@ == (if formatted@.left.len() > 0 && formatted@.left[0] == '📁' {
                colored(formatted@.left, Color::Blue)
            } else {
                formatted@.left
            }),
    {
        let v = chars_of(formatted.left_part.as_str());
        let is_directory = v.len() > 0 && v[0] == '📁';
        apply_color(formatted.left_part.as_str(), &Color::Blue, is_directory)
    }
}

impl ResultFormatter for FileInlineFormatter {
    open spec fn accepts(&self, result: &SearchResult) -> bool {
        true
    }

    fn format_result(&self, result: &SearchResult) -> (r: FormattedResult)
        ensures
            r@ == file_inline_layout(*result),
    {
        match &result.display_info {
            DisplayInfo::File { path, is_directory } => {
                let mut left = String::new();
                push_str(&mut left, path.as_str());
                if *is_directory {
                    push_char(&mut left, '/');
                }
                assert(left@ =~= path@ + (if *is_directory { seq!['/'] } else { Seq::empty() }));
                FormattedResult {
                    left_part: left,
                    right_part: String::new(),
                    color_info: make_file_entry_colors(*is_directory),
                }
            },
            _ => make_empty_entry(),
        }
    }

    /// A directory entry (one ending in `/`) in blue; any other entry
    /// unchanged.
    fn to_colored_string(&self, formatted: &FormattedResult) -> (r: String)
        ensures
            r@ == (if formatted@.left.len() > 0 && formatted@.left.last() == '/' {
                colored(formatted@.left, Color::Blue)
            } else {
                formatted@.left
            }),
    {
        let v = chars_of(formatted.left_part.as_str());
        let is_directory = v.len() > 0 && v[v.len() - 1] == '/';
        apply_color(formatted.left_part.as_str(), &Color::Blue, is_directory)
    }
}

} // verus!
