//! What the interactive view shows in answer to the search components'
//! messages: toasts for progress and file changes, result lines, the query.

use vstd::prelude::*;
use crate::types::{FaeMessage, SearchResult};
use crate::message::Message;
use crate::text::{decimal, trim, push_str, push_char, push_decimal, trim_string};

verus! {

/// The kind of a toast notification.
#[derive(Debug, Clone, Copy, PartialEq, Eq, Structural)]
pub enum ToastType {
    Info,
    Success,
    Warning,
    Error,
}

/// A change to make to the interactive view.
#[derive(Debug, Clone)]
pub enum TuiUpdate {
    /// Show a toast for `seconds` seconds.
    ShowToast { message: String, toast_type: ToastType, seconds: u64 },
    /// Add lines to the result list.
    AppendResults(Vec<String>),
    /// Empty the result list.
    ClearResults,
    /// Put text into the search input.
    SetSearchInput(String),
}

/// The plain values of a [`TuiUpdate`].
pub enum TuiUpdateView {
    ShowToast { message: Seq<char>, toast_type: ToastType, seconds: u64 },
    AppendResults(Seq<Seq<char>>),
    ClearResults,
    SetSearchInput(Seq<char>),
}

impl View for TuiUpdate {
    type V = TuiUpdateView;

    open spec fn view(&self) -> TuiUpdateView {
        match self {
            TuiUpdate::ShowToast { message, toast_type, seconds } => TuiUpdateView::ShowToast {
                message: message@,
                toast_type: *toast_type,
                seconds: *seconds,
            },
            TuiUpdate::AppendResults(lines) => TuiUpdateView::AppendResults(
                lines@.map_values(|s: String| s@),
            ),
            TuiUpdate::ClearResults => TuiUpdateView::ClearResults,
            TuiUpdate::SetSearchInput(s) => TuiUpdateView::SetSearchInput(s@),
        }
    }
}

/// The plain values of a sequence of updates.
pub open spec fn update_views(v: Seq<TuiUpdate>) -> Seq<TuiUpdateView> {
    v.map_values(|u: TuiUpdate| u@)
}

/// A toast.
pub open spec fn toast(message: Seq<char>, toast_type: ToastType, seconds: u64) -> TuiUpdateView {
    TuiUpdateView::ShowToast { message, toast_type, seconds }
}

/// The progress toast text of symbol indexing: a completion text when no
/// file is queued, else `indexed/(indexed + queued)` files so far.
pub open spec fn progress_text(queued: usize, indexed: usize, symbols: usize) -> Seq<char> {
    if queued == 0 {
        "Indexing completed: "@ + decimal(indexed as nat) + " files, "@ + decimal(symbols as nat) + " symbols"@
    } else {
        "Indexing: "@ + decimal(indexed as nat) + seq!['/'] + decimal((indexed + queued) as nat) + " files, "@
            + decimal(symbols as nat) + " symbols found"@
    }
}

/// The line shown for a search result: `file:line - text` (text trimmed).
pub open spec fn result_line(r: SearchResult) -> Seq<char> {
    r.filename@ + seq![':'] + decimal(r.line as nat) + " - "@ + trim(r.content@)
}

/// The updates for a message; messages the view does not show give none.
pub open spec fn tui_updates(m: FaeMessage) -> Seq<TuiUpdateView> {
    match m {
        FaeMessage::ReportSymbolIndex { queued_files, indexed_files, symbols_found } => seq![
            toast(
                progress_text(queued_files, indexed_files, symbols_found),
                if queued_files == 0 { ToastType::Success } else { ToastType::Info },
                2,
            ),
        ],
        FaeMessage::CompleteInitialIndexing => seq![
            toast("Symbol indexing completed!"@, ToastType::Success, 3),
        ],
        FaeMessage::PushSearchResult { result, request_id } => seq![
            TuiUpdateView::AppendResults(seq![result_line(result)]),
        ],
        FaeMessage::NotifySearchReport { result_count } => seq![
            if result_count > 0 {
                toast(
                    "Search completed: "@ + decimal(result_count as nat) + " results found"@,
                    ToastType::Success,
                    3,
                )
            } else {
                toast("No results found"@, ToastType::Warning, 3)
            },
        ],
        FaeMessage::ClearResults => seq![TuiUpdateView::ClearResults],
        FaeMessage::UpdateSearchParams { params, request_id } => seq![
            TuiUpdateView::SetSearchInput(params.query@),
            toast("Searching for '"@ + params.query@ + "'..."@, ToastType::Info, 2),
        ],
        FaeMessage::DetectFileCreate(p) => seq![toast("File created: "@ + p@, ToastType::Info, 2)],
        FaeMessage::DetectFileUpdate(p) => seq![toast("File updated: "@ + p@, ToastType::Info, 2)],
        FaeMessage::DetectFileDelete(p) => seq![toast("File deleted: "@ + p@, ToastType::Warning, 2)],
        _ => Seq::empty(),
    }
}

/// The messages the view can show: a progress report's file counts add up
/// within `usize`.
pub open spec fn shows_without_overflow(m: FaeMessage) -> bool {
    m matches FaeMessage::ReportSymbolIndex { queued_files, indexed_files, .. } ==> indexed_files + queued_files
        <= usize::MAX
}

fn show_toast(message: String, toast_type: ToastType, seconds: u64) -> (u: TuiUpdate)
    ensures
        u@ == toast(message@, toast_type, seconds),
{
    TuiUpdate::ShowToast { message, toast_type, seconds }
}

fn prefixed(prefix: &str, text: &str) -> (s: String)
    ensures
        s@ == prefix@ + text@,
{
    let mut s = String::new();
    push_str(&mut s, prefix);
    push_str(&mut s, text);
    s
}

fn text_with(prefix: &str, middle: &str, suffix: &str) -> (s: String)
    ensures
        s@ == prefix@ + middle@ + suffix@,
{
    let mut s = String::new();
    push_str(&mut s, prefix);
    push_str(&mut s, middle);
    push_str(&mut s, suffix);
    s
}

/// Turns the search components' messages into view updates.
pub struct TuiActor {}

impl TuiActor {
    pub fn new() -> (a: TuiActor) {
        TuiActor {  }
    }

    /// The updates the view makes for `message` (see [`tui_updates`]).
    pub fn on_message(&self, message: &Message<FaeMessage>) -> (r: Vec<TuiUpdate>)
        requires
            shows_without_overflow(message.payload),
        ensures
            update_views(r@) == tui_updates(message.payload),
    {
        let mut out: Vec<TuiUpdate> = Vec::new();
        match &message.payload {
            FaeMessage::ReportSymbolIndex { queued_files, indexed_files, symbols_found } => {
                let mut text = String::new();
                if *queued_files == 0 {
                    push_str(&mut text, "Indexing completed: ");
                    push_decimal(&mut text, *indexed_files as u64);
                    push_str(&mut text, " files, ");
                    push_decimal(&mut text, *symbols_found as u64);
                    push_str(&mut text, " symbols");
                } else {
                    push_str(&mut text, "Indexing: ");
                    push_decimal(&mut text, *indexed_files as u64);
                    push_char(&mut text, '/');
                    push_decimal(&mut text, (*indexed_files + *queued_files) as u64);
                    push_str(&mut text, " files, ");
                    push_decimal(&mut text, *symbols_found as u64);
                    push_str(&mut text, " symbols found");
                }
                assert(text@ =~= progress_text(*queued_files, *indexed_files, *symbols_found));
                let kind = if *queued_files == 0 { ToastType::Success } else { ToastType::Info };
                out.push(show_toast(text, kind, 2));
            },
            FaeMessage::CompleteInitialIndexing => {
                out.push(show_toast("Symbol indexing completed!".to_owned(), ToastType::Success, 3));
            },
            FaeMessage::PushSearchResult { result, request_id: _ } => {
                let mut line = String::new();
                push_str(&mut line, result.filename.as_str());
                push_char(&mut line, ':');
                push_decimal(&mut line, result.line as u64);
                push_str(&mut line, " - ");
                let content = trim_string(result.content.as_str());
                push_str(&mut line, content.as_str());
                assert(line@ =~= result_line(*result));
                let mut lines: Vec<String> = Vec::new();
                lines.push(line);
                assert(lines@.map_values(|s: String| s@) =~= seq![result_line(*result)]);
                out.push(TuiUpdate::AppendResults(lines));
            },
            FaeMessage::NotifySearchReport { result_count } => {
                if *result_count > 0 {
                    let mut text = String::new();
                    push_str(&mut text, "Search completed: ");
                    push_decimal(&mut text, *result_count as u64);
                    push_str(&mut text, " results found");
                    out.push(show_toast(text, ToastType::Success, 3));
                } else {
                    out.push(show_toast("No results found".to_owned(), ToastType::Warning, 3));
                }
            },
            FaeMessage::ClearResults => {
                out.push(TuiUpdate::ClearResults);
            },
            FaeMessage::UpdateSearchParams { params, request_id: _ } => {
                out.push(TuiUpdate::SetSearchInput(params.query.clone()));
                let text = text_with("Searching for '", params.query.as_str(), "'...");
                out.push(show_toast(text, ToastType::Info, 2));
            },
            FaeMessage::DetectFileCreate(p) => {
                out.push(show_toast(prefixed("File created: ", p.as_str()), ToastType::Info, 2));
            },
            FaeMessage::DetectFileUpdate(p) => {
                out.push(show_toast(prefixed("File updated: ", p.as_str()), ToastType::Info, 2));
            },
            FaeMessage::DetectFileDelete(p) => {
                out.push(show_toast(prefixed("File deleted: ", p.as_str()), ToastType::Warning, 2));
            },
            _ => {},
        }
        assert(update_views(out@) =~= tui_updates(message.payload));
        out
    }
}

} // verus!
