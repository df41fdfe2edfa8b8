//! Search through ripgrep (`rg`) for the unified search messages.

use vstd::prelude::*;
use crate::types::{SearchMode, SearchParams, SearchResult, FaeMessage, HandlerAction, CommandLine, texts, is_send};
use crate::message::Message;
use crate::text::str_eq;
use crate::vimgrep::vimgrep_line;
use crate::rg;

verus! {

/// The arguments ripgrep runs with: `--fixed-strings` for literal
/// searches, then vimgrep output without headings or colors, the query
/// and the search path.
pub open spec fn ripgrep_args(mode: SearchMode, query: Seq<char>, path: Seq<char>) -> Seq<Seq<char>> {
    (if mode == SearchMode::Literal { seq!["--fixed-strings"@] } else { Seq::empty() })
        + seq!["--vimgrep"@, "--no-heading"@, "--color=never"@, query, path]
}

/// What ripgrep is told, whatever the query and path: the query and the
/// path come last; the options before them ask for vimgrep output without
/// headings or colours, and include `--fixed-strings` exactly for literal
/// searches.
pub proof fn lemma_ripgrep_args_meaning(mode: SearchMode, query: Seq<char>, path: Seq<char>)
    ensures
        ({
            let a = ripgrep_args(mode, query, path);
            let opts = a.take(a.len() - 2);
            &&& a.len() >= 5
            &&& a[a.len() - 2] == query
            &&& a[a.len() - 1] == path
            &&& opts.contains("--vimgrep"@)
            &&& opts.contains("--no-heading"@)
            &&& opts.contains("--color=never"@)
            &&& opts.contains("--fixed-strings"@) <==> mode == SearchMode::Literal
        }),
{
    reveal_strlit("--fixed-strings");
    reveal_strlit("--vimgrep");
    reveal_strlit("--no-heading");
    reveal_strlit("--color=never");
    let a = ripgrep_args(mode, query, path);
    let opts = a.take(a.len() - 2);
    if mode == SearchMode::Literal {
        assert(opts =~= seq!["--fixed-strings"@, "--vimgrep"@, "--no-heading"@, "--color=never"@]);
        assert(opts[0] == "--fixed-strings"@);
        assert(opts[1] == "--vimgrep"@);
        assert(opts[2] == "--no-heading"@);
        assert(opts[3] == "--color=never"@);
    } else {
        assert(opts =~= seq!["--vimgrep"@, "--no-heading"@, "--color=never"@]);
        assert(opts[0] == "--vimgrep"@);
        assert(opts[1] == "--no-heading"@);
        assert(opts[2] == "--color=never"@);
        assert("--fixed-strings"@[2] != "--vimgrep"@[2]);
        assert("--fixed-strings"@[2] != "--no-heading"@[2]);
        assert("--fixed-strings"@[2] != "--color=never"@[2]);
        assert(!opts.contains("--fixed-strings"@));
    }
}

/// The ripgrep command line for a search.
pub fn ripgrep_command_line(params: &SearchParams, search_path: &str) -> (c: CommandLine)
    ensures
        c.program@ == "rg"@,
        texts(c.args@) == ripgrep_args(params.mode, params.query@, search_path@),
{
    let mut args: Vec<String> = Vec::new();
    if params.mode == SearchMode::Literal {
        args.push("--fixed-strings".to_owned());
    }
    args.push("--vimgrep".to_owned());
    args.push("--no-heading".to_owned());
    args.push("--color=never".to_owned());
    args.push(params.query.clone());
    args.push(search_path.to_owned());
    assert(texts(args@) =~= ripgrep_args(params.mode, params.query@, search_path@));
    CommandLine { program: "rg".to_owned(), args }
}

/// Decides what the ripgrep search component does with its input.
pub struct RipgrepHandler {
    /// The request that the running search belongs to.
    pub request_id: String,
}

impl RipgrepHandler {
    /// A handler with no search running.
    pub fn new() -> (h: RipgrepHandler)
        ensures
            h.request_id@ == Seq::<char>::empty(),
    {
        RipgrepHandler { request_id: String::new() }
    }

    /// Reads one `file:line:column:text` line of ripgrep output.
    pub fn parse_ripgrep_line(&self, line: &str) -> (r: Option<rg::SearchResult>)
        ensures
            rg::rg_result_of_line(line@, r),
    {
        rg::parse_rg_result(line)
    }

    /// A search request clears the results and starts ripgrep; anything
    /// else is ignored.
    pub fn on_message(&mut self, message: Message<FaeMessage>) -> (actions: Vec<HandlerAction>)
        ensures
            if message.method@ == "updateSearchParams"@ {
                match message.payload {
                    FaeMessage::UpdateSearchParams { params, request_id } => {
                        &&& actions@.len() == 2
                        &&& is_send(actions@[0], "clearResults"@, |p: FaeMessage| p is ClearResults)
                        &&& actions@[1] matches HandlerAction::Spawn(sp) && sp.query@ == params.query@
                            && sp.mode == params.mode
                        &&& final(self).request_id@ == request_id@
                    },
                    _ => actions@.len() == 0 && final(self).request_id == old(self).request_id,
                }
            } else {
                actions@.len() == 0 && final(self).request_id == old(self).request_id
            },
    {
        let mut actions: Vec<HandlerAction> = Vec::new();
        if str_eq(message.method.as_str(), "updateSearchParams") {
            match message.payload {
                FaeMessage::UpdateSearchParams { params, request_id } => {
                    self.request_id = request_id;
                    actions.push(HandlerAction::Send { method: "clearResults".to_owned(), payload: FaeMessage::ClearResults });
                    actions.push(HandlerAction::Spawn(params));
                },
                _ => {},
            }
        }
        actions
    }

    /// An output line becomes a search result of the running request; a
    /// malformed line is dropped.
    pub fn on_stdout(&self, line: &str) -> (actions: Vec<HandlerAction>)
        ensures
            match vimgrep_line(line@) {
                None => actions@.len() == 0,
                Some((f, l, c, t)) => actions@.len() == 1 && is_send(
                    actions@[0],
                    "pushSearchResult"@,
                    |p: FaeMessage| p matches FaeMessage::PushSearchResult { result, request_id }
                        && result.filename@ == f && result.line == l && result.column == c
                        && result.content@ == t && request_id@ == self.request_id@,
                ),
            },
    {
        let mut actions: Vec<HandlerAction> = Vec::new();
        if let Some(r) = self.parse_ripgrep_line(line) {
            let result = SearchResult { filename: r.filename, line: r.line, column: r.offset, content: r.content };
            actions.push(HandlerAction::Send {
                method: "pushSearchResult".to_owned(),
                payload: FaeMessage::PushSearchResult { result, request_id: self.request_id.clone() },
            });
        }
        actions
    }
}

} // verus!
