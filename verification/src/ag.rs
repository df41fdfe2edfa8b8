//! Search through The Silver Searcher (`ag`).

use vstd::prelude::*;
use crate::types::{SearchMode, SearchParams, SearchResult, FaeMessage, HandlerAction, CommandLine, texts, is_send};
use crate::message::Message;
use crate::text::str_eq;
use crate::vimgrep::{vimgrep_line, parse_vimgrep_line};

verus! {

/// Whether `ag` serves a mode (literal and regular expression searches).
pub open spec fn ag_supports(mode: SearchMode) -> bool {
    mode == SearchMode::Literal || mode == SearchMode::Regexp
}

/// The arguments `ag` is run with: `--literal` for literal searches, then
/// vimgrep output without colors, the query and the search path.
pub open spec fn ag_args(mode: SearchMode, query: Seq<char>, path: Seq<char>) -> Seq<Seq<char>> {
    (if mode == SearchMode::Literal { seq!["--literal"@] } else { Seq::empty() })
        + seq!["--vimgrep"@, "--nocolor"@, query, path]
}

/// What `ag` is told, whatever the query and path: the query and the path
/// come last, in that order; the options before them ask for vimgrep
/// output without colours, and include `--literal` exactly for literal
/// searches, so a literal query matches its text only and a pattern query
/// is read as a regular expression.
pub proof fn lemma_ag_args_meaning(mode: SearchMode, query: Seq<char>, path: Seq<char>)
    ensures
        ({
            let a = ag_args(mode, query, path);
            let opts = a.take(a.len() - 2);
            &&& a.len() >= 4
            &&& a[a.len() - 2] == query
            &&& a[a.len() - 1] == path
            &&& opts.contains("--vimgrep"@)
            &&& opts.contains("--nocolor"@)
            &&& opts.contains("--literal"@) <==> mode == SearchMode::Literal
        }),
{
    reveal_strlit("--literal");
    reveal_strlit("--vimgrep");
    reveal_strlit("--nocolor");
    let a = ag_args(mode, query, path);
    let opts = a.take(a.len() - 2);
    if mode == SearchMode::Literal {
        assert(opts =~= seq!["--literal"@, "--vimgrep"@, "--nocolor"@]);
        assert(opts[0] == "--literal"@);
        assert(opts[1] == "--vimgrep"@);
        assert(opts[2] == "--nocolor"@);
    } else {
        assert(opts =~= seq!["--vimgrep"@, "--nocolor"@]);
        assert(opts[0] == "--vimgrep"@);
        assert(opts[1] == "--nocolor"@);
        assert("--literal"@[2] != "--vimgrep"@[2]);
        assert("--literal"@[2] != "--nocolor"@[2]);
        assert(!opts.contains("--literal"@));
    }
}

/// The `ag` command line for a search.
pub fn ag_command_line(params: &SearchParams, search_path: &str) -> (c: CommandLine)
    ensures
        c.program@ == "ag"@,
        texts(c.args@) == ag_args(params.mode, params.query@, search_path@),
{
    let mut args: Vec<String> = Vec::new();
    if params.mode == SearchMode::Literal {
        args.push("--literal".to_owned());
    }
    args.push("--vimgrep".to_owned());
    args.push("--nocolor".to_owned());
    args.push(params.query.clone());
    args.push(search_path.to_owned());
    assert(texts(args@) =~= ag_args(params.mode, params.query@, search_path@));
    CommandLine { program: "ag".to_owned(), args }
}

/// A search result read from a vimgrep line, if the line is well formed.
pub open spec fn result_of_line(line: Seq<char>, r: Option<SearchResult>) -> bool {
    match vimgrep_line(line) {
        None => r is None,
        Some((f, l, c, t)) => r matches Some(x) && x.filename@ == f && x.line == l && x.column == c
            && x.content@ == t,
    }
}

/// Decides what the `ag` search component does with its input.
pub struct AgHandler {
    /// The request that the running search belongs to.
    pub request_id: String,
}

impl AgHandler {
    /// A handler with no search running.
    pub fn new() -> (h: AgHandler)
        ensures
            h.request_id@ == Seq::<char>::empty(),
    {
        AgHandler { request_id: String::new() }
    }

    /// Reads one `file:line:column:text` line of `ag` output.
    pub fn parse_ag_line(&self, line: &str) -> (r: Option<SearchResult>)
        ensures
            result_of_line(line@, r),
    {
        match parse_vimgrep_line(line) {
            Some((filename, l, c, content)) => Some(SearchResult { filename, line: l, column: c, content }),
            None => None,
        }
    }

    /// Handles a message: a search request clears the results and then
    /// either starts `ag` or, for modes `ag` does not serve, reports the
    /// search complete; a finished process reports the search complete;
    /// anything else is ignored.
    pub fn on_message(&mut self, message: Message<FaeMessage>) -> (actions: Vec<HandlerAction>)
        ensures
            if message.method@ == "updateSearchParams"@ {
                match message.payload {
                    FaeMessage::UpdateSearchParams { params, request_id } => {
                        &&& actions@.len() == 2
                        &&& is_send(actions@[0], "clearResults"@, |p: FaeMessage| p is ClearResults)
                        &&& if ag_supports(params.mode) {
                            actions@[1] matches HandlerAction::Spawn(sp) && sp.query@ == params.query@
                                && sp.mode == params.mode
                        } else {
                            is_send(actions@[1], "completeSearch"@, |p: FaeMessage| p is CompleteSearch)
                        }
                        &&& final(self).request_id@ == request_id@
                    },
                    _ => actions@.len() == 0 && final(self).request_id == old(self).request_id,
                }
            } else if message.method@ == "processCompleted"@ {
                &&& actions@.len() == 1
                &&& is_send(actions@[0], "completeSearch"@, |p: FaeMessage| p is CompleteSearch)
                &&& final(self).request_id == old(self).request_id
            } else {
                actions@.len() == 0 && final(self).request_id == old(self).request_id
            },
    {
        let mut actions: Vec<HandlerAction> = Vec::new();
        if str_eq(message.method.as_str(), "updateSearchParams") {
            match message.payload {
                FaeMessage::UpdateSearchParams { params, request_id } => {
                    self.request_id = request_id;
                    actions.push(HandlerAction::Send { method: "clearResults".to_owned(), payload: FaeMessage::ClearResults });
                    if params.mode == SearchMode::Literal || params.mode == SearchMode::Regexp {
                        actions.push(HandlerAction::Spawn(params));
                    } else {
                        actions.push(HandlerAction::Send { method: "completeSearch".to_owned(), payload: FaeMessage::CompleteSearch });
                    }
                },
                _ => {},
            }
        } else if str_eq(message.method.as_str(), "processCompleted") {
            actions.push(HandlerAction::Send { method: "completeSearch".to_owned(), payload: FaeMessage::CompleteSearch });
        }
        actions
    }

    /// A spawn failure reports the search complete.
    pub fn on_spawn_failed(&self) -> (actions: Vec<HandlerAction>)
        ensures
            actions@.len() == 1,
            is_send(actions@[0], "completeSearch"@, |p: FaeMessage| p is CompleteSearch),
    {
        let mut actions: Vec<HandlerAction> = Vec::new();
        actions.push(HandlerAction::Send { method: "completeSearch".to_owned(), payload: FaeMessage::CompleteSearch });
        actions
    }

    /// An output line becomes a search result of the running request; a
    /// malformed line is dropped.
    pub fn on_stdout(&self, line: &str) -> (actions: Vec<HandlerAction>)
        ensures
            match vimgrep_line(line@) {
                None => actions@.len() == 0,
                Some((f, l, c, t)) => actions@.len() == 1 && is_send(
                    actions@[0],
                    "pushSearchResult"@,
                    |p: FaeMessage| p matches FaeMessage::PushSearchResult { result, request_id }
                        && result.filename@ == f && result.line == l && result.column == c
                        && result.content@ == t && request_id@ == self.request_id@,
                ),
            },
    {
        let mut actions: Vec<HandlerAction> = Vec::new();
        if let Some(result) = self.parse_ag_line(line) {
            actions.push(HandlerAction::Send {
                method: "pushSearchResult".to_owned(),
                payload: FaeMessage::PushSearchResult { result, request_id: self.request_id.clone() },
            });
        }
        actions
    }
}

} // verus!
