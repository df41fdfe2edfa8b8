//! A ripgrep search component with its own query and result types.

use vstd::prelude::*;
use crate::types::{CommandLine, texts};
use crate::vimgrep::{vimgrep_line, parse_vimgrep_line};

verus! {

/// How ripgrep matches the query.
#[derive(Debug, Clone, Copy, PartialEq, Eq, Structural)]
pub enum SearchMode {
    /// Exact text (`--fixed-strings`).
    Literal,
    /// Regular expression (ripgrep's default).
    Regexp,
}

/// One line of ripgrep output.
#[derive(Debug, Clone, PartialEq)]
pub struct SearchResult {
    pub filename: String,
    pub line: u32,
    /// Column of the match.
    pub offset: u32,
    pub content: String,
}

/// Messages of the ripgrep component.
#[derive(Debug, Clone, PartialEq)]
pub enum SearchMessage {
    UpdateQuery { query: String },
    PushSearchResult { result: SearchResult },
}

/// A ripgrep result read from an output line, if the line is well formed.
pub open spec fn rg_result_of_line(line: Seq<char>, r: Option<SearchResult>) -> bool {
    match vimgrep_line(line) {
        None => r is None,
        Some((f, l, c, t)) => r matches Some(x) && x.filename@ == f && x.line == l && x.offset == c
            && x.content@ == t,
    }
}

/// Reads one `file:line:column:text` line into a ripgrep result.
pub fn parse_rg_result(line: &str) -> (r: Option<SearchResult>)
    ensures
        rg_result_of_line(line@, r),
{
    match parse_vimgrep_line(line) {
        Some((filename, l, c, content)) => Some(SearchResult { filename, line: l, offset: c, content }),
        None => None,
    }
}

/// The arguments ripgrep runs with for a mode and query, searching the
/// current directory.
pub open spec fn rg_args(mode: SearchMode, query: Seq<char>) -> Seq<Seq<char>> {
    seq!["--line-number"@, "--column"@, "--no-heading"@, "--with-filename"@, "--color=never"@]
        + (if mode == SearchMode::Literal { seq!["--fixed-strings"@] } else { Seq::empty() })
        + seq![query, "."@]
}

/// What the ripgrep factory's command asks for, whatever the query: the
/// query comes second to last and the current directory last; the options
/// before them ask for line numbers, columns and file names without
/// headings or colours, and include `--fixed-strings` exactly for literal
/// searches.
pub proof fn lemma_rg_args_meaning(mode: SearchMode, query: Seq<char>)
    ensures
        ({
            let a = rg_args(mode, query);
            let opts = a.take(a.len() - 2);
            &&& a.len() >= 7
            &&& a[a.len() - 2] == query
            &&& a[a.len() - 1] == "."@
            &&& opts.contains("--line-number"@)
            &&& opts.contains("--column"@)
            &&& opts.contains("--with-filename"@)
            &&& opts.contains("--no-heading"@)
            &&& opts.contains("--color=never"@)
            &&& opts.contains("--fixed-strings"@) <==> mode == SearchMode::Literal
        }),
{
    reveal_strlit("--fixed-strings");
    reveal_strlit("--line-number");
    reveal_strlit("--column");
    reveal_strlit("--no-heading");
    reveal_strlit("--with-filename");
    reveal_strlit("--color=never");
    let a = rg_args(mode, query);
    let opts = a.take(a.len() - 2);
    let base = seq!["--line-number"@, "--column"@, "--no-heading"@, "--with-filename"@, "--color=never"@];
    if mode == SearchMode::Literal {
        assert(opts =~= base.push("--fixed-strings"@));
        assert(opts[5] == "--fixed-strings"@);
    } else {
        assert(opts =~= base);
        assert forall|k: int| 0 <= k < opts.len() implies opts[k] != "--fixed-strings"@ by {
            if k == 0 { assert(opts[k][2] != "--fixed-strings"@[2]); }
            if k == 1 { assert(opts[k][2] != "--fixed-strings"@[2]); }
            if k == 2 { assert(opts[k][2] != "--fixed-strings"@[2]); }
            if k == 3 { assert(opts[k][2] != "--fixed-strings"@[2]); }
            if k == 4 { assert(opts[k][2] != "--fixed-strings"@[2]); }
        }
    }
    assert(opts[0] == "--line-number"@);
    assert(opts[1] == "--column"@);
    assert(opts[2] == "--no-heading"@);
    assert(opts[3] == "--with-filename"@);
    assert(opts[4] == "--color=never"@);
}

/// Builds ripgrep command lines for one search mode.
pub struct RipgrepCommandFactory {
    pub mode: SearchMode,
}

impl RipgrepCommandFactory {
    /// A factory for the given mode.
    pub fn new(mode: SearchMode) -> (f: RipgrepCommandFactory)
        ensures
            f.mode == mode,
    {
        RipgrepCommandFactory { mode }
    }

    /// The ripgrep command line for a query.
    pub fn create_command(&self, query: String) -> (c: CommandLine)
        ensures
            c.program@ == "rg"@,
            texts(c.args@) == rg_args(self.mode, query@),
    {
        let ghost q = query@;
        let mut args: Vec<String> = Vec::new();
        args.push("--line-number".to_owned());
        args.push("--column".to_owned());
        args.push("--no-heading".to_owned());
        args.push("--with-filename".to_owned());
        args.push("--color=never".to_owned());
        if self.mode == SearchMode::Literal {
            args.push("--fixed-strings".to_owned());
        }
        args.push(query);
        args.push(".".to_owned());
        assert(texts(args@) =~= rg_args(self.mode, q));
        CommandLine { program: "rg".to_owned(), args }
    }
}

/// Remembers the latest query of the ripgrep component.
pub struct RipgrepMessageHandler {
    pub current_query: Option<String>,
}

impl RipgrepMessageHandler {
    /// A handler that has seen no query.
    pub fn new() -> (h: RipgrepMessageHandler)
        ensures
            h.current_query is None,
    {
        RipgrepMessageHandler { current_query: None }
    }

    /// A query update is remembered; a search result is forwarded
    /// unchanged as a `pushSearchResult` message.
    pub fn on_message(&mut self, message: SearchMessage) -> (forward: Option<(String, SearchMessage)>)
        ensures
            match message {
                SearchMessage::UpdateQuery { query } => final(self).current_query == Some(query)
                    && forward is None,
                SearchMessage::PushSearchResult { result } => {
                    &&& final(self).current_query == old(self).current_query
                    &&& forward matches Some(f)
                    &&& f.0@ == "pushSearchResult"@
                    &&& f.1 == (SearchMessage::PushSearchResult { result })
                },
            },
    {
        match message {
            SearchMessage::UpdateQuery { query } => {
                self.current_query = Some(query);
                None
            },
            SearchMessage::PushSearchResult { result } => Some(
                ("pushSearchResult".to_owned(), SearchMessage::PushSearchResult { result }),
            ),
        }
    }
}

/// Turns ripgrep output into result messages.
pub struct RipgrepOutputHandler;

impl RipgrepOutputHandler {
    /// The output handler.
    pub fn new() -> (h: RipgrepOutputHandler) {
        RipgrepOutputHandler
    }

    /// Reads one line of ripgrep output.
    pub fn parse_rg_line(line: &str) -> (r: Option<SearchResult>)
        ensures
            rg_result_of_line(line@, r),
    {
        parse_rg_result(line)
    }

    /// A well-formed output line becomes a `pushSearchResult` message.
    pub fn on_stdout(&self, line: &str) -> (m: Option<(String, SearchMessage)>)
        ensures
            match vimgrep_line(line@) {
                None => m is None,
                Some((f, l, c, t)) => {
                    &&& m matches Some(x)
                    &&& x.0@ == "pushSearchResult"@
                    &&& x.1 matches SearchMessage::PushSearchResult { result }
                    &&& result.filename@ == f
                    &&& result.line == l
                    &&& result.offset == c
                    &&& result.content@ == t
                },
            },
    {
        match Self::parse_rg_line(line) {
            Some(result) => Some(("pushSearchResult".to_owned(), SearchMessage::PushSearchResult { result })),
            None => None,
        }
    }
}

} // verus!
