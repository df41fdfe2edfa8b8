//! Query prefixes that select a search mode, and the search strategies.

use vstd::prelude::*;
use crate::types::{SearchMode, SearchParams};
use crate::text::{chars_of, string_of_range};

verus! {

/// Prefix of a symbol query.
pub const PREFIX_SYMBOL: char = '#';
/// Prefix of a variable query.
pub const PREFIX_VARIABLE: char = '$';
/// Prefix of a file path query.
pub const PREFIX_FILEPATH: char = '@';
/// Prefix of a regular expression query.
pub const PREFIX_REGEX: char = '/';

/// The mode that a query's first character selects.
pub open spec fn mode_of_prefix(c: char) -> Option<SearchMode> {
    if c == '#' {
        Some(SearchMode::Symbol)
    } else if c == '$' {
        Some(SearchMode::Variable)
    } else if c == '@' {
        Some(SearchMode::Filepath)
    } else if c == '/' {
        Some(SearchMode::Regexp)
    } else {
        None
    }
}

/// The mode and remaining text of a raw query: a leading prefix character
/// selects a mode and is removed; any other query is a literal search for
/// the whole text.
pub open spec fn query_mode(q: Seq<char>) -> (SearchMode, Seq<char>) {
    if q.len() > 0 && mode_of_prefix(q[0]) is Some {
        (mode_of_prefix(q[0])->0, q.drop_first())
    } else {
        (SearchMode::Literal, q)
    }
}

/// A query made of a mode's prefix character and any text searches that
/// text in that mode; a query whose first character is no prefix is
/// searched literally, whole.
pub proof fn lemma_query_prefix(c: char, t: Seq<char>)
    ensures
        mode_of_prefix(c) matches Some(m) ==> query_mode(seq![c] + t) == (m, t),
        mode_of_prefix(c) is None ==> query_mode(seq![c] + t) == (SearchMode::Literal, seq![c] + t),
{
    let q = seq![c] + t;
    assert(q[0] == c);
    assert(q.drop_first() =~= t);
}

/// Determines the search mode of a raw query from its prefix
/// (`#` symbol, `$` variable, `@` file path, `/` regular expression,
/// otherwise literal) and strips that one prefix character.
pub fn parse_query_with_mode(query: &str) -> (r: (SearchMode, String))
    ensures
        r.0 == query_mode(query@).0,
        r.1@ == query_mode(query@).1,
{
    let v = chars_of(query);
    if v.len() > 0 {
        let c = v[0];
        let mode = if c == PREFIX_SYMBOL {
            Some(SearchMode::Symbol)
        } else if c == PREFIX_VARIABLE {
            Some(SearchMode::Variable)
        } else if c == PREFIX_FILEPATH {
            Some(SearchMode::Filepath)
        } else if c == PREFIX_REGEX {
            Some(SearchMode::Regexp)
        } else {
            None
        };
        if let Some(m) = mode {
            let rest = string_of_range(&v, 1, v.len());
            assert(v@.subrange(1, v@.len() as int) =~= v@.drop_first());
            return (m, rest);
        }
    }
    let whole = string_of_range(&v, 0, v.len());
    assert(v@.subrange(0, v@.len() as int) =~= v@);
    (SearchMode::Literal, whole)
}

/// Search parameters for a raw query (mode from its prefix, prefix removed).
pub fn create_search_params(query: &str) -> (p: SearchParams)
    ensures
        p.mode == query_mode(query@).0,
        p.query@ == query_mode(query@).1,
{
    let (mode, q) = parse_query_with_mode(query);
    SearchParams { query: q, mode }
}

/// A way of running one kind of search from the command line.
pub trait SearchStrategy {
    /// The strategy's name, for logs.
    fn name(&self) -> &'static str;

    /// Whether results are grouped under a heading per file.
    fn supports_file_grouping(&self) -> bool;
}

/// Text search in file contents.
pub struct ContentStrategy;

/// Fuzzy search on file and directory names.
pub struct FileStrategy;

/// Regular expression search in file contents.
pub struct RegexStrategy;

/// Fuzzy search on symbol names.
pub struct SymbolStrategy;

impl SearchStrategy for ContentStrategy {
    fn name(&self) -> (r: &'static str)
        ensures
            r@ == "content"@,
    {
        "content"
    }

    fn supports_file_grouping(&self) -> (r: bool)
        ensures
            r,
    {
        true
    }
}

impl SearchStrategy for FileStrategy {
    fn name(&self) -> (r: &'static str)
        ensures
            r@ == "file"@,
    {
        "file"
    }

    fn supports_file_grouping(&self) -> (r: bool)
        ensures
            !r,
    {
        false
    }
}

impl SearchStrategy for RegexStrategy {
    fn name(&self) -> (r: &'static str)
        ensures
            r@ == "regex"@,
    {
        "regex"
    }

    fn supports_file_grouping(&self) -> (r: bool)
        ensures
            r,
    {
        true
    }
}

impl SearchStrategy for SymbolStrategy {
    fn name(&self) -> (r: &'static str)
        ensures
            r@ == "symbol"@,
    {
        "symbol"
    }

    fn supports_file_grouping(&self) -> (r: bool)
        ensures
            r,
    {
        true
    }
}

} // verus!
