//! Text search without external tools: which files are skipped as binary,
//! how a query becomes a pattern, and the hits of a pattern in a file's
//! lines.

use vstd::prelude::*;
use crate::types::{SearchMode, SearchParams, SearchResult, ResultView, FaeMessage, HandlerAction, result_views,
    is_send};
use crate::message::Message;
use crate::text::{str_eq, lowercase_of, to_lowercase};
use crate::pathutil::{extension_of, path_extension};
use crate::display::utils::{utf8_len, utf8_len_of};
use crate::text::{chars_of, push_char};

verus! {

#[verifier::external_type_specification]
#[verifier::external_body]
pub struct ExRegex(regex::Regex);

#[verifier::external_type_specification]
#[verifier::external_body]
pub struct ExRegexError(regex::Error);

/// The characters that have a meaning in a regular expression (those that
/// `regex::escape` escapes).
pub open spec fn is_meta_character(c: char) -> bool {
    c == '\\' || c == '.' || c == '+' || c == '*' || c == '?' || c == '(' || c == ')' || c == '|' || c == '['
        || c == ']' || c == '{' || c == '}' || c == '^' || c == '$' || c == '#' || c == '&' || c == '-' || c == '~'
}

/// A text escaped for use as a literal pattern: each meta character is
/// preceded by a backslash.
pub open spec fn regex_escape_of(s: Seq<char>) -> Seq<char>
    decreases s.len(),
{
    if s.len() == 0 {
        Seq::empty()
    } else {
        regex_escape_of(s.drop_last()) + (if is_meta_character(s.last()) {
            seq!['\\', s.last()]
        } else {
            seq![s.last()]
        })
    }
}

/// The text escaped for use as a literal pattern, as `regex::escape` does
/// it (see [`regex_escape_of`]).
fn escape_regex(s: &str) -> (r: String)
    ensures
        r@ == regex_escape_of(s@),
{
    let v = chars_of(s);
    let mut r = String::new();
    let mut i: usize = 0;
    while i < v.len()
        invariant
            i <= v@.len(),
            v@ == s@,
            r@ == regex_escape_of(v@.take(i as int)),
        decreases v@.len() - i,
    {
        let c = v[i];
        assert(v@.take(i + 1).drop_last() =~= v@.take(i as int));
        assert(v@.take(i + 1).last() == c);
        let meta = c == '\\' || c == '.' || c == '+' || c == '*' || c == '?' || c == '(' || c == ')' || c == '|'
            || c == '[' || c == ']' || c == '{' || c == '}' || c == '^' || c == '$' || c == '#' || c == '&'
            || c == '-' || c == '~';
        if meta {
            push_char(&mut r, '\\');
        }
        push_char(&mut r, c);
        i = i + 1;
    }
    assert(v@.take(v@.len() as int) =~= v@);
    r
}

/// Whether `regex::Regex::new` accepts a pattern.
pub uninterp spec fn regex_compiles(pattern: Seq<char>) -> bool;

/// The byte offsets where the successive non-overlapping matches of a
/// pattern in a text start (`Regex::find_iter`).
pub uninterp spec fn regex_match_starts(pattern: Seq<char>, text: Seq<char>) -> Seq<usize>;

/// Calls `regex::Regex::new`. Claimed: it succeeds exactly when
/// [`regex_compiles`] holds of the pattern.
#[verifier::external_body]
fn compile_regex(pattern: &str) -> (r: Result<regex::Regex, regex::Error>)
    ensures
        r is Ok == regex_compiles(pattern@),
{
    regex::Regex::new(pattern)
}

/// A compiled regular expression with its source.
pub struct CompiledPattern {
    source: String,
    regex: regex::Regex,
}

/// A pattern that does not compile.
#[derive(Debug, Clone, Copy, PartialEq, Eq, Structural)]
pub enum PatternError {
    Invalid,
}

impl CompiledPattern {
    /// The source text of the pattern.
    pub closed spec fn source(&self) -> Seq<char> {
        self.source@
    }

    /// Compiles a pattern.
    pub fn compile(source: String) -> (r: Result<CompiledPattern, PatternError>)
        ensures
            r is Ok == regex_compiles(source@),
            r matches Ok(p) ==> p.source() == source@,
    {
        match compile_regex(source.as_str()) {
            Ok(regex) => Ok(CompiledPattern { source, regex }),
            Err(_) => Err(PatternError::Invalid),
        }
    }

    /// Calls `Regex::find_iter` on the text and collects where the matches
    /// start. Claimed: the offsets are [`regex_match_starts`] of the source
    /// and the text (the regex was compiled from the source), and each is
    /// an offset into the text, so below `usize::MAX`.
    #[verifier::external_body]
    pub(crate) fn match_starts(&self, text: &str) -> (r: Vec<usize>)
        ensures
            r@ == regex_match_starts(self.source(), text@),
            forall|i: int| 0 <= i < r@.len() ==> #[trigger] r@[i] < usize::MAX,
    {
        self.regex.find_iter(text).map(|m| m.start()).collect()
    }
}

/// The pattern a native search uses: the escaped query in literal mode,
/// the query itself in pattern mode, none in the other modes.
pub open spec fn pattern_source(query: Seq<char>, mode: SearchMode) -> Option<Seq<char>> {
    match mode {
        SearchMode::Literal => Some(regex_escape_of(query)),
        SearchMode::Regexp => Some(query),
        _ => None,
    }
}

/// The pattern of a native search; `None` in modes it does not serve.
pub fn search_pattern(query: &str, mode: SearchMode) -> (r: Option<Result<CompiledPattern, PatternError>>)
    ensures
        match pattern_source(query@, mode) {
            None => r is None,
            Some(src) => r matches Some(c) && (c is Ok == regex_compiles(src)) && (c matches Ok(p)
                ==> p.source() == src),
        },
{
    match mode {
        SearchMode::Literal => Some(CompiledPattern::compile(escape_regex(query))),
        SearchMode::Regexp => Some(CompiledPattern::compile(query.to_owned())),
        _ => None,
    }
}

/// The hits of a pattern in the lines of a file, line by line and left to
/// right: line and column are 1-based (the column from the match's byte
/// offset), both taken modulo 2^32.
pub open spec fn line_hits(filename: Seq<char>, lines: Seq<String>, pattern: Seq<char>) -> Seq<ResultView>
    decreases lines.len(),
{
    if lines.len() == 0 {
        Seq::empty()
    } else {
        let n = (lines.len() - 1) as int;
        line_hits(filename, lines.drop_last(), pattern) + regex_match_starts(pattern, lines[n]@).map_values(
            |s: usize| ResultView {
                filename,
                line: (n + 1) as u32,
                column: (s + 1) as u32,
                content: lines[n]@,
            },
        )
    }
}

/// Whether a file is treated as binary: its extension (in lower case) is
/// one of executables, images, media, archives and documents, or it is
/// larger than 1,000,000 bytes.
pub open spec fn native_binary(path: Seq<char>, size: Option<u64>) -> bool {
    ||| (extension_of(path) matches Some(e) && native_binary_extension(lowercase_of(e)))
    ||| (size matches Some(n) && n > 1_000_000)
}

/// The extensions of binary files.
pub open spec fn native_binary_extension(e: Seq<char>) -> bool {
    ||| e == "exe"@ ||| e == "dll"@ ||| e == "so"@ ||| e == "dylib"@ ||| e == "a"@ ||| e == "lib"@
    ||| e == "o"@ ||| e == "obj"@
    ||| e == "png"@ ||| e == "jpg"@ ||| e == "jpeg"@ ||| e == "gif"@ ||| e == "bmp"@ ||| e == "ico"@
    ||| e == "svg"@
    ||| e == "mp3"@ ||| e == "mp4"@ ||| e == "avi"@ ||| e == "mov"@ ||| e == "wav"@ ||| e == "flac"@
    ||| e == "zip"@ ||| e == "tar"@ ||| e == "gz"@ ||| e == "bz2"@ ||| e == "xz"@ ||| e == "7z"@
    ||| e == "rar"@
    ||| e == "pdf"@ ||| e == "doc"@ ||| e == "docx"@ ||| e == "xls"@ ||| e == "xlsx"@ ||| e == "ppt"@
    ||| e == "pptx"@
}

fn is_native_binary_extension(e: &str) -> (r: bool)
    ensures
        r == native_binary_extension(e@),
{
    str_eq(e, "exe") || str_eq(e, "dll") || str_eq(e, "so") || str_eq(e, "dylib") || str_eq(e, "a")
        || str_eq(e, "lib") || str_eq(e, "o") || str_eq(e, "obj") || str_eq(e, "png") || str_eq(e, "jpg")
        || str_eq(e, "jpeg") || str_eq(e, "gif") || str_eq(e, "bmp") || str_eq(e, "ico") || str_eq(e, "svg")
        || str_eq(e, "mp3") || str_eq(e, "mp4") || str_eq(e, "avi") || str_eq(e, "mov") || str_eq(e, "wav")
        || str_eq(e, "flac") || str_eq(e, "zip") || str_eq(e, "tar") || str_eq(e, "gz") || str_eq(e, "bz2")
        || str_eq(e, "xz") || str_eq(e, "7z") || str_eq(e, "rar") || str_eq(e, "pdf") || str_eq(e, "doc")
        || str_eq(e, "docx") || str_eq(e, "xls") || str_eq(e, "xlsx") || str_eq(e, "ppt") || str_eq(e, "pptx")
}

/// Runs text searches for the unified search messages.
pub struct NativeSearchHandler {
    pub search_path: String,
}

impl NativeSearchHandler {
    /// A handler searching below `search_path`.
    pub fn new(search_path: String) -> (h: NativeSearchHandler)
        ensures
            h.search_path == search_path,
    {
        NativeSearchHandler { search_path }
    }

    /// Whether the file at `path` is skipped as binary; `size` is its size
    /// when it can be read.
    pub fn is_binary_file(path: &str, size: Option<u64>) -> (r: bool)
        ensures
            r == native_binary(path@, size),
    {
        match path_extension(path) {
            Some(ext) => {
                let lower = to_lowercase(ext.as_str());
                if is_native_binary_extension(lower.as_str()) {
                    return true;
                }
            },
            None => {},
        }
        match size {
            Some(n) => n > 1_000_000,
            None => false,
        }
    }

    /// The hits of `pattern` in the lines of the file `filename`.
    pub fn search_lines(filename: &str, lines: &Vec<String>, pattern: &CompiledPattern) -> (r: Vec<SearchResult>)
        ensures
            result_views(r@) == line_hits(filename@, lines@, pattern.source()),
    {
        let mut out: Vec<SearchResult> = Vec::new();
        let mut i: usize = 0;
        while i < lines.len()
            invariant
                i <= lines@.len(),
                result_views(out@) == line_hits(filename@, lines@.take(i as int), pattern.source()),
            decreases lines@.len() - i,
        {
            let starts = pattern.match_starts(lines[i].as_str());
            let ghost before = out@;
            let ghost hits = regex_match_starts(pattern.source(), lines@[i as int]@).map_values(
                |s: usize| ResultView {
                    filename: filename@,
                    line: (i + 1) as u32,
                    column: (s + 1) as u32,
                    content: lines@[i as int]@,
                },
            );
            assert(hits.len() == starts@.len());
            let mut k: usize = 0;
            while k < starts.len()
                invariant
                    hits.len() == starts@.len(),
                    forall|m: int| 0 <= m < hits.len() ==> #[trigger] hits[m] == (ResultView {
                        filename: filename@,
                        line: (i + 1) as u32,
                        column: (starts@[m] + 1) as u32,
                        content: lines@[i as int]@,
                    }),
                    k <= starts@.len(),
                    i < lines@.len(),
                    starts@ == regex_match_starts(pattern.source(), lines@[i as int]@),
                    forall|m: int| 0 <= m < starts@.len() ==> #[trigger] starts@[m] < usize::MAX,
                    i < lines.len(),
                    result_views(out@) == result_views(before) + hits.take(k as int),
                decreases starts@.len() - k,
            {
                let line_no: u32 = #[verifier::truncate] ((i + 1) as u32);
                let col: u32 = #[verifier::truncate] ((starts[k] + 1) as u32);
                let r = SearchResult {
                    filename: filename.to_owned(),
                    line: line_no,
                    column: col,
                    content: lines[i].clone(),
                };
                let ghost prev = out@;
                assert(r@ == hits[k as int]);
                out.push(r);
                assert(result_views(out@) =~= result_views(prev).push(r@));
                assert(hits.take(k + 1) =~= hits.take(k as int).push(hits[k as int]));
                assert(result_views(out@) =~= result_views(before) + hits.take(k + 1));
                k = k + 1;
            }
            assert(lines@.take(i + 1).drop_last() =~= lines@.take(i as int));
            assert(hits.take(starts@.len() as int) =~= hits);
            assert(result_views(out@) =~= line_hits(filename@, lines@.take(i + 1), pattern.source()));
            i = i + 1;
        }
        assert(lines@.take(lines@.len() as int) =~= lines@);
        out
    }

    /// Handles a message: a search request clears the results and, for
    /// literal and pattern searches of at least two bytes, asks the runner
    /// to search; anything else does nothing.
    pub fn on_message(&self, message: &Message<FaeMessage>) -> (actions: Vec<HandlerAction>)
        ensures
            if message.method@ == "updateSearchParams"@ && message.payload is UpdateSearchParams {
                let params = message.payload->params;
                &&& is_send(actions@[0], "clearResults"@, |p: FaeMessage| p is ClearResults)
                &&& if (params.mode == SearchMode::Literal || params.mode == SearchMode::Regexp)
                    && utf8_len(params.query@) >= 2 {
                    &&& actions@.len() == 2
                    &&& actions@[1] matches HandlerAction::Spawn(sp) && sp.query@ == params.query@
                        && sp.mode == params.mode
                } else {
                    actions@.len() == 1
                }
            } else {
                actions@.len() == 0
            },
    {
        let mut actions: Vec<HandlerAction> = Vec::new();
        if str_eq(message.method.as_str(), "updateSearchParams") {
            match &message.payload {
                FaeMessage::UpdateSearchParams { params, request_id: _ } => {
                    actions.push(
                        HandlerAction::Send { method: "clearResults".to_owned(), payload: FaeMessage::ClearResults },
                    );
                    if params.mode == SearchMode::Literal || params.mode == SearchMode::Regexp {
                        let n = utf8_len_of(&chars_of(params.query.as_str()));
                        if n >= 2 {
                            actions.push(
                                HandlerAction::Spawn(SearchParams { query: params.query.clone(), mode: params.mode }),
                            );
                        }
                    }
                },
                _ => {},
            }
        }
        actions
    }

    /// The messages after a search: each hit of the request, then the
    /// completion; a failed search (`None`) only completes.
    pub fn search_finished(&self, hits: Option<Vec<SearchResult>>, request_id: &str) -> (actions: Vec<HandlerAction>)
        ensures
            match hits {
                None => actions@.len() == 1,
                Some(v) => {
                    &&& actions@.len() == v@.len() + 1
                    &&& forall|k: int| 0 <= k < v@.len() ==> is_send(
                        #[trigger] actions@[k],
                        "pushSearchResult"@,
                        |p: FaeMessage| p matches FaeMessage::PushSearchResult { result, request_id: rid }
                            && result@ == v@[k]@ && rid@ == request_id@,
                    )
                },
            },
            is_send(actions@[actions@.len() - 1], "completeSearch"@, |p: FaeMessage| p is CompleteSearch),
    {
        let mut actions: Vec<HandlerAction> = Vec::new();
        match hits {
            Some(v) => {
                let mut k: usize = 0;
                while k < v.len()
                    invariant
                        k <= v@.len(),
                        actions@.len() == k,
                        forall|m: int| 0 <= m < k ==> is_send(
                            #[trigger] actions@[m],
                            "pushSearchResult"@,
                            |p: FaeMessage| p matches FaeMessage::PushSearchResult { result, request_id: rid }
                                && result@ == v@[m]@ && rid@ == request_id@,
                        ),
                    decreases v@.len() - k,
                {
                    let r = v[k].duplicate();
                    actions.push(
                        HandlerAction::Send {
                            method: "pushSearchResult".to_owned(),
                            payload: FaeMessage::PushSearchResult { result: r, request_id: request_id.to_owned() },
                        },
                    );
                    k = k + 1;
                }
            },
            None => {},
        }
        actions.push(HandlerAction::Send { method: "completeSearch".to_owned(), payload: FaeMessage::CompleteSearch });
        actions
    }
}

} // verus!
