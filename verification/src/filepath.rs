//! Fuzzy search on file and directory paths.

use vstd::prelude::*;
use crate::types::{SearchMode, SearchParams, SearchResult, ResultView, FaeMessage, HandlerAction, result_views, is_send};
use crate::text::{chars_of, push_char, push_str, str_eq, string_of_range};
use crate::fuzzy::{skim_indices, fuzzy_indices};
use crate::ranking::{sort_by_score, sort_by_score_desc, strip_scores, items_of, map_items, lemma_sort_map,
    lemma_sort_permutes, lemma_sort_descending, lemma_sort_member};
use crate::message::Message;

verus! {

/// A path found under the search root.
#[derive(Debug, Clone)]
pub struct PathEntry {
    /// The path as the walker reported it.
    pub path: String,
    /// The path relative to the search root.
    pub relative_path: String,
    pub is_dir: bool,
}

/// The marker put in front of a path match.
pub open spec fn type_indicator(is_dir: bool) -> Seq<char> {
    if is_dir { "[DIR] "@ } else { "[FILE] "@ }
}

/// The result of a path that matched the query with a score and positions.
pub open spec fn path_match_view(e_path: Seq<char>, rel: Seq<char>, is_dir: bool, score: i64) -> ResultView {
    ResultView { filename: e_path, line: 1, column: score as u32, content: type_indicator(is_dir) + rel }
}

/// The scored results of the entries whose relative path matches the query,
/// in walk order; the key is the score as stored in the result's column.
pub open spec fn path_matches(entries: Seq<PathEntry>, query: Seq<char>) -> Seq<(i64, ResultView)>
    decreases entries.len(),
{
    if entries.len() == 0 {
        Seq::empty()
    } else {
        let e = entries.last();
        let prev = path_matches(entries.drop_last(), query);
        match skim_indices(e.relative_path@, query) {
            Some((s, _)) => prev.push((s as u32 as i64, path_match_view(e.path@, e.relative_path@, e.is_dir, s))),
            None => prev,
        }
    }
}

/// What a path search returns: nothing outside file path mode, otherwise
/// the matching entries ordered by descending score (ties in walk order).
pub open spec fn filepath_search(entries: Seq<PathEntry>, query: Seq<char>, mode: SearchMode) -> Seq<ResultView> {
    if mode != SearchMode::Filepath {
        Seq::empty()
    } else {
        items_of(sort_by_score(path_matches(entries, query)))
    }
}

/// The fuzzy score of a path that the matcher matches.
pub open spec fn match_score(rel: Seq<char>, query: Seq<char>) -> i64 {
    match skim_indices(rel, query) {
        Some((s, _)) => s,
        None => 0,
    }
}

proof fn lemma_path_matches_keyed(entries: Seq<PathEntry>, query: Seq<char>)
    ensures
        forall|k: int| 0 <= k < path_matches(entries, query).len() ==> {
            let p = #[trigger] path_matches(entries, query)[k];
            &&& p.0 == p.1.column as i64
            &&& p.1.line == 1
            &&& exists|i: int| 0 <= i < entries.len() && skim_indices(entries[i].relative_path@, query) is Some
                && p.1 == path_match_view(entries[i].path@, entries[i].relative_path@, entries[i].is_dir,
                    match_score(entries[i].relative_path@, query))
        },
    decreases entries.len(),
{
    if entries.len() > 0 {
        let init = entries.drop_last();
        lemma_path_matches_keyed(init, query);
        let prev = path_matches(init, query);
        let cur = path_matches(entries, query);
        assert forall|k: int| 0 <= k < cur.len() implies {
            let p = #[trigger] cur[k];
            &&& p.0 == p.1.column as i64
            &&& p.1.line == 1
            &&& exists|i: int| 0 <= i < entries.len() && skim_indices(entries[i].relative_path@, query) is Some
                && p.1 == path_match_view(entries[i].path@, entries[i].relative_path@, entries[i].is_dir,
                    match_score(entries[i].relative_path@, query))
        } by {
            if k < prev.len() {
                assert(cur[k] == prev[k]);
                let p = prev[k];
                let i = choose|i: int| 0 <= i < init.len() && skim_indices(init[i].relative_path@, query) is Some
                    && p.1 == path_match_view(init[i].path@, init[i].relative_path@, init[i].is_dir,
                        match_score(init[i].relative_path@, query));
                assert(init[i] == entries[i]);
            } else {
                let i = entries.len() - 1;
                assert(entries.last() == entries[i]);
            }
        }
    }
}

/// What a path search returns, in terms of the entries: outside file path
/// mode nothing; otherwise as many results as entries whose relative path
/// the fuzzy matcher matches, each the marked result of such an entry on
/// line 1 with its score as its column, best score first (columns never
/// increase along the list).
pub proof fn lemma_filepath_search_ranked(entries: Seq<PathEntry>, query: Seq<char>, mode: SearchMode)
    ensures
        mode != SearchMode::Filepath ==> filepath_search(entries, query, mode).len() == 0,
        mode == SearchMode::Filepath ==> {
            let r = filepath_search(entries, query, mode);
            &&& r.len() == path_matches(entries, query).len()
            &&& forall|i: int, j: int| 0 <= i <= j < r.len() ==> r[i].column >= r[j].column
            &&& forall|k: int| 0 <= k < r.len() ==> (#[trigger] r[k]).line == 1 && exists|i: int|
                0 <= i < entries.len() && skim_indices(entries[i].relative_path@, query) is Some
                    && r[k] == path_match_view(entries[i].path@, entries[i].relative_path@, entries[i].is_dir,
                    match_score(entries[i].relative_path@, query))
        },
{
    if mode == SearchMode::Filepath {
        let src = path_matches(entries, query);
        let m = sort_by_score(src);
        let r = items_of(m);
        lemma_sort_permutes(src);
        lemma_sort_descending(src);
        lemma_path_matches_keyed(entries, query);
        assert forall|k: int| 0 <= k < m.len() implies #[trigger] m[k].0 == m[k].1.column as i64 && m[k].1.line == 1
            && exists|i: int| 0 <= i < entries.len() && skim_indices(entries[i].relative_path@, query) is Some
                && m[k].1 == path_match_view(entries[i].path@, entries[i].relative_path@, entries[i].is_dir,
                match_score(entries[i].relative_path@, query)) by {
            lemma_sort_member(src, k);
            let j = choose|j: int| 0 <= j < src.len() && src[j] == m[k];
            assert(src[j] == m[k]);
        }
        assert forall|i: int, j: int| 0 <= i <= j < r.len() implies r[i].column >= r[j].column by {
            assert(m[i].0 >= m[j].0);
            assert(r[i] == m[i].1 && r[j] == m[j].1);
        }
        assert forall|k: int| 0 <= k < r.len() implies (#[trigger] r[k]).line == 1 && exists|i: int|
            0 <= i < entries.len() && skim_indices(entries[i].relative_path@, query) is Some
                && r[k] == path_match_view(entries[i].path@, entries[i].relative_path@, entries[i].is_dir,
                match_score(entries[i].relative_path@, query)) by {
            assert(r[k] == m[k].1);
            assert(m[k].0 == m[k].1.column as i64);
            let i = choose|i: int| 0 <= i < entries.len() && skim_indices(entries[i].relative_path@, query) is Some
                && m[k].1 == path_match_view(entries[i].path@, entries[i].relative_path@, entries[i].is_dir,
                match_score(entries[i].relative_path@, query));
            assert(r[k] == path_match_view(entries[i].path@, entries[i].relative_path@, entries[i].is_dir,
                match_score(entries[i].relative_path@, query)));
        }
    }
}

/// Runs path searches for the unified search messages.
pub struct FilepathSearchHandler {
    pub search_path: String,
}

impl FilepathSearchHandler {
    /// A handler searching below `search_path`.
    pub fn new(search_path: String) -> (h: FilepathSearchHandler)
        ensures
            h.search_path == search_path,
    {
        FilepathSearchHandler { search_path }
    }

    /// The shown text of a path match: `[DIR] ` or `[FILE] ` followed by the
    /// path. Every matched position must lie within the path (one past its
    /// end is allowed), as the positions a matcher reports do.
    pub fn format_match_content(path: &str, indices: &[usize], is_dir: bool) -> (r: String)
        requires
            forall|k: int| 0 <= k < indices@.len() ==> #[trigger] indices@[k] <= path@.len(),
        ensures
            r@ == type_indicator(is_dir) + path@,
    {
        let chars = chars_of(path);
        let mut content = String::new();
        if is_dir {
            push_str(&mut content, "[DIR] ");
        } else {
            push_str(&mut content, "[FILE] ");
        }
        let ghost ind = content@;
        assert(ind == type_indicator(is_dir));
        // `last_idx` counts the characters already copied; `past_end` records
        // that a position one past the end was seen (all characters copied).
        let mut last_idx: usize = 0;
        let mut past_end = false;
        let mut k: usize = 0;
        while k < indices.len()
            invariant
                k <= indices@.len(),
                chars@ == path@,
                forall|m: int| 0 <= m < indices@.len() ==> #[trigger] indices@[m] <= path@.len(),
                last_idx <= chars@.len(),
                past_end ==> last_idx == chars@.len(),
                content@ == ind + chars@.subrange(0, last_idx as int),
            decreases indices@.len() - k,
        {
            let idx = indices[k];
            if !past_end && idx >= last_idx {
                crate::text::push_range(&mut content, &chars, last_idx, idx);
                if idx < chars.len() {
                    push_char(&mut content, chars[idx]);
                    assert(chars@.subrange(0, idx + 1) =~= chars@.subrange(0, last_idx as int)
                        + chars@.subrange(last_idx as int, idx as int) + seq![chars@[idx as int]]);
                    last_idx = idx + 1;
                } else {
                    assert(chars@.subrange(0, idx as int) =~= chars@.subrange(0, last_idx as int)
                        + chars@.subrange(last_idx as int, idx as int));
                    last_idx = idx;
                    past_end = true;
                }
            }
            k = k + 1;
        }
        if last_idx < chars.len() {
            crate::text::push_range(&mut content, &chars, last_idx, chars.len());
            assert(chars@.subrange(0, last_idx as int) + chars@.subrange(last_idx as int, chars@.len() as int)
                =~= chars@);
        } else {
            assert(chars@.subrange(0, last_idx as int) =~= chars@);
        }
        content
    }

    /// Matches every entry's relative path against the query and returns
    /// the matches best first (only in file path mode). A match's line is 1,
    /// its column the score, and its text the marked path.
    pub fn search_filepaths(entries: &Vec<PathEntry>, query: &str, mode: SearchMode) -> (r: Vec<SearchResult>)
        ensures
            result_views(r@) == filepath_search(entries@, query@, mode),
    {
        if mode != SearchMode::Filepath {
            let r: Vec<SearchResult> = Vec::new();
            assert(result_views(r@) =~= Seq::<ResultView>::empty());
            return r;
        }
        let mut scored: Vec<(i64, SearchResult)> = Vec::new();
        let mut i: usize = 0;
        while i < entries.len()
            invariant
                i <= entries@.len(),
                map_items(scored@, |x: SearchResult| x@) == path_matches(entries@.subrange(0, i as int), query@),
            decreases entries@.len() - i,
        {
            let e = &entries[i];
            assert(entries@.subrange(0, i + 1).drop_last() =~= entries@.subrange(0, i as int));
            match fuzzy_indices(e.relative_path.as_str(), query) {
                Some((score, indices)) => {
                    let content = Self::format_match_content(e.relative_path.as_str(), indices.as_slice(), e.is_dir);
                    let col = score as u32;
                    let res = SearchResult { filename: e.path.clone(), line: 1, column: col, content };
                    scored.push((col as i64, res));
                    assert(map_items(scored@, |x: SearchResult| x@) =~= path_matches(entries@.subrange(0, i + 1), query@));
                },
                None => {
                    assert(map_items(scored@, |x: SearchResult| x@) =~= path_matches(entries@.subrange(0, i + 1), query@));
                },
            }
            i = i + 1;
        }
        assert(entries@.subrange(0, entries@.len() as int) =~= entries@);
        let ghost before = scored@;
        let sorted = sort_by_score_desc(scored);
        proof { lemma_sort_map(before, |x: SearchResult| x@); }
        let r = strip_scores(sorted);
        assert(result_views(r@) =~= items_of(map_items(sort_by_score(before), |x: SearchResult| x@)));
        r
    }

    /// A search request clears the results; in file path mode it then asks
    /// for the search to run; other messages and modes are ignored.
    pub fn on_message(&self, message: Message<FaeMessage>) -> (actions: Vec<HandlerAction>)
        ensures
            if message.method@ == "updateSearchParams"@ {
                match message.payload {
                    FaeMessage::UpdateSearchParams { params, .. } => {
                        &&& actions@.len() >= 1
                        &&& is_send(actions@[0], "clearResults"@, |p: FaeMessage| p is ClearResults)
                        &&& if params.mode == SearchMode::Filepath {
                            &&& actions@.len() == 2
                            &&& actions@[1] matches HandlerAction::Spawn(sp)
                            &&& sp.query@ == params.query@
                            &&& sp.mode == params.mode
                        } else {
                            actions@.len() == 1
                        }
                    },
                    _ => actions@.len() == 0,
                }
            } else {
                actions@.len() == 0
            },
    {
        let mut actions: Vec<HandlerAction> = Vec::new();
        if str_eq(message.method.as_str(), "updateSearchParams") {
            match message.payload {
                FaeMessage::UpdateSearchParams { params, .. } => {
                    actions.push(HandlerAction::Send { method: "clearResults".to_owned(), payload: FaeMessage::ClearResults });
                    if params.mode == SearchMode::Filepath {
                        actions.push(HandlerAction::Spawn(params));
                    }
                },
                _ => {},
            }
        }
        actions
    }
}

} // verus!
