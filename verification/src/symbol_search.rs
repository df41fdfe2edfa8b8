//! The symbol index kept per file, and fuzzy search over it.

use vstd::prelude::*;
use crate::types::{SearchMode, SearchParams, SearchResult, ResultView, Symbol, SymbolType, FaeMessage, HandlerAction,
    symbol_type_name, is_value_kind, is_send};
use crate::text::{push_char, push_str, str_eq};
use crate::fuzzy::{skim_score, fuzzy_match};
use crate::ranking::{sort_by_score, sort_by_score_desc, scores_descending, lemma_sort_permutes, lemma_sort_descending,
    lemma_sort_member};
use crate::message::Message;

verus! {

/// The most results one symbol search sends.
pub const MAX_SYMBOL_RESULTS: usize = 50;

/// Whether a symbol takes part in a search of the given mode: symbol
/// searches exclude value kinds (variables, constants, fields, parameters),
/// variable searches take only those, other modes take none.
pub open spec fn allowed_for_mode(t: SymbolType, mode: SearchMode) -> bool {
    match mode {
        SearchMode::Symbol => !is_value_kind(t),
        SearchMode::Variable => is_value_kind(t),
        _ => false,
    }
}

/// The scored symbols of one file that are allowed in the mode and match
/// the query, in file order.
pub open spec fn file_matches(syms: Seq<Symbol>, query: Seq<char>, mode: SearchMode) -> Seq<(i64, Symbol)>
    decreases syms.len(),
{
    if syms.len() == 0 {
        Seq::empty()
    } else {
        let prev = file_matches(syms.drop_last(), query, mode);
        let s = syms.last();
        if allowed_for_mode(s.symbol_type, mode) && skim_score(s.content@, query) is Some {
            prev.push((skim_score(s.content@, query).unwrap(), s))
        } else {
            prev
        }
    }
}

/// The scored matching symbols of all files, files in index order.
pub open spec fn index_matches(entries: Seq<(String, Vec<Symbol>)>, query: Seq<char>, mode: SearchMode) -> Seq<(i64, Symbol)>
    decreases entries.len(),
{
    if entries.len() == 0 {
        Seq::empty()
    } else {
        index_matches(entries.drop_last(), query, mode) + file_matches(entries.last().1@, query, mode)
    }
}

/// The result shown for a matching symbol: its location, and its text
/// behind its kind in brackets.
pub open spec fn symbol_result(s: Symbol) -> ResultView {
    ResultView {
        filename: s.filepath@,
        line: s.line,
        column: s.column,
        content: seq!['['] + symbol_type_name(s.symbol_type) + seq![']', ' '] + s.content@,
    }
}

/// The results of a symbol search: the best [`MAX_SYMBOL_RESULTS`] matches
/// by descending score (ties in index order).
pub open spec fn symbol_search_results(entries: Seq<(String, Vec<Symbol>)>, query: Seq<char>, mode: SearchMode) -> Seq<ResultView> {
    let sorted = sort_by_score(index_matches(entries, query, mode));
    let n = if sorted.len() < 50 { sorted.len() } else { 50 };
    sorted.subrange(0, n as int).map_values(|p: (i64, Symbol)| symbol_result(p.1))
}

/// Whether a scored symbol is a match of the query in the mode: its kind
/// is allowed and its score is the fuzzy score of its text.
pub open spec fn is_scored_match(p: (i64, Symbol), query: Seq<char>, mode: SearchMode) -> bool {
    allowed_for_mode(p.1.symbol_type, mode) && skim_score(p.1.content@, query) == Some(p.0)
}

proof fn lemma_file_matches_scored(syms: Seq<Symbol>, query: Seq<char>, mode: SearchMode)
    ensures
        forall|k: int| 0 <= k < file_matches(syms, query, mode).len() ==> #[trigger] is_scored_match(
            file_matches(syms, query, mode)[k], query, mode),
    decreases syms.len(),
{
    if syms.len() > 0 {
        lemma_file_matches_scored(syms.drop_last(), query, mode);
        let prev = file_matches(syms.drop_last(), query, mode);
        let cur = file_matches(syms, query, mode);
        assert forall|k: int| 0 <= k < cur.len() implies #[trigger] is_scored_match(cur[k], query, mode) by {
            if k < prev.len() {
                assert(cur[k] == prev[k]);
            }
        }
    }
}

proof fn lemma_index_matches_scored(entries: Seq<(String, Vec<Symbol>)>, query: Seq<char>, mode: SearchMode)
    ensures
        forall|k: int| 0 <= k < index_matches(entries, query, mode).len() ==> #[trigger] is_scored_match(
            index_matches(entries, query, mode)[k], query, mode),
    decreases entries.len(),
{
    if entries.len() > 0 {
        lemma_index_matches_scored(entries.drop_last(), query, mode);
        lemma_file_matches_scored(entries.last().1@, query, mode);
        let a = index_matches(entries.drop_last(), query, mode);
        let b = file_matches(entries.last().1@, query, mode);
        let cur = index_matches(entries, query, mode);
        assert forall|k: int| 0 <= k < cur.len() implies #[trigger] is_scored_match(cur[k], query, mode) by {
            if k < a.len() {
                assert(cur[k] == a[k]);
            } else {
                assert(cur[k] == b[k - a.len()]);
            }
        }
    }
}

/// What a symbol search returns, in terms of the index: there is an
/// ordering of all matches of the query (allowed kinds whose text the
/// fuzzy matcher scores) by non-increasing score, and the results are the
/// first fifty of it (all when fewer). So the best match comes first, and
/// no match left out scores higher than one sent.
pub proof fn lemma_symbol_search_ranked(entries: Seq<(String, Vec<Symbol>)>, query: Seq<char>, mode: SearchMode)
    ensures
        exists|m: Seq<(i64, Symbol)>| {
            &&& #[trigger] m.to_multiset() == index_matches(entries, query, mode).to_multiset()
            &&& m.len() == index_matches(entries, query, mode).len()
            &&& forall|i: int, j: int| 0 <= i <= j < m.len() ==> m[i].0 >= m[j].0
            &&& forall|k: int| 0 <= k < m.len() ==> #[trigger] is_scored_match(m[k], query, mode)
            &&& symbol_search_results(entries, query, mode).len() == (if m.len() < 50 { m.len() } else { 50 })
            &&& forall|k: int| 0 <= k < symbol_search_results(entries, query, mode).len()
                ==> #[trigger] symbol_search_results(entries, query, mode)[k] == symbol_result(m[k].1)
        },
{
    let src = index_matches(entries, query, mode);
    let m = sort_by_score(src);
    lemma_sort_permutes(src);
    lemma_sort_descending(src);
    lemma_index_matches_scored(entries, query, mode);
    assert forall|k: int| 0 <= k < m.len() implies #[trigger] is_scored_match(m[k], query, mode) by {
        lemma_sort_member(src, k);
        let j = choose|j: int| 0 <= j < src.len() && src[j] == m[k];
        assert(is_scored_match(src[j], query, mode));
    }
    assert(m.to_multiset() == src.to_multiset());
}

/// The messages a symbol search sends: none outside symbol and variable
/// modes, for an empty query, or before the initial indexing finished;
/// otherwise one `pushSearchResult` per result of the request, in order,
/// then `completeSearch`.
pub open spec fn search_outcome(
    actions: Seq<HandlerAction>,
    entries: Seq<(String, Vec<Symbol>)>,
    done: bool,
    params: SearchParams,
    rid: Seq<char>,
) -> bool {
    if !(params.mode == SearchMode::Symbol || params.mode == SearchMode::Variable) || params.query@.len() == 0 || !done {
        actions.len() == 0
    } else {
        let res = symbol_search_results(entries, params.query@, params.mode);
        &&& actions.len() == res.len() + 1
        &&& forall|k: int| 0 <= k < res.len() ==> is_send(#[trigger] actions[k], "pushSearchResult"@, |p: FaeMessage|
            p matches FaeMessage::PushSearchResult { result, request_id: q } && result@ == res[k] && q@ == rid)
        &&& is_send(actions[res.len() as int], "completeSearch"@, |p: FaeMessage| p is CompleteSearch)
    }
}

/// The number of symbols in index entries.
pub open spec fn total_symbols(entries: Seq<(String, Vec<Symbol>)>) -> nat
    decreases entries.len(),
{
    if entries.len() == 0 {
        0
    } else {
        total_symbols(entries.drop_last()) + entries.last().1@.len()
    }
}

/// `new_e` is `old_e` with `symbol` added to its file's entry, or with a
/// new entry for the file at the end.
pub open spec fn symbol_added(old_e: Seq<(String, Vec<Symbol>)>, new_e: Seq<(String, Vec<Symbol>)>, symbol: Symbol) -> bool {
    match find_entry(old_e, symbol.filepath@) {
        Some(i) => new_e.len() == old_e.len() && new_e[i].0 == old_e[i].0 && new_e[i].1@ == old_e[i].1@.push(symbol)
            && forall|j: int| 0 <= j < old_e.len() && j != i ==> new_e[j] == old_e[j],
        None => new_e.len() == old_e.len() + 1 && new_e.drop_last() == old_e && new_e.last().0@
            == symbol.filepath@ && new_e.last().1@ == seq![symbol],
    }
}

/// Whether no file has two index entries.
pub open spec fn distinct_files(entries: Seq<(String, Vec<Symbol>)>) -> bool {
    forall|i: int, j: int| 0 <= i < j < entries.len() ==> entries[i].0@ != entries[j].0@
}

/// Keeps the symbols of every file and answers symbol searches.
pub struct SymbolSearchHandler {
    symbol_index: Vec<(String, Vec<Symbol>)>,
    current_search: Option<(SearchParams, String)>,
    initial_indexing_complete: bool,
}

impl SymbolSearchHandler {
    /// The index entries (file, symbols), in the order files were first seen.
    pub closed spec fn entries(&self) -> Seq<(String, Vec<Symbol>)> {
        self.symbol_index@
    }

    /// Whether the initial indexing finished.
    pub closed spec fn indexing_done(&self) -> bool {
        self.initial_indexing_complete
    }

    /// The last search request, if any.
    pub closed spec fn pending(&self) -> Option<(SearchParams, String)> {
        self.current_search
    }

    /// The index's invariant: one entry per file.
    pub open spec fn well_formed(&self) -> bool {
        distinct_files(self.entries())
    }

    /// An empty index; searches wait for the initial indexing.
    pub fn new() -> (h: SymbolSearchHandler)
        ensures
            h.well_formed(),
            h.entries().len() == 0,
            !h.indexing_done(),
            h.pending() is None,
    {
        SymbolSearchHandler { symbol_index: Vec::new(), current_search: None, initial_indexing_complete: false }
    }

    /// Whether the initial indexing finished.
    pub fn is_initial_indexing_complete(&self) -> (b: bool)
        ensures
            b == self.indexing_done(),
    {
        self.initial_indexing_complete
    }

    fn find_file(&self, filepath: &str) -> (r: Option<usize>)
        ensures
            match r {
                Some(i) => i < self.entries().len() && self.entries()[i as int].0@ == filepath@,
                None => forall|i: int| 0 <= i < self.entries().len() ==> self.entries()[i].0@ != filepath@,
            },
    {
        let mut i: usize = 0;
        while i < self.symbol_index.len()
            invariant
                i <= self.symbol_index@.len(),
                forall|k: int| 0 <= k < i ==> self.symbol_index@[k].0@ != filepath@,
            decreases self.symbol_index@.len() - i,
        {
            if str_eq(self.symbol_index[i].0.as_str(), filepath) {
                return Some(i);
            }
            i = i + 1;
        }
        None
    }

    /// Forgets the symbols of a file.
    pub fn clear_file_symbols(&mut self, filepath: &str)
        requires
            old(self).well_formed(),
        ensures
            final(self).well_formed(),
            forall|i: int| 0 <= i < final(self).entries().len() ==> final(self).entries()[i].0@ != filepath@,
            match find_entry(old(self).entries(), filepath@) {
                Some(i) => final(self).entries() == old(self).entries().remove(i),
                None => final(self).entries() == old(self).entries(),
            },
            final(self).indexing_done() == old(self).indexing_done(),
            final(self).pending() == old(self).pending(),
    {
        let ghost old_e = self.symbol_index@;
        match self.find_file(filepath) {
            Some(i) => {
                self.symbol_index.remove(i);
                proof {
                    let s = self.symbol_index@;
                    assert(s =~= old_e.remove(i as int));
                    assert forall|a: int, b: int| 0 <= a < b < s.len() implies s[a].0@ != s[b].0@ by {
                        let a2 = if a < i { a } else { a + 1 };
                        let b2 = if b < i { b } else { b + 1 };
                        assert(s[a] == old_e[a2] && s[b] == old_e[b2]);
                    }
                    assert forall|j: int| 0 <= j < s.len() implies s[j].0@ != filepath@ by {
                        let j2 = if j < i { j } else { j + 1 };
                        assert(s[j] == old_e[j2]);
                    }
                    lemma_find_entry_at(old_e, i as int, filepath@);
                }
            },
            None => {
                proof { lemma_find_entry_none(old_e, filepath@); }
            },
        }
    }

    /// Adds a symbol to its file's entry (a new entry goes last).
    pub fn add_symbol(&mut self, symbol: Symbol)
        requires
            old(self).well_formed(),
        ensures
            final(self).well_formed(),
            final(self).indexing_done() == old(self).indexing_done(),
            final(self).pending() == old(self).pending(),
            symbol_added(old(self).entries(), final(self).entries(), symbol),
    {
        let ghost old_e = self.symbol_index@;
        match self.find_file(symbol.filepath.as_str()) {
            Some(i) => {
                proof { lemma_find_entry_at(old_e, i as int, symbol.filepath@); }
                let mut entry = self.symbol_index.remove(i);
                entry.1.push(symbol);
                self.symbol_index.insert(i, entry);
                proof {
                    let s = self.symbol_index@;
                    assert(s =~= old_e.update(i as int, s[i as int]));
                    assert forall|a: int, b: int| 0 <= a < b < s.len() implies s[a].0@ != s[b].0@ by {
                        assert(s[a].0@ == old_e[a].0@ && s[b].0@ == old_e[b].0@);
                    }
                }
            },
            None => {
                proof { lemma_find_entry_none(old_e, symbol.filepath@); }
                let path = symbol.filepath.clone();
                let mut syms: Vec<Symbol> = Vec::new();
                syms.push(symbol);
                self.symbol_index.push((path, syms));
                proof {
                    let s = self.symbol_index@;
                    assert(s.drop_last() =~= old_e);
                    assert(s.last().1@ =~= seq![symbol]);
                }
            },
        }
    }

    /// The number of files and of symbols in the index.
    pub fn get_index_stats(&self) -> (r: (usize, usize))
        requires
            total_symbols(self.entries()) <= usize::MAX,
        ensures
            r.0 == self.entries().len(),
            r.1 == total_symbols(self.entries()),
    {
        let mut total: usize = 0;
        let mut i: usize = 0;
        while i < self.symbol_index.len()
            invariant
                i <= self.symbol_index@.len(),
                total == total_symbols(self.symbol_index@.subrange(0, i as int)),
                total_symbols(self.symbol_index@) <= usize::MAX,
            decreases self.symbol_index@.len() - i,
        {
            proof {
                assert(self.symbol_index@.subrange(0, i + 1).drop_last() =~= self.symbol_index@.subrange(0, i as int));
                lemma_total_prefix(self.symbol_index@, i + 1);
            }
            total = total + self.symbol_index[i].1.len();
            i = i + 1;
        }
        assert(self.symbol_index@.subrange(0, i as int) =~= self.symbol_index@);
        (self.symbol_index.len(), total)
    }

    /// Whether a symbol takes part in a search of the given mode.
    pub fn is_symbol_allowed_for_mode(&self, symbol: &Symbol, mode: SearchMode) -> (b: bool)
        ensures
            b == allowed_for_mode(symbol.symbol_type, mode),
    {
        match mode {
            SearchMode::Symbol => !symbol.symbol_type.is_value(),
            SearchMode::Variable => symbol.symbol_type.is_value(),
            _ => false,
        }
    }

    fn collect_matches(&self, query: &str, mode: SearchMode) -> (r: Vec<(i64, Symbol)>)
        ensures
            r@ == index_matches(self.entries(), query@, mode),
    {
        let mut r: Vec<(i64, Symbol)> = Vec::new();
        let mut i: usize = 0;
        while i < self.symbol_index.len()
            invariant
                i <= self.symbol_index@.len(),
                r@ == index_matches(self.symbol_index@.subrange(0, i as int), query@, mode),
            decreases self.symbol_index@.len() - i,
        {
            let syms = &self.symbol_index[i].1;
            let ghost before = r@;
            let mut k: usize = 0;
            while k < syms.len()
                invariant
                    k <= syms@.len(),
                    r@ == before + file_matches(syms@.subrange(0, k as int), query@, mode),
                decreases syms@.len() - k,
            {
                let s = &syms[k];
                assert(syms@.subrange(0, k + 1).drop_last() =~= syms@.subrange(0, k as int));
                if self.is_symbol_allowed_for_mode(s, mode) {
                    match fuzzy_match(s.content.as_str(), query) {
                        Some(score) => {
                            r.push((score, s.duplicate()));
                        },
                        None => {},
                    }
                }
                assert(r@ =~= before + file_matches(syms@.subrange(0, k + 1), query@, mode));
                k = k + 1;
            }
            assert(syms@.subrange(0, syms@.len() as int) =~= syms@);
            assert(self.symbol_index@.subrange(0, i + 1).drop_last() =~= self.symbol_index@.subrange(0, i as int));
            i = i + 1;
        }
        assert(self.symbol_index@.subrange(0, i as int) =~= self.symbol_index@);
        r
    }

    /// Runs a symbol search. Nothing is sent outside symbol and variable
    /// modes, for an empty query, or before the initial indexing finished.
    /// Otherwise the best matches are sent as `pushSearchResult` messages of
    /// the request, followed by `completeSearch`.
    pub fn perform_search(&self, params: &SearchParams, request_id: &str) -> (actions: Vec<HandlerAction>)
        ensures
            search_outcome(actions@, self.entries(), self.indexing_done(), *params, request_id@),
    {
        let mut actions: Vec<HandlerAction> = Vec::new();
        if !(params.mode == SearchMode::Symbol || params.mode == SearchMode::Variable) {
            return actions;
        }
        if params.query.as_str().is_empty() || !self.initial_indexing_complete {
            return actions;
        }
        let matches = self.collect_matches(params.query.as_str(), params.mode);
        let ghost m0 = matches@;
        let sorted = sort_by_score_desc(matches);
        let n = if sorted.len() < MAX_SYMBOL_RESULTS { sorted.len() } else { MAX_SYMBOL_RESULTS };
        let ghost res = symbol_search_results(self.entries(), params.query@, params.mode);
        assert(res.len() == n);
        let mut k: usize = 0;
        while k < n
            invariant
                k <= n <= sorted@.len(),
                sorted@ == sort_by_score(m0),
                m0 == index_matches(self.entries(), params.query@, params.mode),
                res == symbol_search_results(self.entries(), params.query@, params.mode),
                res.len() == n,
                actions@.len() == k,
                forall|j: int| 0 <= j < k ==> is_send(#[trigger] actions@[j], "pushSearchResult"@, |p: FaeMessage|
                    p matches FaeMessage::PushSearchResult { result, request_id: q } && result@ == res[j] && q@ == request_id@),
            decreases n - k,
        {
            let s = &sorted[k].1;
            let mut content = String::new();
            push_char(&mut content, '[');
            push_str(&mut content, s.symbol_type.display_name());
            push_char(&mut content, ']');
            push_char(&mut content, ' ');
            push_str(&mut content, s.content.as_str());
            let result = SearchResult { filename: s.filepath.clone(), line: s.line, column: s.column, content };
            assert(result@ =~= res[k as int]) by {
                assert(res[k as int] == symbol_result(sorted@[k as int].1));
                assert(result@.content =~= symbol_result(sorted@[k as int].1).content);
            }
            actions.push(HandlerAction::Send {
                method: "pushSearchResult".to_owned(),
                payload: FaeMessage::PushSearchResult { result, request_id: request_id.to_owned() },
            });
            k = k + 1;
        }
        actions.push(HandlerAction::Send { method: "completeSearch".to_owned(), payload: FaeMessage::CompleteSearch });
        actions
    }
    /// Dispatches a message: index messages change the index
    /// (`clearSymbolIndex`, `pushSymbolIndex`), the end of the initial
    /// indexing enables searching and runs the last requested search, and a
    /// search request is remembered and run. Other messages change nothing.
    pub fn on_message(&mut self, message: Message<FaeMessage>) -> (actions: Vec<HandlerAction>)
        requires
            old(self).well_formed(),
        ensures
            final(self).well_formed(),
            if message.method@ == "clearSymbolIndex"@ && message.payload is ClearSymbolIndex {
                &&& actions@.len() == 0
                &&& match find_entry(old(self).entries(), message.payload->ClearSymbolIndex_0@) {
                    Some(i) => final(self).entries() == old(self).entries().remove(i),
                    None => final(self).entries() == old(self).entries(),
                }
                &&& final(self).indexing_done() == old(self).indexing_done()
                &&& final(self).pending() == old(self).pending()
            } else if message.method@ == "pushSymbolIndex"@ && message.payload is PushSymbolIndex {
                &&& actions@.len() == 0
                &&& message.payload matches FaeMessage::PushSymbolIndex { filepath, line, column, content, symbol_type, .. }
                    && symbol_added(old(self).entries(), final(self).entries(), Symbol { filepath, line, column, content, symbol_type })
                &&& total_symbols(final(self).entries()) == total_symbols(old(self).entries()) + 1
                &&& final(self).indexing_done() == old(self).indexing_done()
                &&& final(self).pending() == old(self).pending()
            } else if message.method@ == "completeInitialIndexing"@ && message.payload is CompleteInitialIndexing {
                &&& final(self).indexing_done()
                &&& final(self).entries() == old(self).entries()
                &&& final(self).pending() == old(self).pending()
                &&& match old(self).pending() {
                    Some((params, rid)) => search_outcome(actions@, old(self).entries(), true, params, rid@),
                    None => actions@.len() == 0,
                }
            } else if message.method@ == "updateSearchParams"@ && message.payload is UpdateSearchParams {
                &&& final(self).entries() == old(self).entries()
                &&& final(self).indexing_done() == old(self).indexing_done()
                &&& final(self).pending() == Some((message.payload->UpdateSearchParams_params, message.payload->UpdateSearchParams_request_id))
                &&& search_outcome(actions@, old(self).entries(), old(self).indexing_done(),
                    message.payload->UpdateSearchParams_params, message.payload->UpdateSearchParams_request_id@)
            } else {
                actions@.len() == 0 && final(self).entries() == old(self).entries()
                    && final(self).indexing_done() == old(self).indexing_done()
                    && final(self).pending() == old(self).pending()
            },
    {
        let is_clear = str_eq(message.method.as_str(), "clearSymbolIndex");
        let is_push = str_eq(message.method.as_str(), "pushSymbolIndex");
        let is_done = str_eq(message.method.as_str(), "completeInitialIndexing");
        let is_update = str_eq(message.method.as_str(), "updateSearchParams");
        match message.payload {
            FaeMessage::ClearSymbolIndex(p) => {
                if is_clear {
                    self.clear_file_symbols(p.as_str());
                }
                Vec::new()
            },
            FaeMessage::PushSymbolIndex { filepath, line, column, name, content, symbol_type } => {
                if is_push {
                    let ghost old_e = self.entries();
                    self.add_symbol(Symbol::new(filepath, line, column, content, symbol_type));
                    proof { lemma_total_after_add(old_e, self.entries()); }
                }
                Vec::new()
            },
            FaeMessage::CompleteInitialIndexing => {
                if is_done {
                    self.initial_indexing_complete = true;
                    match &self.current_search {
                        Some((params, rid)) => self.perform_search(params, rid.as_str()),
                        None => Vec::new(),
                    }
                } else {
                    Vec::new()
                }
            },
            FaeMessage::UpdateSearchParams { params, request_id } => {
                if is_update {
                    let actions = self.perform_search(&params, request_id.as_str());
                    self.current_search = Some((params, request_id));
                    actions
                } else {
                    Vec::new()
                }
            },
            _ => Vec::new(),
        }
    }
}

/// The position of the entry for a file, if there is one.
pub open spec fn find_entry(entries: Seq<(String, Vec<Symbol>)>, path: Seq<char>) -> Option<int> {
    if exists|i: int| 0 <= i < entries.len() && entries[i].0@ == path {
        Some(choose|i: int| 0 <= i < entries.len() && entries[i].0@ == path)
    } else {
        None
    }
}

proof fn lemma_find_entry_at(entries: Seq<(String, Vec<Symbol>)>, i: int, path: Seq<char>)
    requires
        distinct_files(entries),
        0 <= i < entries.len(),
        entries[i].0@ == path,
    ensures
        find_entry(entries, path) == Some(i),
{
    let j = choose|j: int| 0 <= j < entries.len() && entries[j].0@ == path;
    assert(j == i);
}

proof fn lemma_find_entry_none(entries: Seq<(String, Vec<Symbol>)>, path: Seq<char>)
    requires
        forall|i: int| 0 <= i < entries.len() ==> entries[i].0@ != path,
    ensures
        find_entry(entries, path) is None,
{
}

proof fn lemma_total_after_add(old_e: Seq<(String, Vec<Symbol>)>, new_e: Seq<(String, Vec<Symbol>)>)
    requires
        (exists|i: int| 0 <= i < old_e.len() && new_e.len() == old_e.len() && new_e[i].1@.len() == old_e[i].1@.len() + 1
            && forall|j: int| 0 <= j < old_e.len() && j != i ==> new_e[j] == old_e[j])
        || (new_e.len() == old_e.len() + 1 && new_e.drop_last() == old_e && new_e.last().1@.len() == 1),
    ensures
        total_symbols(new_e) == total_symbols(old_e) + 1,
{
    if new_e.len() == old_e.len() + 1 && new_e.drop_last() == old_e && new_e.last().1@.len() == 1 {
    } else {
        let i = choose|i: int| 0 <= i < old_e.len() && new_e.len() == old_e.len() && new_e[i].1@.len() == old_e[i].1@.len() + 1
            && forall|j: int| 0 <= j < old_e.len() && j != i ==> new_e[j] == old_e[j];
        lemma_total_update(old_e, new_e, i);
    }
}

proof fn lemma_total_update(old_e: Seq<(String, Vec<Symbol>)>, new_e: Seq<(String, Vec<Symbol>)>, i: int)
    requires
        0 <= i < old_e.len(),
        new_e.len() == old_e.len(),
        new_e[i].1@.len() == old_e[i].1@.len() + 1,
        forall|j: int| 0 <= j < old_e.len() && j != i ==> new_e[j] == old_e[j],
    ensures
        total_symbols(new_e) == total_symbols(old_e) + 1,
    decreases old_e.len(),
{
    if i < old_e.len() - 1 {
        lemma_total_update(old_e.drop_last(), new_e.drop_last(), i);
        assert(new_e.last() == old_e.last());
    } else {
        assert(new_e.drop_last() =~= old_e.drop_last());
    }
}

proof fn lemma_total_prefix(entries: Seq<(String, Vec<Symbol>)>, i: int)
    requires
        0 <= i <= entries.len(),
    ensures
        total_symbols(entries.subrange(0, i)) <= total_symbols(entries),
    decreases entries.len() - i,
{
    if i < entries.len() {
        lemma_total_prefix(entries, i + 1);
        assert(entries.subrange(0, i + 1).drop_last() =~= entries.subrange(0, i));
    } else {
        assert(entries.subrange(0, i) =~= entries);
    }
}

} // verus!
