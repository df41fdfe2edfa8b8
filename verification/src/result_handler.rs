//! Collection of search results: duplicates per request are dropped, the
//! results are counted, and the end of a search is reported once.

use vstd::prelude::*;
use crate::types::{SearchResult, ResultView, FaeMessage, HandlerAction, texts, is_send};
use crate::text::{decimal, trim, push_char, push_str, push_decimal, trim_string, str_eq, lemma_decimal_digits};
use crate::message::Message;

verus! {

/// The text by which two results of one request count as the same:
/// file, line and trimmed content, separated by colons.
pub open spec fn result_signature(r: ResultView) -> Seq<char> {
    r.filename + seq![':'] + decimal(r.line as nat) + seq![':'] + trim(r.content)
}

/// Two results of one file count as the same exactly when they are on the
/// same line and their contents agree once trimmed: results on different
/// lines never share a signature, so both are passed on.
pub proof fn lemma_signature_identifies_line_and_content(r1: ResultView, r2: ResultView)
    requires
        r1.filename == r2.filename,
    ensures
        result_signature(r1) == result_signature(r2) <==> (r1.line == r2.line && trim(r1.content) == trim(r2.content)),
{
    let f = r1.filename;
    let d1 = decimal(r1.line as nat);
    let d2 = decimal(r2.line as nat);
    let t1 = trim(r1.content);
    let t2 = trim(r2.content);
    lemma_decimal_digits(r1.line as nat);
    lemma_decimal_digits(r2.line as nat);
    if result_signature(r1) == result_signature(r2) {
        let a = result_signature(r1);
        let b = result_signature(r2);
        let n: int = f.len() + 1int;
        let a1 = a.skip(n);
        let b1 = b.skip(n);
        assert(a1 =~= d1 + seq![':'] + t1);
        assert(b1 =~= d2 + seq![':'] + t2);
        assert(a1 == b1);
        if d1.len() < d2.len() {
            assert(a1[d1.len() as int] == ':');
            assert(b1[d1.len() as int] == d2[d1.len() as int]);
            assert(crate::text::is_digit(d2[d1.len() as int]));
            assert(false);
        }
        if d2.len() < d1.len() {
            assert(b1[d2.len() as int] == ':');
            assert(a1[d2.len() as int] == d1[d2.len() as int]);
            assert(crate::text::is_digit(d1[d2.len() as int]));
            assert(false);
        }
        assert(d1 =~= a1.take(d1.len() as int));
        assert(d2 =~= b1.take(d2.len() as int));
        assert(d1 == d2);
        assert(r1.line == r2.line);
        assert(t1 =~= a1.skip(d1.len() + 1int));
        assert(t2 =~= b1.skip(d2.len() + 1int));
    }
}

/// The signature of a search result.
pub fn signature_of(result: &SearchResult) -> (s: String)
    ensures
        s@ == result_signature(result@),
{
    let mut s = String::new();
    push_str(&mut s, result.filename.as_str());
    push_char(&mut s, ':');
    push_decimal(&mut s, result.line as u64);
    push_char(&mut s, ':');
    let t = trim_string(result.content.as_str());
    push_str(&mut s, t.as_str());
    assert(s@ =~= result_signature(result@));
    s
}

/// The signatures recorded for `rid` in a list of (request, signatures)
/// entries; the last entry for the request counts.
pub open spec fn lookup(s: Seq<(String, Vec<String>)>, rid: Seq<char>) -> Set<Seq<char>>
    decreases s.len(),
{
    if s.len() == 0 {
        Set::empty()
    } else if s.last().0@ == rid {
        texts(s.last().1@).to_set()
    } else {
        lookup(s.drop_last(), rid)
    }
}

/// Whether no request appears in two entries.
pub open spec fn distinct_requests(s: Seq<(String, Vec<String>)>) -> bool {
    forall|i: int, j: int| 0 <= i < j < s.len() ==> s[i].0@ != s[j].0@
}

proof fn lemma_lookup_at(s: Seq<(String, Vec<String>)>, i: int, rid: Seq<char>)
    requires
        distinct_requests(s),
        0 <= i < s.len(),
        s[i].0@ == rid,
    ensures
        lookup(s, rid) == texts(s[i].1@).to_set(),
    decreases s.len(),
{
    if i < s.len() - 1 {
        assert(s.last().0@ != rid);
        lemma_lookup_at(s.drop_last(), i, rid);
    }
}

proof fn lemma_lookup_absent(s: Seq<(String, Vec<String>)>, rid: Seq<char>)
    requires
        forall|i: int| 0 <= i < s.len() ==> s[i].0@ != rid,
    ensures
        lookup(s, rid) == Set::<Seq<char>>::empty(),
    decreases s.len(),
{
    if s.len() > 0 {
        lemma_lookup_absent(s.drop_last(), rid);
    }
}

proof fn lemma_texts_push_set(v: Seq<String>, x: String)
    ensures
        texts(v.push(x)).to_set() == texts(v).to_set().insert(x@),
{
    assert(texts(v.push(x)) =~= texts(v).push(x@));
    assert forall|y: Seq<char>| texts(v).push(x@).contains(y) == texts(v).to_set().insert(x@).contains(y) by {
        if texts(v).push(x@).contains(y) {
            let k = choose|k: int| 0 <= k < texts(v).push(x@).len() && texts(v).push(x@)[k] == y;
            if k < texts(v).len() {
                assert(texts(v).contains(y));
            }
        }
        if texts(v).contains(y) {
            let k = choose|k: int| 0 <= k < texts(v).len() && texts(v)[k] == y;
            assert(texts(v).push(x@)[k] == y);
        }
        if y == x@ {
            assert(texts(v).push(x@)[texts(v).len() as int] == y);
        }
    }
    assert(texts(v).push(x@).to_set() =~= texts(v).to_set().insert(x@));
}

/// The abstract state of a result handler.
pub struct ResultHandlerView {
    pub result_count: nat,
    pub search_completed: bool,
    pub search_started: bool,
}

/// Collects results and reports the end of a search.
pub struct ResultHandler {
    result_count: usize,
    search_completed: bool,
    search_started: bool,
    seen_results: Vec<(String, Vec<String>)>,
}

impl View for ResultHandler {
    type V = ResultHandlerView;

    closed spec fn view(&self) -> ResultHandlerView {
        ResultHandlerView {
            result_count: self.result_count as nat,
            search_completed: self.search_completed,
            search_started: self.search_started,
        }
    }
}

impl ResultHandler {
    /// The signatures already seen for a request.
    pub closed spec fn seen(&self, rid: Seq<char>) -> Set<Seq<char>> {
        lookup(self.seen_results@, rid)
    }

    /// The handler's invariant: each request has one entry; a completed
    /// search has started; a search has started exactly when a result was
    /// passed on.
    pub closed spec fn well_formed(&self) -> bool {
        &&& distinct_requests(self.seen_results@)
        &&& self.search_completed ==> self.search_started
        &&& self.search_started == (self.result_count > 0)
    }

    /// Whether a result with signature `sig` for request `rid` would be
    /// passed on: the search is not complete and the request has not
    /// produced that signature yet.
    pub open spec fn accepts_result(&self, rid: Seq<char>, sig: Seq<char>) -> bool {
        !self@.search_completed && !self.seen(rid).contains(sig)
    }

    /// A handler that has seen nothing.
    pub fn new() -> (h: ResultHandler)
        ensures
            h.well_formed(),
            h@.result_count == 0,
            !h@.search_completed,
            !h@.search_started,
            forall|rid: Seq<char>| h.seen(rid) == Set::<Seq<char>>::empty(),
    {
        let h = ResultHandler {
            result_count: 0,
            search_completed: false,
            search_started: false,
            seen_results: Vec::new(),
        };
        assert forall|rid: Seq<char>| h.seen(rid) == Set::<Seq<char>>::empty() by {
            lemma_lookup_absent(h.seen_results@, rid);
        }
        h
    }

    fn find_request(&self, rid: &str) -> (r: Option<usize>)
        requires
            self.well_formed(),
        ensures
            match r {
                Some(i) => i < self.seen_results@.len() && self.seen_results@[i as int].0@ == rid@,
                None => forall|i: int| 0 <= i < self.seen_results@.len() ==> self.seen_results@[i].0@ != rid@,
            },
    {
        let mut i: usize = 0;
        while i < self.seen_results.len()
            invariant
                i <= self.seen_results@.len(),
                forall|k: int| 0 <= k < i ==> self.seen_results@[k].0@ != rid@,
            decreases self.seen_results@.len() - i,
        {
            if str_eq(self.seen_results[i].0.as_str(), rid) {
                return Some(i);
            }
            i = i + 1;
        }
        None
    }

    /// Handles one search result of a request. After completion, and for a
    /// result whose signature the request already produced, nothing
    /// happens. Otherwise the signature is recorded, the count grows by one,
    /// the search counts as started, and the result is passed on.
    #[verifier::loop_isolation(false)]
    pub fn handle_search_result(&mut self, result: SearchResult, request_id: String) -> (out: Option<FaeMessage>)
        requires
            old(self).well_formed(),
            old(self)@.result_count < usize::MAX,
        ensures
            final(self).well_formed(),
            ({
                let sig = result_signature(result@);
                if !old(self).accepts_result(request_id@, sig) {
                    &&& out is None
                    &&& final(self)@ == old(self)@
                    &&& forall|rid: Seq<char>| final(self).seen(rid) == old(self).seen(rid)
                } else {
                    &&& out matches Some(FaeMessage::PushSearchResult { result: r, request_id: q })
                    &&& r@ == result@
                    &&& q@ == request_id@
                    &&& final(self)@.result_count == old(self)@.result_count + 1
                    &&& final(self)@.search_started
                    &&& final(self)@.search_completed == old(self)@.search_completed
                    &&& final(self).seen(request_id@) == old(self).seen(request_id@).insert(sig)
                    &&& forall|rid: Seq<char>| rid != request_id@ ==> final(self).seen(rid) == old(self).seen(rid)
                }
            }),
    {
        if self.search_completed {
            return None;
        }
        let sig = signature_of(&result);
        let ghost old_entries = self.seen_results@;
        match self.find_request(request_id.as_str()) {
            Some(i) => {
                proof { lemma_lookup_at(old_entries, i as int, request_id@); }
                let mut k: usize = 0;
                let n = self.seen_results[i].1.len();
                while k < n
                    invariant
                        k <= n == old_entries[i as int].1@.len(),
                        self.seen_results@ == old_entries,
                        i < old_entries.len(),
                        forall|m: int| 0 <= m < k ==> old_entries[i as int].1@[m]@ != sig@,
                    decreases n - k,
                {
                    if str_eq(self.seen_results[i].1[k].as_str(), sig.as_str()) {
                        assert(texts(old_entries[i as int].1@)[k as int] == sig@);
                        assert(texts(old_entries[i as int].1@).contains(sig@));
                        return None;
                    }
                    k = k + 1;
                }
                proof {
                    assert(!texts(old_entries[i as int].1@).contains(sig@)) by {
                        if texts(old_entries[i as int].1@).contains(sig@) {
                            let m = choose|m: int| 0 <= m < texts(old_entries[i as int].1@).len()
                                && texts(old_entries[i as int].1@)[m] == sig@;
                            assert(old_entries[i as int].1@[m]@ == sig@);
                        }
                    }
                }
                let mut entry = self.seen_results.remove(i);
                let ghost old_sigs = entry.1@;
                entry.1.push(sig);
                self.seen_results.insert(i, entry);
                proof {
                    let s = self.seen_results@;
                    assert(s =~= old_entries.update(i as int, s[i as int]));
                    assert(distinct_requests(s));
                    lemma_lookup_at(s, i as int, request_id@);
                    lemma_texts_push_set(old_sigs, s[i as int].1@.last());
                    assert(s[i as int].1@ =~= old_sigs.push(s[i as int].1@.last()));
                    assert forall|rid: Seq<char>| rid != request_id@ implies lookup(s, rid) == lookup(old_entries, rid) by {
                        if exists|j: int| 0 <= j < s.len() && s[j].0@ == rid {
                            let j = choose|j: int| 0 <= j < s.len() && s[j].0@ == rid;
                            lemma_lookup_at(s, j, rid);
                            lemma_lookup_at(old_entries, j, rid);
                        } else {
                            assert forall|j: int| 0 <= j < old_entries.len() implies old_entries[j].0@ != rid by {
                                assert(s[j].0@ == old_entries[j].0@);
                            }
                            lemma_lookup_absent(s, rid);
                            lemma_lookup_absent(old_entries, rid);
                        }
                    }
                }
            },
            None => {
                proof { lemma_lookup_absent(old_entries, request_id@); }
                let ghost sig_text = sig@;
                let mut sigs: Vec<String> = Vec::new();
                sigs.push(sig);
                self.seen_results.push((request_id.clone(), sigs));
                proof {
                    let s = self.seen_results@;
                    assert(s.drop_last() =~= old_entries);
                    assert(distinct_requests(s));
                    let e: Seq<String> = Seq::empty();
                    assert(s.last().1@ =~= e.push(s.last().1@[0]));
                    lemma_texts_push_set(e, s.last().1@[0]);
                    assert(texts(e).to_set() =~= Set::<Seq<char>>::empty());
                    assert(lookup(s, request_id@) == texts(s.last().1@).to_set());
                }
            },
        }
        self.search_started = true;
        self.result_count = self.result_count + 1;
        Some(FaeMessage::PushSearchResult { result, request_id })
    }

    /// Handles a completion notice. It is ignored after completion and
    /// before any result arrived (a component that skips a mode reports
    /// completion too early); otherwise the search is marked complete and
    /// the number of results is reported.
    pub fn handle_search_completion(&mut self) -> (out: Option<FaeMessage>)
        requires
            old(self).well_formed(),
        ensures
            final(self).well_formed(),
            forall|rid: Seq<char>| final(self).seen(rid) == old(self).seen(rid),
            if old(self)@.search_completed || !old(self)@.search_started {
                out is None && final(self)@ == old(self)@
            } else {
                &&& out == Some(FaeMessage::NotifySearchReport { result_count: old(self)@.result_count as usize })
                &&& final(self)@.search_completed
                &&& final(self)@.result_count == old(self)@.result_count
                &&& final(self)@.search_started
            },
    {
        if self.search_completed || !self.search_started {
            return None;
        }
        self.search_completed = true;
        Some(FaeMessage::NotifySearchReport { result_count: self.result_count })
    }

    /// Forgets the signatures recorded for one request.
    pub fn clear_request_results(&mut self, request_id: &str)
        requires
            old(self).well_formed(),
        ensures
            final(self).well_formed(),
            final(self)@ == old(self)@,
            final(self).seen(request_id@) == Set::<Seq<char>>::empty(),
            forall|rid: Seq<char>| rid != request_id@ ==> final(self).seen(rid) == old(self).seen(rid),
    {
        let ghost old_entries = self.seen_results@;
        match self.find_request(request_id) {
            Some(i) => {
                self.seen_results.remove(i);
                proof {
                    let s = self.seen_results@;
                    assert(s =~= old_entries.remove(i as int));
                    assert forall|a: int, b: int| 0 <= a < b < s.len() implies s[a].0@ != s[b].0@ by {
                        let a2 = if a < i { a } else { a + 1 };
                        let b2 = if b < i { b } else { b + 1 };
                        assert(s[a] == old_entries[a2]);
                        assert(s[b] == old_entries[b2]);
                    }
                    assert forall|j: int| 0 <= j < s.len() implies s[j].0@ != request_id@ by {
                        let j2 = if j < i { j } else { j + 1 };
                        assert(s[j] == old_entries[j2]);
                    }
                    lemma_lookup_absent(s, request_id@);
                    assert forall|rid: Seq<char>| rid != request_id@ implies lookup(s, rid) == lookup(old_entries, rid) by {
                        if exists|j: int| 0 <= j < old_entries.len() && old_entries[j].0@ == rid {
                            let j = choose|j: int| 0 <= j < old_entries.len() && old_entries[j].0@ == rid;
                            assert(j != i);
                            let j2 = if j < i { j } else { j - 1 };
                            assert(s[j2] == old_entries[j]);
                            lemma_lookup_at(s, j2, rid);
                            lemma_lookup_at(old_entries, j, rid);
                        } else {
                            assert forall|j: int| 0 <= j < s.len() implies s[j].0@ != rid by {
                                let j3 = if j < i { j } else { j + 1 };
                                assert(s[j] == old_entries[j3]);
                            }
                            lemma_lookup_absent(s, rid);
                            lemma_lookup_absent(old_entries, rid);
                        }
                    }
                }
            },
            None => {
                proof { lemma_lookup_absent(old_entries, request_id@); }
            },
        }
    }

    /// Clears everything for a new search session.
    pub fn reset_for_new_search(&mut self)
        ensures
            final(self).well_formed(),
            final(self)@.result_count == 0,
            !final(self)@.search_completed,
            !final(self)@.search_started,
            forall|rid: Seq<char>| final(self).seen(rid) == Set::<Seq<char>>::empty(),
    {
        self.result_count = 0;
        self.search_completed = false;
        self.search_started = false;
        self.seen_results = Vec::new();
        assert forall|rid: Seq<char>| self.seen(rid) == Set::<Seq<char>>::empty() by {
            lemma_lookup_absent(self.seen_results@, rid);
        }
    }

    /// The number of distinct results passed on.
    pub fn get_result_count(&self) -> (n: usize)
        ensures
            n == self@.result_count,
    {
        self.result_count
    }

    /// Whether the search was reported complete.
    pub fn is_completed(&self) -> (b: bool)
        ensures
            b == self@.search_completed,
    {
        self.search_completed
    }

    /// Whether a result was passed on.
    pub fn has_started(&self) -> (b: bool)
        ensures
            b == self@.search_started,
    {
        self.search_started
    }

    /// The handler's state laws: a completed search has started, and a
    /// search has started exactly when a result was passed on.
    pub proof fn lemma_state_laws(&self)
        requires
            self.well_formed(),
        ensures
            self@.search_completed ==> self@.search_started,
            self@.search_started == (self@.result_count > 0),
    {
    }

    /// A completed search takes no more results, so its count and its
    /// completion stay as they are until the handler is reset (see
    /// [`ResultHandler::handle_search_result`]).
    pub proof fn lemma_completed_search_is_frozen(&self, rid: Seq<char>, sig: Seq<char>)
        requires
            self@.search_completed,
        ensures
            !self.accepts_result(rid, sig),
    {
    }

    /// Passing on a result does not block a result of the same file on
    /// another line: `after` is what accepting `r1` for `rid` leaves of
    /// `before` (see [`ResultHandler::handle_search_result`]), and a result
    /// `r2` on a different line that `before` would pass on is passed on
    /// by `after` too.
    pub proof fn lemma_other_line_still_accepted(
        before: ResultHandler,
        after: ResultHandler,
        rid: Seq<char>,
        r1: ResultView,
        r2: ResultView,
    )
        requires
            after@.search_completed == before@.search_completed,
            after.seen(rid) == before.seen(rid).insert(result_signature(r1)),
            before.accepts_result(rid, result_signature(r2)),
            r1.filename == r2.filename,
            r1.line != r2.line,
        ensures
            after.accepts_result(rid, result_signature(r2)),
    {
        lemma_signature_identifies_line_and_content(r1, r2);
    }

    /// Forgetting a request's results lets each of them through again
    /// while the search is not complete, and changes nothing for other
    /// requests: `after` is what [`ResultHandler::clear_request_results`]
    /// leaves of `before` for `rid`.
    pub proof fn lemma_cleared_request_accepts_again(before: ResultHandler, after: ResultHandler, rid: Seq<char>, sig: Seq<char>, other: Seq<char>)
        requires
            after@ == before@,
            after.seen(rid) == Set::<Seq<char>>::empty(),
            forall|r: Seq<char>| r != rid ==> after.seen(r) == before.seen(r),
        ensures
            !before@.search_completed ==> after.accepts_result(rid, sig),
            other != rid ==> after.accepts_result(other, sig) == before.accepts_result(other, sig),
    {
    }

    /// Dispatches a message: results and completion notices are handled as
    /// above and what they produce is sent on (`pushSearchResult`,
    /// `notifySearchReport`); other messages are ignored.
    pub fn on_message(&mut self, message: Message<FaeMessage>) -> (actions: Vec<HandlerAction>)
        requires
            old(self).well_formed(),
            old(self)@.result_count < usize::MAX,
        ensures
            final(self).well_formed(),
            actions@.len() <= 1,
            if message.method@ == "pushSearchResult"@ && message.payload is PushSearchResult {
                let result = message.payload->PushSearchResult_result;
                let rid = message.payload->PushSearchResult_request_id;
                let sig = result_signature(result@);
                if !old(self).accepts_result(rid@, sig) {
                    &&& actions@.len() == 0
                    &&& final(self)@ == old(self)@
                    &&& forall|r: Seq<char>| final(self).seen(r) == old(self).seen(r)
                } else {
                    &&& actions@.len() == 1
                    &&& is_send(actions@[0], "pushSearchResult"@, |p: FaeMessage|
                        p matches FaeMessage::PushSearchResult { result: r, request_id: q } && r@ == result@
                            && q@ == rid@)
                    &&& final(self)@.result_count == old(self)@.result_count + 1
                    &&& final(self)@.search_started
                    &&& final(self)@.search_completed == old(self)@.search_completed
                    &&& final(self).seen(rid@) == old(self).seen(rid@).insert(sig)
                    &&& forall|r: Seq<char>| r != rid@ ==> final(self).seen(r) == old(self).seen(r)
                }
            } else if message.method@ == "completeSearch"@ && message.payload is CompleteSearch {
                &&& forall|r: Seq<char>| final(self).seen(r) == old(self).seen(r)
                &&& if old(self)@.search_completed || !old(self)@.search_started {
                    actions@.len() == 0 && final(self)@ == old(self)@
                } else {
                    &&& actions@.len() == 1
                    &&& is_send(actions@[0], "notifySearchReport"@, |p: FaeMessage|
                        p == FaeMessage::NotifySearchReport { result_count: old(self)@.result_count as usize })
                    &&& final(self)@.search_completed
                    &&& final(self)@.search_started
                    &&& final(self)@.result_count == old(self)@.result_count
                }
            } else {
                actions@.len() == 0 && final(self)@ == old(self)@
                    && forall|r: Seq<char>| final(self).seen(r) == old(self).seen(r)
            },
    {
        let mut actions: Vec<HandlerAction> = Vec::new();
        let is_push = str_eq(message.method.as_str(), "pushSearchResult");
        let is_complete = str_eq(message.method.as_str(), "completeSearch");
        match message.payload {
            FaeMessage::PushSearchResult { result, request_id } => {
                if is_push {
                    if let Some(m) = self.handle_search_result(result, request_id) {
                        actions.push(HandlerAction::Send { method: "pushSearchResult".to_owned(), payload: m });
                    }
                }
            },
            FaeMessage::CompleteSearch => {
                if is_complete {
                    if let Some(m) = self.handle_search_completion() {
                        actions.push(HandlerAction::Send { method: "notifySearchReport".to_owned(), payload: m });
                    }
                }
            },
            _ => {},
        }
        actions
    }
}

} // verus!
