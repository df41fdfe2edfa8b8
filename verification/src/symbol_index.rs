//! The work queue of the symbol indexer: file operations are queued at most
//! once per file, processed in order, and counted for progress reports.

use vstd::prelude::*;
use crate::types::{Symbol, FaeMessage, HandlerAction, is_send};
use crate::text::{chars_of, str_eq};
use crate::pathutil::{extension_of, file_name_of, path_extension, path_file_name};
use crate::message::Message;

verus! {

/// A change to a file that the indexer must process.
#[derive(Debug, Clone)]
pub enum FileOperation {
    Create(String),
    Update(String),
    Delete(String),
}

/// The file an operation is about.
pub open spec fn op_path(op: FileOperation) -> Seq<char> {
    match op {
        FileOperation::Create(p) => p@,
        FileOperation::Update(p) => p@,
        FileOperation::Delete(p) => p@,
    }
}

/// The files of queued operations, in queue order.
pub open spec fn op_paths(q: Seq<FileOperation>) -> Seq<Seq<char>> {
    q.map_values(|op: FileOperation| op_path(op))
}

/// The queue without the operations for the file `p`, others in order.
pub open spec fn without_path(q: Seq<FileOperation>, p: Seq<char>) -> Seq<FileOperation>
    decreases q.len(),
{
    if q.len() == 0 {
        Seq::empty()
    } else if op_path(q.last()) == p {
        without_path(q.drop_last(), p)
    } else {
        without_path(q.drop_last(), p).push(q.last())
    }
}

/// Whether no file has two operations in the queue.
pub open spec fn unique_paths(q: Seq<FileOperation>) -> bool {
    forall|i: int, j: int| 0 <= i < j < q.len() ==> op_path(q[i]) != op_path(q[j])
}

proof fn lemma_without_path_members(q: Seq<FileOperation>, p: Seq<char>)
    ensures
        forall|k: int| 0 <= k < without_path(q, p).len() ==> op_path(#[trigger] without_path(q, p)[k]) != p
            && q.contains(without_path(q, p)[k]),
        forall|j: int| 0 <= j < q.len() && op_path(q[j]) != p ==> #[trigger] without_path(q, p).contains(q[j]),
        unique_paths(q) ==> unique_paths(without_path(q, p)),
    decreases q.len(),
{
    if q.len() > 0 {
        let q2 = q.drop_last();
        lemma_without_path_members(q2, p);
        let w2 = without_path(q2, p);
        let w = without_path(q, p);
        assert forall|k: int| 0 <= k < w.len() implies op_path(#[trigger] w[k]) != p && q.contains(w[k]) by {
            if k < w2.len() {
                assert(w[k] == w2[k]);
                let j = choose|j: int| 0 <= j < q2.len() && q2[j] == w2[k];
                assert(q[j] == q2[j]);
            } else {
                assert(w[k] == q.last());
                assert(q[q.len() - 1] == q.last());
            }
        }
        assert forall|j: int| 0 <= j < q.len() && op_path(q[j]) != p implies #[trigger] w.contains(q[j]) by {
            if j < q.len() - 1 {
                assert(q[j] == q2[j]);
                assert(w2.contains(q2[j]));
                let t = choose|t: int| 0 <= t < w2.len() && w2[t] == q2[j];
                assert(w[t] == w2[t]);
            } else {
                assert(w[w.len() - 1] == q[j]);
            }
        }
        if unique_paths(q) {
            assert(unique_paths(q2)) by {
                assert forall|a: int, b: int| 0 <= a < b < q2.len() implies op_path(q2[a]) != op_path(q2[b]) by {
                    assert(q2[a] == q[a] && q2[b] == q[b]);
                }
            }
            assert forall|a: int, b: int| 0 <= a < b < w.len() implies op_path(w[a]) != op_path(w[b]) by {
                if b < w2.len() {
                    assert(w[a] == w2[a] && w[b] == w2[b]);
                } else {
                    assert(w[b] == q.last());
                    assert(w[a] == w2[a]);
                    let j = choose|j: int| 0 <= j < q2.len() && q2[j] == w2[a];
                    assert(q[j] == q2[j]);
                    assert(op_path(q[j]) != op_path(q[q.len() - 1]));
                }
            }
        }
    }
}

/// File extensions whose symbols can be extracted.
pub open spec fn supported_extension(e: Seq<char>) -> bool {
    e == "rs"@ || e == "js"@ || e == "mjs"@ || e == "cjs"@ || e == "py"@ || e == "pyw"@ || e == "pyi"@
}

/// Whether symbols can be extracted from the file at `p` (by its extension).
pub open spec fn supported_path(p: Seq<char>) -> bool {
    extension_of(p) matches Some(e) && supported_extension(e)
}

/// Whether a file is processed when it is reported created or updated:
/// its type is supported, its name does not start with a dot, and the
/// ignore rules do not exclude it.
pub open spec fn processable(p: Seq<char>, ignored: bool) -> bool {
    &&& supported_path(p)
    &&& !(file_name_of(p) matches Some(n) && n.len() > 0 && n[0] == '.')
    &&& !ignored
}

/// Whether an extension is one whose symbols can be extracted.
pub fn is_supported_extension(e: &str) -> (b: bool)
    ensures
        b == supported_extension(e@),
{
    str_eq(e, "rs") || str_eq(e, "js") || str_eq(e, "mjs") || str_eq(e, "cjs") || str_eq(e, "py")
        || str_eq(e, "pyw") || str_eq(e, "pyi")
}

/// Counters of indexing progress.
#[derive(Debug, Clone, Copy)]
pub struct IndexingStats {
    /// Files queued by the initial scan.
    pub queued_files: usize,
    /// Files indexed so far.
    pub indexed_files: usize,
    /// Symbols found so far.
    pub symbols_found: usize,
}

/// The queue after creation operations for `files` were added in order
/// (each replacing a queued operation of its file).
pub open spec fn creates_added(q: Seq<FileOperation>, files: Seq<String>) -> Seq<FileOperation>
    decreases files.len(),
{
    if files.len() == 0 {
        q
    } else {
        without_path(creates_added(q, files.drop_last()), files.last()@).push(FileOperation::Create(files.last()))
    }
}

/// Queues and counts the files that the symbol indexer processes.
pub struct SymbolIndexHandler {
    search_path: String,
    operation_queue: Vec<FileOperation>,
    is_processing: bool,
    stats: IndexingStats,
}

impl SymbolIndexHandler {
    /// The directory whose files are indexed.
    pub closed spec fn root(&self) -> Seq<char> {
        self.search_path@
    }

    /// The queued operations, front first.
    pub closed spec fn queue(&self) -> Seq<FileOperation> {
        self.operation_queue@
    }

    /// Whether an operation is being processed.
    pub closed spec fn processing(&self) -> bool {
        self.is_processing
    }

    /// The progress counters.
    pub closed spec fn counters(&self) -> IndexingStats {
        self.stats
    }

    /// The queue's invariant: no file has two queued operations.
    pub open spec fn queue_unique(&self) -> bool {
        unique_paths(self.queue())
    }

    /// A handler for files below `search_path`, with an empty queue.
    pub fn new(search_path: String) -> (r: Result<SymbolIndexHandler, String>)
        ensures
            r matches Ok(h) && h.root() == search_path@ && h.queue().len() == 0 && !h.processing()
                && h.counters().queued_files == 0 && h.counters().indexed_files == 0
                && h.counters().symbols_found == 0,
    {
        Ok(SymbolIndexHandler {
            search_path,
            operation_queue: Vec::new(),
            is_processing: false,
            stats: IndexingStats { queued_files: 0, indexed_files: 0, symbols_found: 0 },
        })
    }

    /// Whether symbols can be extracted from the file at `path`.
    pub fn is_supported_file(path: &str) -> (b: bool)
        ensures
            b == supported_path(path@),
    {
        match path_extension(path) {
            Some(e) => is_supported_extension(e.as_str()),
            None => false,
        }
    }

    /// Whether a created or updated file is processed, given whether the
    /// ignore rules exclude it.
    pub fn should_process_file(filepath: &str, ignored: bool) -> (b: bool)
        ensures
            b == processable(filepath@, ignored),
    {
        if !Self::is_supported_file(filepath) {
            return false;
        }
        match path_file_name(filepath) {
            Some(name) => {
                let v = chars_of(name.as_str());
                if v.len() > 0 && v[0] == '.' {
                    return false;
                }
            },
            None => {},
        }
        !ignored
    }

    /// Queues an operation. Any operation already queued for the same file
    /// is dropped; the others keep their order and the new one goes last.
    pub fn add_operation_to_queue(&mut self, operation: FileOperation)
        requires
            old(self).queue_unique(),
        ensures
            final(self).queue_unique(),
            final(self).queue() == without_path(old(self).queue(), op_path(operation)).push(operation),
            final(self).processing() == old(self).processing(),
            final(self).counters() == old(self).counters(),
            final(self).root() == old(self).root(),
    {
        let ghost old_q = self.operation_queue@;
        let ghost p = op_path(operation);
        let target: &String = match &operation {
            FileOperation::Create(path) => path,
            FileOperation::Update(path) => path,
            FileOperation::Delete(path) => path,
        };
        let mut kept: Vec<FileOperation> = Vec::new();
        let mut rest: Vec<FileOperation> = Vec::new();
        std::mem::swap(&mut rest, &mut self.operation_queue);
        let mut rev: Vec<FileOperation> = Vec::new();
        while rest.len() > 0
            invariant
                rest@ + rev@.reverse() == old_q,
            decreases rest@.len(),
        {
            let x = rest.pop().unwrap();
            rev.push(x);
            assert(rest@ + rev@.reverse() =~= old_q);
        }
        assert(rev@.reverse() =~= old_q);
        let n = rev.len();
        let ghost rev0 = rev@;
        let mut i: usize = 0;
        while i < n
            invariant
                n == rev0.len(),
                i <= n,
                rev@ == rev0.subrange(0, n - i),
                rev0.reverse() == old_q,
                kept@ == without_path(old_q.subrange(0, i as int), p),
                p == op_path(operation),
                target@ == p,
            decreases n - i,
        {
            let x = rev.pop().unwrap();
            assert(x == old_q[i as int]);
            let same = match &x {
                FileOperation::Create(q) => str_eq(q.as_str(), target.as_str()),
                FileOperation::Update(q) => str_eq(q.as_str(), target.as_str()),
                FileOperation::Delete(q) => str_eq(q.as_str(), target.as_str()),
            };
            proof {
                assert(old_q.subrange(0, i + 1).drop_last() =~= old_q.subrange(0, i as int));
            }
            if !same {
                kept.push(x);
            }
            i = i + 1;
            assert(rev@ =~= rev0.subrange(0, n - i));
        }
        assert(old_q.subrange(0, n as int) =~= old_q);
        kept.push(operation);
        self.operation_queue = kept;
        proof {
            let q = self.operation_queue@;
            let f = without_path(old_q, p);
            lemma_without_path_members(old_q, p);
            assert(q =~= f.push(q.last()));
            assert forall|a: int, b: int| 0 <= a < b < q.len() implies op_path(q[a]) != op_path(q[b]) by {
                if b == q.len() - 1 {
                    assert(q[a] == f[a]);
                } else {
                    assert(q[a] == f[a] && q[b] == f[b]);
                }
            }
        }
    }

    /// Takes the next queued operation and marks the handler busy with it;
    /// with an empty queue it marks the handler idle.
    pub fn begin_next(&mut self) -> (op: Option<FileOperation>)
        requires
            old(self).queue_unique(),
        ensures
            final(self).queue_unique(),
            final(self).counters() == old(self).counters(),
            final(self).root() == old(self).root(),
            if old(self).queue().len() == 0 {
                op is None && final(self).queue().len() == 0 && !final(self).processing()
            } else {
                op == Some(old(self).queue()[0]) && final(self).queue() == old(self).queue().drop_first()
                    && final(self).processing()
            },
    {
        if self.operation_queue.len() == 0 {
            self.is_processing = false;
            None
        } else {
            let op = self.operation_queue.remove(0);
            self.is_processing = true;
            assert forall|a: int, b: int| 0 <= a < b < self.queue().len() implies op_path(self.queue()[a]) != op_path(self.queue()[b]) by {
                assert(self.queue()[a] == old(self).queue()[a + 1]);
                assert(self.queue()[b] == old(self).queue()[b + 1]);
            }
            Some(op)
        }
    }

    /// One step through the queue: the next operation, marked in progress,
    /// with the messages that start it; when the queue is empty, no
    /// operation and the message that initial indexing is complete.
    pub fn next_step(&mut self) -> (r: (Option<FileOperation>, Vec<HandlerAction>))
        requires
            old(self).queue_unique(),
        ensures
            final(self).queue_unique(),
            final(self).counters() == old(self).counters(),
            final(self).root() == old(self).root(),
            if old(self).queue().len() == 0 {
                &&& r.0 is None
                &&& final(self).queue().len() == 0
                &&& !final(self).processing()
                &&& r.1@.len() == 1
                &&& is_send(r.1@[0], "completeInitialIndexing"@, |m: FaeMessage| m is CompleteInitialIndexing)
            } else {
                &&& r.0 == Some(old(self).queue()[0])
                &&& final(self).queue() == old(self).queue().drop_first()
                &&& final(self).processing()
                &&& match old(self).queue()[0] {
                    FileOperation::Delete(p) => {
                        &&& r.1@.len() == 2
                        &&& is_send(r.1@[0], "clearSymbolIndex"@, |m: FaeMessage| m matches FaeMessage::ClearSymbolIndex(q) && q@ == p@)
                        &&& is_send(r.1@[1], "completeSymbolIndex"@, |m: FaeMessage| m matches FaeMessage::CompleteSymbolIndex(q) && q@ == p@)
                    },
                    _ => if supported_path(op_path(old(self).queue()[0])) {
                        r.1@.len() == 1 && is_send(r.1@[0], "clearSymbolIndex"@, |m: FaeMessage| m matches FaeMessage::ClearSymbolIndex(q) && q@ == op_path(old(self).queue()[0]))
                    } else {
                        r.1@.len() == 0
                    },
                }
            },
    {
        match self.begin_next() {
            Some(op) => {
                let actions = Self::operation_start_actions(&op);
                (Some(op), actions)
            },
            None => {
                let mut actions: Vec<HandlerAction> = Vec::new();
                actions.push(HandlerAction::Send {
                    method: "completeInitialIndexing".to_owned(),
                    payload: FaeMessage::CompleteInitialIndexing,
                });
                (None, actions)
            },
        }
    }

    /// Marks the current operation done.
    pub fn finish_operation(&mut self)
        ensures
            !final(self).processing(),
            final(self).queue() == old(self).queue(),
            final(self).counters() == old(self).counters(),
            final(self).root() == old(self).root(),
    {
        self.is_processing = false;
    }

    /// Whether an operation is being processed.
    pub fn is_currently_processing(&self) -> (b: bool)
        ensures
            b == self.processing(),
    {
        self.is_processing
    }

    /// The number of queued operations.
    pub fn queue_len(&self) -> (n: usize)
        ensures
            n == self.queue().len(),
    {
        self.operation_queue.len()
    }

    /// The progress counters.
    pub fn stats(&self) -> (s: IndexingStats)
        ensures
            s == self.counters(),
    {
        self.stats
    }

    /// Records the initial scan: the files it found are queued for creation
    /// (in order, as [`SymbolIndexHandler::add_operation_to_queue`] queues,
    /// so a file never has two operations) and counted as the initial
    /// workload.
    pub fn populate_initial_queue(&mut self, files: Vec<String>) -> (count: usize)
        requires
            old(self).queue_unique(),
        ensures
            count == files@.len(),
            final(self).counters().queued_files == files@.len(),
            final(self).counters().indexed_files == old(self).counters().indexed_files,
            final(self).counters().symbols_found == old(self).counters().symbols_found,
            final(self).queue_unique(),
            final(self).processing() == old(self).processing(),
            forall|k: int| 0 <= k < files@.len() ==> #[trigger] op_paths(final(self).queue()).contains(files@[k]@),
            final(self).queue() == creates_added(old(self).queue(), files@),
    {
        let n = files.len();
        let mut k: usize = 0;
        let ghost fs = files@;
        let mut rest = files;
        let mut rev: Vec<String> = Vec::new();
        while rest.len() > 0
            invariant
                rest@ + rev@.reverse() == fs,
            decreases rest@.len(),
        {
            let x = rest.pop().unwrap();
            rev.push(x);
            assert(rest@ + rev@.reverse() =~= fs);
        }
        assert(rev@.reverse() =~= fs);
        let ghost rev0 = rev@;
        while k < n
            invariant
                n == fs.len() == rev0.len(),
                k <= n,
                rev@ == rev0.subrange(0, n - k),
                rev0.reverse() == fs,
                self.queue_unique(),
                self.processing() == old(self).processing(),
                self.counters() == old(self).counters(),
                forall|m: int| 0 <= m < k ==> #[trigger] op_paths(self.queue()).contains(fs[m]@),
                self.queue() == creates_added(old(self).queue(), fs.take(k as int)),
            decreases n - k,
        {
            let f = rev.pop().unwrap();
            assert(f == fs[k as int]);
            let ghost before = self.queue();
            self.add_operation_to_queue(FileOperation::Create(f));
            proof {
                let q = self.queue();
                let flt = without_path(before, fs[k as int]@);
                lemma_without_path_members(before, fs[k as int]@);
                assert(q.last() == FileOperation::Create(fs[k as int]));
                assert(op_paths(q)[q.len() - 1] == fs[k as int]@);
                assert forall|m: int| 0 <= m < k + 1 implies #[trigger] op_paths(q).contains(fs[m]@) by {
                    if m < k && fs[m]@ != fs[k as int]@ {
                        assert(op_paths(before).contains(fs[m]@));
                        let j = choose|j: int| 0 <= j < op_paths(before).len() && op_paths(before)[j] == fs[m]@;
                        assert(op_paths(before)[j] == op_path(before[j]));
                        assert(op_path(before[j]) == fs[m]@);
                        assert(op_path(before[j]) != fs[k as int]@);
                        assert(flt.contains(before[j]));
                        let t = choose|t: int| 0 <= t < flt.len() && flt[t] == before[j];
                        assert(q[t] == flt[t]);
                        assert(op_paths(q)[t] == fs[m]@);
                    } else {
                        assert(op_paths(q)[q.len() - 1] == fs[m]@);
                    }
                }
            }
            assert(fs.take(k + 1).drop_last() =~= fs.take(k as int));
            k = k + 1;
            assert(rev@ =~= rev0.subrange(0, n - k));
        }
        assert(fs.take(n as int) =~= fs);
        self.stats.queued_files = n;
        n
    }

    /// The progress report: the files still to do (initial workload plus
    /// queued operations), the files indexed, and the symbols found.
    pub fn progress_report(&self) -> (m: FaeMessage)
        requires
            self.counters().queued_files + self.queue().len() <= usize::MAX,
        ensures
            m == (FaeMessage::ReportSymbolIndex {
                queued_files: (self.counters().queued_files + self.queue().len()) as usize,
                indexed_files: self.counters().indexed_files,
                symbols_found: self.counters().symbols_found,
            }),
    {
        FaeMessage::ReportSymbolIndex {
            queued_files: self.stats.queued_files + self.operation_queue.len(),
            indexed_files: self.stats.indexed_files,
            symbols_found: self.stats.symbols_found,
        }
    }

    /// Counts one indexed file and the symbols it held.
    pub fn record_indexed_file(&mut self, symbol_count: usize)
        requires
            old(self).counters().indexed_files < usize::MAX,
            old(self).counters().symbols_found + symbol_count <= usize::MAX,
        ensures
            final(self).counters().indexed_files == old(self).counters().indexed_files + 1,
            final(self).counters().symbols_found == old(self).counters().symbols_found + symbol_count,
            final(self).counters().queued_files == old(self).counters().queued_files,
            final(self).queue() == old(self).queue(),
            final(self).processing() == old(self).processing(),
            final(self).root() == old(self).root(),
    {
        self.stats.indexed_files = self.stats.indexed_files + 1;
        self.stats.symbols_found = self.stats.symbols_found + symbol_count;
    }

    /// The messages that start an operation: a created or updated file of a
    /// supported type first has its old symbols cleared (its new symbols
    /// follow once extracted); a deleted file has its symbols cleared and is
    /// reported done.
    pub fn operation_start_actions(op: &FileOperation) -> (actions: Vec<HandlerAction>)
        ensures
            match *op {
                FileOperation::Delete(p) => {
                    &&& actions@.len() == 2
                    &&& is_send(actions@[0], "clearSymbolIndex"@, |m: FaeMessage| m matches FaeMessage::ClearSymbolIndex(q) && q@ == p@)
                    &&& is_send(actions@[1], "completeSymbolIndex"@, |m: FaeMessage| m matches FaeMessage::CompleteSymbolIndex(q) && q@ == p@)
                },
                _ => if supported_path(op_path(*op)) {
                    actions@.len() == 1 && is_send(actions@[0], "clearSymbolIndex"@, |m: FaeMessage| m matches FaeMessage::ClearSymbolIndex(q) && q@ == op_path(*op))
                } else {
                    actions@.len() == 0
                },
            },
    {
        let mut actions: Vec<HandlerAction> = Vec::new();
        match op {
            FileOperation::Delete(p) => {
                actions.push(HandlerAction::Send { method: "clearSymbolIndex".to_owned(), payload: FaeMessage::ClearSymbolIndex(p.clone()) });
                actions.push(HandlerAction::Send { method: "completeSymbolIndex".to_owned(), payload: FaeMessage::CompleteSymbolIndex(p.clone()) });
            },
            FileOperation::Create(p) | FileOperation::Update(p) => {
                if Self::is_supported_file(p.as_str()) {
                    actions.push(HandlerAction::Send { method: "clearSymbolIndex".to_owned(), payload: FaeMessage::ClearSymbolIndex(p.clone()) });
                }
            },
        }
        actions
    }

    /// The messages that publish the symbols extracted from a file: one
    /// `pushSymbolIndex` per symbol, in order, then `completeSymbolIndex`.
    pub fn symbol_messages(filepath: &str, symbols: &Vec<Symbol>) -> (actions: Vec<HandlerAction>)
        ensures
            actions@.len() == symbols@.len() + 1,
            forall|k: int| 0 <= k < symbols@.len() ==> is_send(#[trigger] actions@[k], "pushSymbolIndex"@, |m: FaeMessage|
                m matches FaeMessage::PushSymbolIndex { filepath: f, line, column, name, content, symbol_type }
                    && f@ == symbols@[k].filepath@ && line == symbols@[k].line && column == symbols@[k].column
                    && name@ == symbols@[k].content@ && content@ == symbols@[k].content@
                    && symbol_type == symbols@[k].symbol_type),
            is_send(actions@[symbols@.len() as int], "completeSymbolIndex"@, |m: FaeMessage|
                m matches FaeMessage::CompleteSymbolIndex(q) && q@ == filepath@),
    {
        let mut actions: Vec<HandlerAction> = Vec::new();
        let mut k: usize = 0;
        while k < symbols.len()
            invariant
                k <= symbols@.len(),
                actions@.len() == k,
                forall|j: int| 0 <= j < k ==> is_send(#[trigger] actions@[j], "pushSymbolIndex"@, |m: FaeMessage|
                    m matches FaeMessage::PushSymbolIndex { filepath: f, line, column, name, content, symbol_type }
                        && f@ == symbols@[j].filepath@ && line == symbols@[j].line && column == symbols@[j].column
                        && name@ == symbols@[j].content@ && content@ == symbols@[j].content@
                        && symbol_type == symbols@[j].symbol_type),
            decreases symbols@.len() - k,
        {
            let s = &symbols[k];
            actions.push(HandlerAction::Send {
                method: "pushSymbolIndex".to_owned(),
                payload: FaeMessage::PushSymbolIndex {
                    filepath: s.filepath.clone(),
                    line: s.line,
                    column: s.column,
                    name: s.content.clone(),
                    content: s.content.clone(),
                    symbol_type: s.symbol_type,
                },
            });
            k = k + 1;
        }
        actions.push(HandlerAction::Send { method: "completeSymbolIndex".to_owned(), payload: FaeMessage::CompleteSymbolIndex(filepath.to_owned()) });
        actions
    }

    /// Handles a file event: a created or updated file that is processable
    /// (given whether the ignore rules exclude it) is queued for
    /// re-indexing; a deleted file is always queued. Returns whether the
    /// queue should now be worked off (something was queued and no operation
    /// is running).
    pub fn on_file_event(&mut self, message: Message<FaeMessage>, ignored: bool) -> (start: bool)
        requires
            old(self).queue_unique(),
        ensures
            final(self).queue_unique(),
            final(self).counters() == old(self).counters(),
            final(self).processing() == old(self).processing(),
            ({
                let queued: Option<FileOperation> = if message.method@ == "detectFileCreate"@ && message.payload is DetectFileCreate {
                    if processable(message.payload->DetectFileCreate_0@, ignored) {
                        Some(FileOperation::Create(message.payload->DetectFileCreate_0))
                    } else { None }
                } else if message.method@ == "detectFileUpdate"@ && message.payload is DetectFileUpdate {
                    if processable(message.payload->DetectFileUpdate_0@, ignored) {
                        Some(FileOperation::Update(message.payload->DetectFileUpdate_0))
                    } else { None }
                } else if message.method@ == "detectFileDelete"@ && message.payload is DetectFileDelete {
                    Some(FileOperation::Delete(message.payload->DetectFileDelete_0))
                } else {
                    None
                };
                match queued {
                    Some(op) => final(self).queue() == without_path(old(self).queue(), op_path(op)).push(op)
                        && start == !old(self).processing(),
                    None => final(self).queue() == old(self).queue() && !start,
                }
            }),
    {
        let is_create = str_eq(message.method.as_str(), "detectFileCreate");
        let is_update = str_eq(message.method.as_str(), "detectFileUpdate");
        let is_delete = str_eq(message.method.as_str(), "detectFileDelete");
        let op = match message.payload {
            FaeMessage::DetectFileCreate(p) => {
                if is_create && Self::should_process_file(p.as_str(), ignored) { Some(FileOperation::Create(p)) } else { None }
            },
            FaeMessage::DetectFileUpdate(p) => {
                if is_update && Self::should_process_file(p.as_str(), ignored) { Some(FileOperation::Update(p)) } else { None }
            },
            FaeMessage::DetectFileDelete(p) => {
                if is_delete { Some(FileOperation::Delete(p)) } else { None }
            },
            _ => None,
        };
        match op {
            Some(o) => {
                self.add_operation_to_queue(o);
                !self.is_processing
            },
            None => false,
        }
    }
}

} // verus!
