//! The search backend's decisions: what a command from the interface asks
//! for, how indexing progress is counted and reported, and how index
//! updates from the watcher become file change events.

use vstd::prelude::*;
use crate::types::{CodeSymbol, SearchMode};
use crate::display::SearchResult;

verus! {

/// How a watched file changed.
#[derive(Debug, Clone, Copy, PartialEq, Eq, Structural)]
pub enum FileChangeType {
    Created,
    Modified,
    Deleted,
}

/// Events sent from the backend to the interface.
#[derive(Debug)]
pub enum BackendEvent {
    IndexingProgress { processed: usize, total: usize, symbols: Vec<CodeSymbol> },
    IndexingComplete { duration_ms: u64, total_symbols: usize },
    FileChanged { file: String, change_type: FileChangeType },
    SearchResults { query: String, results: Vec<SearchResult> },
    Error { message: String },
}

/// Commands sent from the interface to the backend.
#[derive(Debug, Clone)]
pub enum UserCommand {
    StartIndexing { directory: String },
    Search { query: String, mode: SearchMode },
    EnableFileWatching,
    CopyResult { index: usize },
    Quit,
}

/// What the backend does for a command.
#[derive(Debug, Clone)]
pub enum CommandAction {
    StartIndexing(String),
    Search(String, SearchMode),
    EnableFileWatching,
    /// Nothing (copying is the interface's business).
    Nothing,
    /// Leave the event loop.
    Quit,
}

/// What a command asks of the backend; only `Quit` ends the loop.
pub fn handle_command(command: UserCommand) -> (a: CommandAction)
    ensures
        match command {
            UserCommand::StartIndexing { directory } => a == CommandAction::StartIndexing(directory),
            UserCommand::Search { query, mode } => a == CommandAction::Search(query, mode),
            UserCommand::EnableFileWatching => a is EnableFileWatching,
            UserCommand::CopyResult { .. } => a is Nothing,
            UserCommand::Quit => a is Quit,
        },
{
    match command {
        UserCommand::StartIndexing { directory } => CommandAction::StartIndexing(directory),
        UserCommand::Search { query, mode } => CommandAction::Search(query, mode),
        UserCommand::EnableFileWatching => CommandAction::EnableFileWatching,
        UserCommand::CopyResult { index: _ } => CommandAction::Nothing,
        UserCommand::Quit => CommandAction::Quit,
    }
}

/// The glob patterns of the source files that are watched.
pub open spec fn watch_pattern_texts() -> Seq<Seq<char>> {
    seq![
        "**/*.ts"@, "**/*.tsx"@, "**/*.js"@, "**/*.jsx"@, "**/*.py"@, "**/*.rs"@, "**/*.go"@,
        "**/*.java"@, "**/*.c"@, "**/*.cpp"@, "**/*.php"@, "**/*.rb"@, "**/*.cs"@, "**/*.scala"@,
    ]
}

/// The glob patterns of the source files that are watched.
pub fn watch_patterns() -> (v: Vec<String>)
    ensures
        v@.map_values(|s: String| s@) == watch_pattern_texts(),
{
    let mut v: Vec<String> = Vec::new();
    v.push("**/*.ts".to_owned());
    v.push("**/*.tsx".to_owned());
    v.push("**/*.js".to_owned());
    v.push("**/*.jsx".to_owned());
    v.push("**/*.py".to_owned());
    v.push("**/*.rs".to_owned());
    v.push("**/*.go".to_owned());
    v.push("**/*.java".to_owned());
    v.push("**/*.c".to_owned());
    v.push("**/*.cpp".to_owned());
    v.push("**/*.php".to_owned());
    v.push("**/*.rb".to_owned());
    v.push("**/*.cs".to_owned());
    v.push("**/*.scala".to_owned());
    assert(v@.map_values(|s: String| s@) =~= watch_pattern_texts());
    v
}

/// The debounce time of file watching, in milliseconds.
pub const WATCH_DEBOUNCE_MS: u64 = 100;

/// The most progress messages taken in one turn of the event loop.
pub const MAX_PROGRESS_UPDATES_PER_TICK: usize = 5;

/// A change to the index reported by the watcher.
#[derive(Debug)]
pub enum IndexUpdate {
    Added { file: String, symbols: Vec<CodeSymbol> },
    Modified { file: String, symbols: Vec<CodeSymbol> },
    Removed { file: String, symbol_count: usize },
}

/// The event for an index update, and the symbols to give to the searcher
/// (for added and modified files).
pub fn index_update_event(update: IndexUpdate) -> (r: (BackendEvent, Option<Vec<CodeSymbol>>))
    ensures
        match update {
            IndexUpdate::Added { file, symbols } => r.0 == BackendEvent::FileChanged {
                file,
                change_type: FileChangeType::Created,
            } && r.1 == Some(symbols),
            IndexUpdate::Modified { file, symbols } => r.0 == BackendEvent::FileChanged {
                file,
                change_type: FileChangeType::Modified,
            } && r.1 == Some(symbols),
            IndexUpdate::Removed { file, .. } => r.0 == BackendEvent::FileChanged {
                file,
                change_type: FileChangeType::Deleted,
            } && r.1 is None,
        },
{
    match update {
        IndexUpdate::Added { file, symbols } => (
            BackendEvent::FileChanged { file, change_type: FileChangeType::Created },
            Some(symbols),
        ),
        IndexUpdate::Modified { file, symbols } => (
            BackendEvent::FileChanged { file, change_type: FileChangeType::Modified },
            Some(symbols),
        ),
        IndexUpdate::Removed { file, symbol_count: _ } => (
            BackendEvent::FileChanged { file, change_type: FileChangeType::Deleted },
            None,
        ),
    }
}

/// Whether a progress message ends the indexing: every file is done.
pub fn progress_complete(processed: usize, total: usize) -> (r: bool)
    ensures
        r == (processed >= total),
{
    processed >= total
}

/// A field-by-field copy of a symbol.
pub fn copy_symbol(s: &CodeSymbol) -> (r: CodeSymbol)
    ensures
        r == *s,
{
    CodeSymbol {
        name: s.name.clone(),
        symbol_type: s.symbol_type,
        file: s.file.clone(),
        line: s.line,
        column: s.column,
        context: match &s.context {
            Some(c) => Some(c.clone()),
            None => None,
        },
    }
}

/// Copies of symbols.
pub fn copy_symbols(v: &Vec<CodeSymbol>) -> (r: Vec<CodeSymbol>)
    ensures
        r@ == v@,
{
    let mut r: Vec<CodeSymbol> = Vec::new();
    let mut i: usize = 0;
    while i < v.len()
        invariant
            i <= v@.len(),
            r@ == v@.take(i as int),
        decreases v@.len() - i,
    {
        r.push(copy_symbol(&v[i]));
        assert(r@ =~= v@.take(i + 1));
        i = i + 1;
    }
    assert(v@.take(v@.len() as int) =~= v@);
    r
}

/// The counting of a background indexing run over `total` files.
pub struct IndexingRun {
    pub processed: usize,
    pub total: usize,
    /// The symbols of every file indexed so far, in order.
    pub all_symbols: Vec<CodeSymbol>,
}

impl IndexingRun {
    /// A run over `total` files, none done yet.
    pub fn new(total: usize) -> (r: IndexingRun)
        ensures
            r.processed == 0,
            r.total == total,
            r.all_symbols@.len() == 0,
    {
        IndexingRun { processed: 0, total, all_symbols: Vec::new() }
    }

    /// Records a file: its symbols, or `None` when it could not be indexed.
    /// Returns the progress message for the backend (the file's symbols,
    /// files done, total) and, for an indexed file, the progress event with
    /// every symbol so far.
    pub fn file_done(&mut self, symbols: Option<Vec<CodeSymbol>>) -> (r: ((Vec<CodeSymbol>, usize, usize), Option<BackendEvent>))
        requires
            old(self).processed < usize::MAX,
        ensures
            final(self).processed == old(self).processed + 1,
            final(self).total == old(self).total,
            r.0.1 == final(self).processed,
            r.0.2 == old(self).total,
            match symbols {
                Some(s) => {
                    &&& final(self).all_symbols@ == old(self).all_symbols@ + s@
                    &&& r.0.0@ == s@
                    &&& r.1 matches Some(BackendEvent::IndexingProgress { processed, total, symbols: all })
                        && processed == final(self).processed && total == old(self).total
                        && all@ == final(self).all_symbols@
                },
                None => {
                    &&& final(self).all_symbols@ == old(self).all_symbols@
                    &&& r.0.0@.len() == 0
                    &&& r.1 is None
                },
            },
    {
        match symbols {
            Some(s) => {
                let copy = copy_symbols(&s);
                let mut k: usize = 0;
                let ghost before = self.all_symbols@;
                while k < s.len()
                    invariant
                        k <= s@.len(),
                        self.all_symbols@ == before + s@.take(k as int),
                        self.processed == old(self).processed,
                        self.total == old(self).total,
                        self.processed < usize::MAX,
                    decreases s@.len() - k,
                {
                    self.all_symbols.push(copy_symbol(&s[k]));
                    assert(self.all_symbols@ =~= before + s@.take(k + 1));
                    k = k + 1;
                }
                assert(s@.take(s@.len() as int) =~= s@);
                self.processed = self.processed + 1;
                let event = BackendEvent::IndexingProgress {
                    processed: self.processed,
                    total: self.total,
                    symbols: copy_symbols(&self.all_symbols),
                };
                ((copy, self.processed, self.total), Some(event))
            },
            None => {
                self.processed = self.processed + 1;
                ((Vec::new(), self.processed, self.total), None)
            },
        }
    }

    /// The completion event: the time taken and the number of symbols.
    pub fn finish(&self, duration_ms: u64) -> (e: BackendEvent)
        ensures
            e == (BackendEvent::IndexingComplete { duration_ms, total_symbols: self.all_symbols@.len() as usize }),
    {
        BackendEvent::IndexingComplete { duration_ms, total_symbols: self.all_symbols.len() }
    }
}


/// What a turn of the event loop read from the indexing progress channel.
#[derive(Debug, Clone, Copy, PartialEq, Eq, Structural)]
pub enum ProgressRead {
    /// A progress message: whether its symbols are none, files done, total.
    Update { no_symbols: bool, processed: usize, total: usize },
    /// No message is waiting.
    Empty,
    /// The indexing thread is gone.
    Disconnected,
}

/// What becomes of the symbols of a progress message.
#[derive(Debug, Clone, Copy, PartialEq, Eq, Structural)]
pub enum SearcherStep {
    /// Give them to the existing searcher.
    Update,
    /// Build the first searcher from them.
    Create,
    /// Drop them (no searcher yet and no symbols).
    Skip,
}

/// What the backend keeps between turns of its event loop.
#[derive(Debug, Clone, PartialEq, Eq)]
pub struct BackendState {
    /// The directory being indexed, once indexing was started.
    pub directory: Option<String>,
    pub is_indexing: bool,
    /// Whether progress messages are read.
    pub reading_progress: bool,
    pub has_searcher: bool,
    pub watching: bool,
}

/// What enabling file watching asks for: a watcher on the directory with
/// the source patterns and the debounce time, or nothing without a
/// directory.
pub struct WatchRequest {
    pub directory: String,
    pub patterns: Vec<String>,
    pub debounce_ms: u64,
}

impl BackendState {
    pub fn new() -> (s: BackendState)
        ensures
            s.directory is None && !s.is_indexing && !s.reading_progress && !s.has_searcher && !s.watching,
    {
        BackendState { directory: None, is_indexing: false, reading_progress: false, has_searcher: false, watching: false }
    }

    /// Starting to index a directory: it is remembered, and progress is read.
    pub fn start_indexing(&mut self, directory: String)
        ensures
            final(self).directory == Some(directory),
            final(self).is_indexing && final(self).reading_progress,
            final(self).has_searcher == old(self).has_searcher,
            final(self).watching == old(self).watching,
    {
        self.directory = Some(directory);
        self.is_indexing = true;
        self.reading_progress = true;
    }

    /// The watcher that enabling file watching asks for (none before a
    /// directory is known).
    pub fn watch_request(&self) -> (r: Option<WatchRequest>)
        ensures
            match self.directory {
                Some(d) => r matches Some(w) && w.directory == d && w.patterns@.map_values(|s: String| s@)
                    == watch_pattern_texts() && w.debounce_ms == WATCH_DEBOUNCE_MS,
                None => r is None,
            },
    {
        match &self.directory {
            Some(d) => Some(WatchRequest { directory: d.clone(), patterns: watch_patterns(), debounce_ms: WATCH_DEBOUNCE_MS }),
            None => None,
        }
    }

    /// Records that the watcher runs.
    pub fn watcher_started(&mut self)
        ensures
            final(self).watching,
            final(self).directory == old(self).directory,
            final(self).is_indexing == old(self).is_indexing,
            final(self).reading_progress == old(self).reading_progress,
            final(self).has_searcher == old(self).has_searcher,
    {
        self.watching = true;
    }

    /// Takes what was read from the progress channel. A message's symbols
    /// go to the searcher, or build the first one when there are any; once
    /// every file is done, or the channel is gone, indexing ends and no more
    /// progress is read. Returns what becomes of the symbols and whether to
    /// read on in this turn.
    pub fn on_progress(&mut self, read: ProgressRead) -> (r: (SearcherStep, bool))
        requires
            old(self).reading_progress,
        ensures
            final(self).directory == old(self).directory,
            final(self).watching == old(self).watching,
            match read {
                ProgressRead::Update { no_symbols, processed, total } => {
                    &&& r.0 == (if old(self).has_searcher {
                        SearcherStep::Update
                    } else if !no_symbols {
                        SearcherStep::Create
                    } else {
                        SearcherStep::Skip
                    })
                    &&& final(self).has_searcher == (old(self).has_searcher || !no_symbols)
                    &&& r.1 == (processed < total)
                    &&& final(self).is_indexing == (if processed >= total { false } else { old(self).is_indexing })
                    &&& final(self).reading_progress == (processed < total)
                },
                ProgressRead::Empty => r == (SearcherStep::Skip, false) && *final(self) == *old(self),
                ProgressRead::Disconnected => {
                    &&& r == (SearcherStep::Skip, false)
                    &&& !final(self).is_indexing && !final(self).reading_progress
                    &&& final(self).has_searcher == old(self).has_searcher
                },
            },
    {
        match read {
            ProgressRead::Update { no_symbols, processed, total } => {
                let step = if self.has_searcher {
                    SearcherStep::Update
                } else if !no_symbols {
                    self.has_searcher = true;
                    SearcherStep::Create
                } else {
                    SearcherStep::Skip
                };
                if progress_complete(processed, total) {
                    self.is_indexing = false;
                    self.reading_progress = false;
                    (step, false)
                } else {
                    (step, true)
                }
            },
            ProgressRead::Empty => (SearcherStep::Skip, false),
            ProgressRead::Disconnected => {
                self.is_indexing = false;
                self.reading_progress = false;
                (SearcherStep::Skip, false)
            },
        }
    }
}

/// What went wrong in a turn of the event loop.
#[derive(Debug, Clone, Copy, PartialEq, Eq, Structural)]
pub enum LoopFailure {
    Command,
    FileWatching,
    IndexingProgress,
}

/// The error event for a failure in the event loop, with its reason.
pub fn loop_error_event(failure: LoopFailure, reason: &str) -> (e: BackendEvent)
    ensures
        e matches BackendEvent::Error { message } && message@ == (match failure {
            LoopFailure::Command => "Command handling error: "@,
            LoopFailure::FileWatching => "File watching error: "@,
            LoopFailure::IndexingProgress => "Indexing progress error: "@,
        }) + reason@,
{
    let mut message = String::new();
    match failure {
        LoopFailure::Command => crate::text::push_str(&mut message, "Command handling error: "),
        LoopFailure::FileWatching => crate::text::push_str(&mut message, "File watching error: "),
        LoopFailure::IndexingProgress => crate::text::push_str(&mut message, "Indexing progress error: "),
    }
    crate::text::push_str(&mut message, reason);
    BackendEvent::Error { message }
}

} // verus!
