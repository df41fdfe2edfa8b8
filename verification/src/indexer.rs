//! The symbols every indexed file gets from its path, and which files are
//! parsed for further symbols.

use vstd::prelude::*;
use crate::types::{CodeSymbol, SymbolType};
use crate::pathutil::{file_name_of, parent_of, path_file_name, path_parent, extension_of, path_extension};
use crate::text::str_eq;
use crate::filters::{FileFilter, GitignoreFilter};
use crate::backend::copy_symbols;

verus! {

/// A symbol at line 1, column 1 of a file, without context.
pub open spec fn path_symbol(name: Seq<char>, t: SymbolType, file: Seq<char>, s: CodeSymbol) -> bool {
    &&& s.name@ == name
    &&& s.symbol_type == t
    &&& s.file@ == file
    &&& s.line == 1
    &&& s.column == 1
    &&& s.context is None
}

/// The name of a file's directory: the last component of its parent.
pub open spec fn dir_name_of(path: Seq<char>) -> Option<Seq<char>> {
    match parent_of(path) {
        Some(p) => file_name_of(p),
        None => None,
    }
}

/// The symbols of a file's path: its file name, then the name of its
/// directory, each where the path has one.
pub fn path_symbols(path: &str) -> (r: Vec<CodeSymbol>)
    ensures
        r@.len() == (if file_name_of(path@) is Some { 1int } else { 0int }) + (if dir_name_of(path@) is Some {
            1int
        } else {
            0int
        }),
        file_name_of(path@) matches Some(f) ==> path_symbol(f, SymbolType::Filename, path@, r@[0]),
        dir_name_of(path@) matches Some(d) ==> path_symbol(d, SymbolType::Dirname, path@, r@[r@.len() - 1]),
{
    let mut r: Vec<CodeSymbol> = Vec::new();
    if let Some(name) = path_file_name(path) {
        r.push(CodeSymbol {
            name,
            symbol_type: SymbolType::Filename,
            file: path.to_owned(),
            line: 1,
            column: 1,
            context: None,
        });
    }
    if let Some(parent) = path_parent(path) {
        if let Some(dir) = path_file_name(parent.as_str()) {
            r.push(CodeSymbol {
                name: dir,
                symbol_type: SymbolType::Dirname,
                file: path.to_owned(),
                line: 1,
                column: 1,
                context: None,
            });
        }
    }
    r
}

/// The extensions of files that are parsed for symbols.
pub open spec fn parsed_extension(e: Seq<char>) -> bool {
    ||| e == "ts"@ ||| e == "tsx"@ ||| e == "js"@ ||| e == "jsx"@ ||| e == "py"@ ||| e == "php"@
    ||| e == "rb"@ ||| e == "ruby"@
    ||| e == "go"@ ||| e == "rs"@ ||| e == "java"@ ||| e == "c"@ ||| e == "cpp"@ ||| e == "cc"@
    ||| e == "cxx"@ ||| e == "h"@ ||| e == "hpp"@
    ||| e == "cs"@ ||| e == "scala"@ ||| e == "pl"@ ||| e == "pm"@
}

/// Whether the file at `path` is parsed for symbols (by its extension).
pub fn is_parsed_file(path: &str) -> (r: bool)
    ensures
        r == (extension_of(path@) matches Some(e) && parsed_extension(e)),
{
    match path_extension(path) {
        Some(ext) => {
            let e = ext.as_str();
            str_eq(e, "ts") || str_eq(e, "tsx") || str_eq(e, "js") || str_eq(e, "jsx") || str_eq(e, "py")
                || str_eq(e, "php") || str_eq(e, "rb") || str_eq(e, "ruby") || str_eq(e, "go") || str_eq(e, "rs")
                || str_eq(e, "java") || str_eq(e, "c") || str_eq(e, "cpp") || str_eq(e, "cc") || str_eq(e, "cxx")
                || str_eq(e, "h") || str_eq(e, "hpp") || str_eq(e, "cs") || str_eq(e, "scala") || str_eq(e, "pl")
                || str_eq(e, "pm")
        },
        None => false,
    }
}


/// The symbols recorded for a file: those of its entry (the last one
/// with its path).
pub open spec fn recorded(s: Seq<(String, Vec<CodeSymbol>)>, path: Seq<char>) -> Option<Seq<CodeSymbol>>
    decreases s.len(),
{
    if s.len() == 0 {
        None
    } else if s.last().0@ == path {
        Some(s.last().1@)
    } else {
        recorded(s.drop_last(), path)
    }
}

/// Every recorded symbol, file by file in the order of the entries.
pub open spec fn all_recorded(s: Seq<(String, Vec<CodeSymbol>)>) -> Seq<CodeSymbol>
    decreases s.len(),
{
    if s.len() == 0 {
        Seq::empty()
    } else {
        all_recorded(s.drop_last()) + s.last().1@
    }
}

/// No file has two entries.
pub open spec fn distinct_paths(s: Seq<(String, Vec<CodeSymbol>)>) -> bool {
    forall|i: int, j: int| 0 <= i < j < s.len() ==> s[i].0@ != s[j].0@
}

/// The entries after recording `symbols` for `path`: they replace the
/// file's entry in place, or form a new last entry.
pub open spec fn record(s: Seq<(String, Vec<CodeSymbol>)>, path: String, symbols: Vec<CodeSymbol>) -> Seq<(String, Vec<CodeSymbol>)> {
    if exists|i: int| 0 <= i < s.len() && s[i].0@ == path@ {
        s.update(choose|i: int| 0 <= i < s.len() && s[i].0@ == path@, (path, symbols))
    } else {
        s.push((path, symbols))
    }
}

/// The entries after recording each of `results` in turn.
pub open spec fn record_all(s: Seq<(String, Vec<CodeSymbol>)>, results: Seq<(String, Vec<CodeSymbol>)>) -> Seq<(String, Vec<CodeSymbol>)>
    decreases results.len(),
{
    if results.len() == 0 {
        s
    } else {
        record(record_all(s, results.drop_last()), results.last().0, results.last().1)
    }
}

proof fn lemma_recorded_absent(s: Seq<(String, Vec<CodeSymbol>)>, path: Seq<char>)
    requires
        forall|i: int| 0 <= i < s.len() ==> s[i].0@ != path,
    ensures
        recorded(s, path) is None,
    decreases s.len(),
{
    if s.len() > 0 {
        lemma_recorded_absent(s.drop_last(), path);
    }
}

proof fn lemma_recorded_at(s: Seq<(String, Vec<CodeSymbol>)>, i: int)
    requires
        distinct_paths(s),
        0 <= i < s.len(),
    ensures
        recorded(s, s[i].0@) == Some(s[i].1@),
    decreases s.len(),
{
    if i < s.len() - 1 {
        assert(s.last().0@ != s[i].0@);
        assert(s.drop_last()[i] == s[i]);
        lemma_recorded_at(s.drop_last(), i);
    }
}

proof fn lemma_record(s: Seq<(String, Vec<CodeSymbol>)>, path: String, symbols: Vec<CodeSymbol>)
    requires
        distinct_paths(s),
    ensures
        distinct_paths(record(s, path, symbols)),
        forall|p: Seq<char>| #[trigger] recorded(record(s, path, symbols), p) == (if p == path@ {
            Some(symbols@)
        } else {
            recorded(s, p)
        }),
{
    let t = record(s, path, symbols);
    if exists|i: int| 0 <= i < s.len() && s[i].0@ == path@ {
        let k = choose|i: int| 0 <= i < s.len() && s[i].0@ == path@;
        assert forall|a: int, b: int| 0 <= a < b < t.len() implies t[a].0@ != t[b].0@ by {
            assert(t[a].0@ == s[a].0@ && t[b].0@ == s[b].0@);
        }
        assert forall|p: Seq<char>| #[trigger] recorded(t, p) == (if p == path@ {
            Some(symbols@)
        } else {
            recorded(s, p)
        }) by {
            if p == path@ {
                lemma_recorded_at(t, k);
            } else {
                if exists|j: int| 0 <= j < s.len() && s[j].0@ == p {
                    let j = choose|j: int| 0 <= j < s.len() && s[j].0@ == p;
                    lemma_recorded_at(s, j);
                    lemma_recorded_at(t, j);
                } else {
                    lemma_recorded_absent(s, p);
                    assert forall|i: int| 0 <= i < t.len() implies t[i].0@ != p by {
                        assert(t[i].0@ == s[i].0@);
                    }
                    lemma_recorded_absent(t, p);
                }
            }
        }
    } else {
        assert forall|a: int, b: int| 0 <= a < b < t.len() implies t[a].0@ != t[b].0@ by {
            assert(t[a] == s[a]);
        }
        assert(t.drop_last() =~= s);
    }
}

/// Why the indexer refused to index a file.
#[derive(Debug, Clone, Copy, PartialEq, Eq, Structural)]
pub enum IndexerError {
    NotInitialized,
}

impl IndexerError {
    /// The description of the error.
    pub fn message(&self) -> (r: &'static str)
        ensures
            r@ == "Indexer not initialized"@,
    {
        "Indexer not initialized"
    }
}

/// Keeps the symbols found in each indexed file. It indexes files only
/// once initialized.
pub struct TreeSitterIndexer {
    symbols_cache: Vec<(String, Vec<CodeSymbol>)>,
    initialized: bool,
    verbose: bool,
    respect_gitignore: bool,
    file_filter: FileFilter,
    gitignore_filter: GitignoreFilter,
}

impl TreeSitterIndexer {
    /// The files and their symbols, in the order they were first indexed.
    pub closed spec fn entries(&self) -> Seq<(String, Vec<CodeSymbol>)> {
        self.symbols_cache@
    }

    pub closed spec fn is_initialized(&self) -> bool {
        self.initialized
    }

    /// Whether skipped and failed files are reported.
    pub closed spec fn is_verbose(&self) -> bool {
        self.verbose
    }

    /// Whether ignore files are respected when walking a directory.
    pub closed spec fn respects_gitignore(&self) -> bool {
        self.respect_gitignore
    }

    /// The filters used when walking a directory.
    pub closed spec fn filters(&self) -> (FileFilter, GitignoreFilter) {
        (self.file_filter, self.gitignore_filter)
    }

    pub closed spec fn well_formed(&self) -> bool {
        distinct_paths(self.symbols_cache@)
    }

    /// An indexer that is not initialized, has no symbols, reports nothing
    /// and respects ignore files.
    pub fn new() -> (r: TreeSitterIndexer)
        ensures
            r.well_formed(),
            r.entries().len() == 0,
            !r.is_initialized(),
            !r.is_verbose() && r.respects_gitignore(),
            !r.filters().0.verbose,
            r.filters().1 == (GitignoreFilter { respect_gitignore: true, verbose: false }),
    {
        TreeSitterIndexer::with_options(false, true)
    }

    /// As [`TreeSitterIndexer::new`], reporting skipped files when `verbose`.
    pub fn with_verbose(verbose: bool) -> (r: TreeSitterIndexer)
        ensures
            r.well_formed(),
            r.entries().len() == 0,
            !r.is_initialized(),
            r.is_verbose() == verbose && r.respects_gitignore(),
            r.filters().0.verbose == verbose,
            r.filters().1 == (GitignoreFilter { respect_gitignore: true, verbose }),
    {
        TreeSitterIndexer::with_options(verbose, true)
    }

    /// An indexer that is not initialized and has no symbols, with the
    /// given reporting and ignore-file settings.
    pub fn with_options(verbose: bool, respect_gitignore: bool) -> (r: TreeSitterIndexer)
        ensures
            r.well_formed(),
            r.entries().len() == 0,
            !r.is_initialized(),
            r.is_verbose() == verbose && r.respects_gitignore() == respect_gitignore,
            r.filters().0.verbose == verbose,
            r.filters().1 == (GitignoreFilter { respect_gitignore, verbose }),
    {
        TreeSitterIndexer {
            symbols_cache: Vec::new(),
            initialized: false,
            verbose,
            respect_gitignore,
            file_filter: FileFilter::new(verbose),
            gitignore_filter: GitignoreFilter::new(respect_gitignore, verbose),
        }
    }

    /// Initializes the indexer.
    pub fn initialize(&mut self) -> (r: Result<(), IndexerError>)
        requires
            old(self).well_formed(),
        ensures
            r is Ok,
            final(self).is_initialized(),
            final(self).well_formed(),
            final(self).entries() == old(self).entries(),
            final(self).is_verbose() == old(self).is_verbose(),
            final(self).respects_gitignore() == old(self).respects_gitignore(),
    {
        self.initialized = true;
        Ok(())
    }

    /// Initializes the indexer (for use on worker threads).
    pub fn initialize_sync(&mut self) -> (r: Result<(), IndexerError>)
        requires
            old(self).well_formed(),
        ensures
            r is Ok,
            final(self).is_initialized(),
            final(self).well_formed(),
            final(self).entries() == old(self).entries(),
            final(self).is_verbose() == old(self).is_verbose(),
            final(self).respects_gitignore() == old(self).respects_gitignore(),
    {
        self.initialize()
    }

    fn store(&mut self, path: String, symbols: Vec<CodeSymbol>)
        requires
            old(self).well_formed(),
        ensures
            final(self).well_formed(),
            final(self).entries() == record(old(self).entries(), path, symbols),
            final(self).is_initialized() == old(self).is_initialized(),
            final(self).is_verbose() == old(self).is_verbose(),
            final(self).respects_gitignore() == old(self).respects_gitignore(),
    {
        proof {
            lemma_record(self.symbols_cache@, path, symbols);
        }
        let ghost s = self.symbols_cache@;
        let mut i: usize = 0;
        while i < self.symbols_cache.len()
            invariant
                self.symbols_cache@ == s,
                s == old(self).symbols_cache@,
                distinct_paths(s),
                self.initialized == old(self).initialized,
                self.verbose == old(self).verbose,
                self.respect_gitignore == old(self).respect_gitignore,
                i <= s.len(),
                forall|k: int| 0 <= k < i ==> s[k].0@ != path@,
            decreases s.len() - i,
        {
            if str_eq(self.symbols_cache[i].0.as_str(), path.as_str()) {
                proof {
                    let k = choose|k: int| 0 <= k < s.len() && s[k].0@ == path@;
                    assert(distinct_paths(s));
                    assert(k == i);
                }
                self.symbols_cache.set(i, (path, symbols));
                return;
            }
            i = i + 1;
        }
        self.symbols_cache.push((path, symbols));
    }

    /// Records the symbols found in a file, once initialized; before, it
    /// fails and records nothing.
    pub fn index_file(&mut self, path: String, symbols: Vec<CodeSymbol>) -> (r: Result<(), IndexerError>)
        requires
            old(self).well_formed(),
        ensures
            final(self).well_formed(),
            final(self).is_initialized() == old(self).is_initialized(),
            final(self).is_verbose() == old(self).is_verbose(),
            final(self).respects_gitignore() == old(self).respects_gitignore(),
            old(self).is_initialized() ==> r is Ok && final(self).entries() == record(old(self).entries(), path, symbols),
            !old(self).is_initialized() ==> r == Err::<(), IndexerError>(IndexerError::NotInitialized)
                && final(self).entries() == old(self).entries(),
    {
        if !self.initialized {
            return Err(IndexerError::NotInitialized);
        }
        self.store(path, symbols);
        Ok(())
    }

    /// The symbols found in a file, once initialized (without recording
    /// them); before, it fails.
    pub fn index_file_sync(&self, symbols: Vec<CodeSymbol>) -> (r: Result<Vec<CodeSymbol>, IndexerError>)
        ensures
            self.is_initialized() ==> (r matches Ok(v) && v@ == symbols@),
            !self.is_initialized() ==> (r matches Err(e) && e == IndexerError::NotInitialized),
    {
        if !self.initialized {
            return Err(IndexerError::NotInitialized);
        }
        Ok(symbols)
    }

    /// The symbols recorded for a file (none when it has no entry).
    pub fn get_symbols_by_file(&self, path: &str) -> (r: Vec<CodeSymbol>)
        requires
            self.well_formed(),
        ensures
            r@ == match recorded(self.entries(), path@) {
                Some(v) => v,
                None => Seq::empty(),
            },
    {
        let ghost s = self.symbols_cache@;
        let mut i: usize = 0;
        while i < self.symbols_cache.len()
            invariant
                self.symbols_cache@ == s,
                distinct_paths(s),
                i <= s.len(),
                forall|k: int| 0 <= k < i ==> s[k].0@ != path@,
            decreases s.len() - i,
        {
            if str_eq(self.symbols_cache[i].0.as_str(), path) {
                proof {
                    lemma_recorded_at(s, i as int);
                }
                return copy_symbols(&self.symbols_cache[i].1);
            }
            i = i + 1;
        }
        proof {
            lemma_recorded_absent(s, path@);
        }
        Vec::new()
    }

    /// Every recorded symbol, file by file.
    pub fn get_all_symbols(&self) -> (r: Vec<CodeSymbol>)
        ensures
            r@ == all_recorded(self.entries()),
    {
        let ghost s = self.symbols_cache@;
        let mut r: Vec<CodeSymbol> = Vec::new();
        let mut i: usize = 0;
        while i < self.symbols_cache.len()
            invariant
                self.symbols_cache@ == s,
                i <= s.len(),
                r@ == all_recorded(s.take(i as int)),
            decreases s.len() - i,
        {
            assert(s.take(i + 1).drop_last() =~= s.take(i as int));
            let v = &self.symbols_cache[i].1;
            let ghost before = r@;
            let mut k: usize = 0;
            while k < v.len()
                invariant
                    k <= v@.len(),
                    r@ == before + v@.take(k as int),
                decreases v@.len() - k,
            {
                r.push(crate::backend::copy_symbol(&v[k]));
                assert(r@ =~= before + v@.take(k + 1));
                k = k + 1;
            }
            assert(v@.take(v@.len() as int) =~= v@);
            i = i + 1;
        }
        assert(s.take(s.len() as int) =~= s);
        r
    }

    /// Records the symbols found by a directory scan, file by file.
    pub fn index_directory(&mut self, results: Vec<(String, Vec<CodeSymbol>)>)
        requires
            old(self).well_formed(),
        ensures
            final(self).well_formed(),
            final(self).entries() == record_all(old(self).entries(), results@),
            final(self).is_initialized() == old(self).is_initialized(),
            final(self).is_verbose() == old(self).is_verbose(),
            final(self).respects_gitignore() == old(self).respects_gitignore(),
    {
        let ghost start = self.symbols_cache@;
        let ghost all = results@;
        let mut rest = results;
        let mut rev: Vec<(String, Vec<CodeSymbol>)> = Vec::new();
        while rest.len() > 0
            invariant
                rest@ + rev@.reverse() == all,
            decreases rest@.len(),
        {
            let x = rest.pop().unwrap();
            rev.push(x);
            assert(rest@ + rev@.reverse() =~= all);
        }
        assert(rev@.reverse() =~= all);
        let n = rev.len();
        while rev.len() > 0
            invariant
                self.well_formed(),
                rev@.len() <= n,
                n == all.len(),
                rev@.reverse() == all.subrange(n - rev@.len(), n as int),
                self.symbols_cache@ == record_all(start, all.take(n - rev@.len())),
                self.initialized == old(self).initialized,
                self.verbose == old(self).verbose,
                self.respect_gitignore == old(self).respect_gitignore,
            decreases rev@.len(),
        {
            let ghost k = n - rev@.len();
            let ghost before = rev@;
            let (path, symbols) = rev.pop().unwrap();
            assert(before.reverse()[0] == before.last());
            assert((path, symbols) == all[k]);
            assert(rev@ == before.drop_last());
            assert(rev@.reverse() =~= before.reverse().subrange(1, before.len() as int));
            assert(rev@.reverse() =~= all.subrange(k + 1, n as int));
            assert(all.take(k + 1).drop_last() =~= all.take(k));
            assert(all.take(k + 1).last() == all[k]);
            self.store(path, symbols);
        }
        assert(all.take(n as int) =~= all);
    }

    /// The filter deciding which walked files are indexed.
    pub fn file_filter(&self) -> (r: &FileFilter)
        ensures
            *r == self.filters().0,
    {
        &self.file_filter
    }

    /// The filter deciding which walked entries are looked at.
    pub fn gitignore_filter(&self) -> (r: &GitignoreFilter)
        ensures
            *r == self.filters().1,
    {
        &self.gitignore_filter
    }

    /// Forgets every recorded symbol.
    pub fn clear_cache(&mut self)
        ensures
            final(self).well_formed(),
            final(self).entries().len() == 0,
            final(self).is_initialized() == old(self).is_initialized(),
            final(self).is_verbose() == old(self).is_verbose(),
            final(self).respects_gitignore() == old(self).respects_gitignore(),
    {
        self.symbols_cache = Vec::new();
    }
}

/// What is indexed is read back: once the indexer is initialized, the
/// symbols recorded for a file are the last ones indexed for it, and other
/// files keep theirs.
pub proof fn lemma_index_then_read(s: Seq<(String, Vec<CodeSymbol>)>, path: String, symbols: Vec<CodeSymbol>, other: Seq<char>)
    requires
        distinct_paths(s),
    ensures
        recorded(record(s, path, symbols), path@) == Some(symbols@),
        other != path@ ==> recorded(record(s, path, symbols), other) == recorded(s, other),
{
    lemma_record(s, path, symbols);
    assert(recorded(record(s, path, symbols), path@) == Some(symbols@));
    assert(recorded(record(s, path, symbols), other) == (if other == path@ {
        Some(symbols@)
    } else {
        recorded(s, other)
    }));
}

} // verus!
