//! Which files of a project are indexed: the extension set, the size
//! limit, a binary check on a file's first bytes, and the most recently
//! modified files.

use vstd::prelude::*;
use crate::text::str_eq;
use crate::pathutil::{extension_of, path_extension};
use crate::display::utils::{relative_path, get_relative_path};
use crate::ranking::{sort_by_score, sort_by_score_desc, items_of, strip_scores, lemma_sort_permutes};

verus! {

/// A file found for indexing.
#[derive(Debug, Clone)]
pub struct FileInfo {
    pub path: String,
    /// Size in bytes.
    pub size: u64,
    /// The path relative to the project root.
    pub relative_path: String,
}

/// The texts of a sequence of strings as a set.
pub open spec fn text_set(v: Seq<String>) -> Set<Seq<char>> {
    v.map_values(|s: String| s@).to_set()
}

/// The extensions indexed by default.
pub open spec fn default_extensions() -> Set<Seq<char>> {
    set!["ts"@, "tsx"@, "js"@, "jsx"@, "py"@, "rs"@]
}

/// Finds the project files to index.
pub struct IndexManager {
    project_root: String,
    target_extensions: Vec<String>,
    max_file_size: u64,
}

impl IndexManager {
    /// The project root.
    pub closed spec fn root(&self) -> Seq<char> {
        self.project_root@
    }

    /// The extensions of the files that are indexed.
    pub closed spec fn extensions(&self) -> Set<Seq<char>> {
        text_set(self.target_extensions@)
    }

    /// The largest size of an indexed file, in bytes.
    pub closed spec fn max_size(&self) -> u64 {
        self.max_file_size
    }

    /// A manager for the project at `project_root`: TypeScript, JavaScript,
    /// Python and Rust files up to 1 MiB.
    pub fn new(project_root: String) -> (m: IndexManager)
        ensures
            m.root() == project_root@,
            m.extensions() == default_extensions(),
            m.max_size() == 1048576,
    {
        let mut exts: Vec<String> = Vec::new();
        exts.push("ts".to_owned());
        exts.push("tsx".to_owned());
        exts.push("js".to_owned());
        exts.push("jsx".to_owned());
        exts.push("py".to_owned());
        exts.push("rs".to_owned());
        let m = IndexManager { project_root, target_extensions: exts, max_file_size: 1048576 };
        proof {
            let s = exts@.map_values(|s: String| s@);
            assert(s =~= seq!["ts"@, "tsx"@, "js"@, "jsx"@, "py"@, "rs"@]);
            assert forall|e: Seq<char>| s.to_set().contains(e) <==> default_extensions().contains(e) by {
                if default_extensions().contains(e) {
                    if e == "ts"@ { assert(s[0] == e); }
                    if e == "tsx"@ { assert(s[1] == e); }
                    if e == "js"@ { assert(s[2] == e); }
                    if e == "jsx"@ { assert(s[3] == e); }
                    if e == "py"@ { assert(s[4] == e); }
                    if e == "rs"@ { assert(s[5] == e); }
                }
            }
            assert(s.to_set() =~= default_extensions());
        }
        m
    }

    /// The project root.
    pub fn project_root(&self) -> (r: &str)
        ensures
            r@ == self.root(),
    {
        self.project_root.as_str()
    }

    /// Whether files with this extension are indexed.
    pub fn has_extension(&self, ext: &str) -> (r: bool)
        ensures
            r == self.extensions().contains(ext@),
    {
        let ghost s = self.target_extensions@.map_values(|s: String| s@);
        let mut i: usize = 0;
        while i < self.target_extensions.len()
            invariant
                i <= self.target_extensions@.len(),
                s == self.target_extensions@.map_values(|s: String| s@),
                forall|k: int| 0 <= k < i ==> s[k] != ext@,
            decreases self.target_extensions@.len() - i,
        {
            if str_eq(self.target_extensions[i].as_str(), ext) {
                assert(s[i as int] == ext@);
                return true;
            }
            i = i + 1;
        }
        assert(!s.contains(ext@));
        false
    }

    /// Indexes files with this extension too.
    pub fn add_extension(&mut self, ext: &str)
        ensures
            final(self).extensions() == old(self).extensions().insert(ext@),
            final(self).root() == old(self).root(),
            final(self).max_size() == old(self).max_size(),
    {
        let ghost before = self.target_extensions@.map_values(|s: String| s@);
        if !self.has_extension(ext) {
            self.target_extensions.push(ext.to_owned());
            proof {
                let after = self.target_extensions@.map_values(|s: String| s@);
                assert(after =~= before.push(ext@));
                assert(after.to_set() =~= before.to_set().insert(ext@)) by {
                    assert forall|e: Seq<char>| after.to_set().contains(e) implies before.to_set().insert(
                        ext@,
                    ).contains(e) by {
                        let k = choose|k: int| 0 <= k < after.len() && after[k] == e;
                        if k < before.len() {
                            assert(before[k] == e);
                        }
                    }
                    assert forall|e: Seq<char>| before.to_set().insert(ext@).contains(e) implies after.to_set().contains(
                        e,
                    ) by {
                        if e == ext@ {
                            assert(after[before.len() as int] == e);
                        } else {
                            let k = choose|k: int| 0 <= k < before.len() && before[k] == e;
                            assert(after[k] == e);
                        }
                    }
                }
            }
        } else {
            assert(old(self).extensions().insert(ext@) =~= old(self).extensions());
        }
    }

    /// Sets the largest size of an indexed file.
    pub fn set_max_file_size(&mut self, size: u64)
        ensures
            final(self).max_size() == size,
            final(self).extensions() == old(self).extensions(),
            final(self).root() == old(self).root(),
    {
        self.max_file_size = size;
    }

    /// Whether a walked entry is a candidate: a file whose extension is
    /// indexed.
    pub fn accepts_entry(&self, path: &str, is_file: bool) -> (r: bool)
        ensures
            r == (is_file && (extension_of(path@) is Some && self.extensions().contains(
                extension_of(path@).unwrap(),
            ))),
    {
        if !is_file {
            return false;
        }
        match path_extension(path) {
            Some(e) => self.has_extension(e.as_str()),
            None => false,
        }
    }

    /// Whether a file of `size` bytes is within the size limit.
    pub fn within_size_limit(&self, size: u64) -> (r: bool)
        ensures
            r == (size <= self.max_size()),
    {
        size <= self.max_file_size
    }

    /// Whether the first bytes of a file mark it as binary: they hold a
    /// zero byte.
    pub fn is_likely_binary(head: &[u8]) -> (r: bool)
        ensures
            r == exists|i: int| 0 <= i < head@.len() && head@[i] == 0,
    {
        let mut i: usize = 0;
        while i < head.len()
            invariant
                i <= head@.len(),
                forall|k: int| 0 <= k < i ==> head@[k] != 0,
            decreases head@.len() - i,
        {
            if head[i] == 0 {
                return true;
            }
            i = i + 1;
        }
        false
    }

    /// The record of an accepted file, with its path relative to the root.
    pub fn file_info(&self, path: &str, size: u64) -> (f: FileInfo)
        ensures
            f.path@ == path@,
            f.size == size,
            f.relative_path@ == relative_path(path@, self.root()),
    {
        FileInfo { path: path.to_owned(), size, relative_path: get_relative_path(path, self.project_root.as_str()) }
    }

    /// The `limit` most recently modified files, newest first; files with
    /// the same time keep their order. Each file comes with its
    /// modification time.
    pub fn most_recent(files: Vec<(i64, FileInfo)>, limit: usize) -> (r: Vec<FileInfo>)
        ensures
            r@ == (if limit <= files@.len() {
                items_of(sort_by_score(files@)).take(limit as int)
            } else {
                items_of(sort_by_score(files@))
            }),
    {
        proof {
            lemma_sort_permutes(files@);
        }
        let sorted = sort_by_score_desc(files);
        let mut items = strip_scores(sorted);
        items.truncate(limit);
        items
    }
}

} // verus!
