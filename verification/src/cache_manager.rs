//! A least-recently-used cache of per-file analysis results, bounded in
//! memory and in number of entries.

use vstd::prelude::*;
use crate::types::SymbolType;
use crate::text::str_eq;
use std::hash::{Hash, Hasher};

verus! {

/// Default memory bound in megabytes.
pub const DEFAULT_MAX_MEMORY_MB: usize = 100;
/// Default bound on the number of entries.
pub const DEFAULT_MAX_ENTRIES: usize = 1000;

/// A symbol remembered for a cached file.
#[derive(Debug, Clone)]
pub struct CachedSymbol {
    pub name: String,
    pub symbol_type: SymbolType,
    pub line: u32,
    pub column: u32,
}

/// What is remembered about a file.
#[derive(Debug, Clone)]
pub struct CachedFileInfo {
    pub path: String,
    pub hash: u64,
    /// Modification time when the file was analysed (nanoseconds since the epoch).
    pub modified_time: u64,
    pub content: Option<String>,
    pub symbols: Vec<CachedSymbol>,
    /// Time of the analysis (nanoseconds since the epoch).
    pub last_accessed: u64,
}

/// A cache entry with its estimated memory footprint.
#[derive(Debug, Clone)]
pub struct CacheEntry {
    pub file_info: CachedFileInfo,
    pub memory_size: usize,
}

/// The memory footprint of a sequence of entries.
pub open spec fn total_size(s: Seq<(String, CacheEntry)>) -> nat
    decreases s.len(),
{
    if s.len() == 0 {
        0
    } else {
        total_size(s.drop_last()) + s.last().1.memory_size as nat
    }
}

/// The position of the entry for `p`, if any.
pub open spec fn key_index(s: Seq<(String, CacheEntry)>, p: Seq<char>) -> Option<int> {
    if exists|i: int| 0 <= i < s.len() && s[i].0@ == p {
        Some(choose|i: int| 0 <= i < s.len() && s[i].0@ == p)
    } else {
        None
    }
}

/// The entries without the one for `p`.
pub open spec fn without_key(s: Seq<(String, CacheEntry)>, p: Seq<char>) -> Seq<(String, CacheEntry)> {
    match key_index(s, p) {
        Some(i) => s.remove(i),
        None => s,
    }
}

/// Drops least recently used entries until the memory bound holds (or
/// nothing is left).
pub open spec fn evict_for_memory(s: Seq<(String, CacheEntry)>, max_bytes: nat) -> Seq<(String, CacheEntry)>
    decreases s.len(),
{
    if total_size(s) > max_bytes && s.len() > 0 {
        evict_for_memory(s.drop_first(), max_bytes)
    } else {
        s
    }
}

/// Drops least recently used entries beyond the entry bound.
pub open spec fn evict_for_count(s: Seq<(String, CacheEntry)>, max_entries: nat) -> Seq<(String, CacheEntry)> {
    if s.len() > max_entries {
        s.skip(s.len() - max_entries)
    } else {
        s
    }
}

/// The entries after both bounds are enforced, memory first.
pub open spec fn enforce(s: Seq<(String, CacheEntry)>, max_bytes: nat, max_entries: nat) -> Seq<(String, CacheEntry)> {
    evict_for_count(evict_for_memory(s, max_bytes), max_entries)
}

/// Whether no file has two entries.
pub open spec fn distinct_keys(s: Seq<(String, CacheEntry)>) -> bool {
    forall|i: int, j: int| 0 <= i < j < s.len() ==> s[i].0@ != s[j].0@
}

proof fn lemma_key_index_at(s: Seq<(String, CacheEntry)>, i: int, p: Seq<char>)
    requires
        distinct_keys(s),
        0 <= i < s.len(),
        s[i].0@ == p,
    ensures
        key_index(s, p) == Some(i),
{
    let j = choose|j: int| 0 <= j < s.len() && s[j].0@ == p;
    assert(j == i);
}

proof fn lemma_total_remove(s: Seq<(String, CacheEntry)>, i: int)
    requires
        0 <= i < s.len(),
    ensures
        total_size(s.remove(i)) + s[i].1.memory_size == total_size(s),
    decreases s.len(),
{
    if i == s.len() - 1 {
        assert(s.remove(i) =~= s.drop_last());
    } else {
        lemma_total_remove(s.drop_last(), i);
        assert(s.remove(i).drop_last() =~= s.drop_last().remove(i));
    }
}

proof fn lemma_total_drop_first(s: Seq<(String, CacheEntry)>)
    requires
        s.len() > 0,
    ensures
        total_size(s.drop_first()) + s[0].1.memory_size == total_size(s),
{
    lemma_total_remove(s, 0);
    assert(s.remove(0) =~= s.drop_first());
}

proof fn lemma_distinct_remove(s: Seq<(String, CacheEntry)>, i: int)
    requires
        distinct_keys(s),
        0 <= i < s.len(),
    ensures
        distinct_keys(s.remove(i)),
        forall|k: int| 0 <= k < s.remove(i).len() ==> s.remove(i)[k].0@ != s[i].0@,
{
    let t = s.remove(i);
    assert forall|a: int, b: int| 0 <= a < b < t.len() implies t[a].0@ != t[b].0@ by {
        let a2 = if a < i { a } else { a + 1 };
        let b2 = if b < i { b } else { b + 1 };
        assert(t[a] == s[a2] && t[b] == s[b2]);
    }
    assert forall|k: int| 0 <= k < t.len() implies t[k].0@ != s[i].0@ by {
        let k2 = if k < i { k } else { k + 1 };
        assert(t[k] == s[k2]);
    }
}

/// An entry made from content read from the file at `path`: the path, the
/// content's hash, the modification time, the content, no symbols yet, the
/// time of the read and the estimated memory size.
pub open spec fn is_content_entry(
    e: CacheEntry,
    path: Seq<char>,
    content: Seq<char>,
    modified_time: u64,
    last_accessed: u64,
    memory_size: usize,
) -> bool {
    &&& e.file_info.path@ == path
    &&& e.file_info.hash == text_hash_of(content)
    &&& e.file_info.modified_time == modified_time
    &&& e.file_info.content matches Some(c) && c@ == content
    &&& e.file_info.symbols@.len() == 0
    &&& e.file_info.last_accessed == last_accessed
    &&& e.memory_size == memory_size
}

/// The entry for `p`, if any.
pub open spec fn entry_of(s: Seq<(String, CacheEntry)>, p: Seq<char>) -> Option<CacheEntry> {
    match key_index(s, p) {
        Some(i) => Some(s[i].1),
        None => None,
    }
}

proof fn lemma_key_index_none(s: Seq<(String, CacheEntry)>, p: Seq<char>)
    requires
        forall|k: int| 0 <= k < s.len() ==> s[k].0@ != p,
    ensures
        key_index(s, p) is None,
{
}

proof fn lemma_entry_of_remove(s: Seq<(String, CacheEntry)>, i: int)
    requires
        distinct_keys(s),
        0 <= i < s.len(),
    ensures
        entry_of(s.remove(i), s[i].0@) is None,
        forall|q: Seq<char>| q != s[i].0@ ==> #[trigger] entry_of(s.remove(i), q) == entry_of(s, q),
{
    let t = s.remove(i);
    lemma_distinct_remove(s, i);
    lemma_key_index_none(t, s[i].0@);
    assert forall|q: Seq<char>| q != s[i].0@ implies #[trigger] entry_of(t, q) == entry_of(s, q) by {
        if exists|j: int| 0 <= j < s.len() && s[j].0@ == q {
            let j = choose|j: int| 0 <= j < s.len() && s[j].0@ == q;
            lemma_key_index_at(s, j, q);
            let j2 = if j < i { j } else { j - 1 };
            assert(t[j2] == s[j]);
            lemma_key_index_at(t, j2, q);
        } else {
            assert forall|k: int| 0 <= k < t.len() implies t[k].0@ != q by {
                let k2 = if k < i { k } else { k + 1 };
                assert(t[k] == s[k2]);
            }
            lemma_key_index_none(t, q);
        }
    }
}

proof fn lemma_total_move(s: Seq<(String, CacheEntry)>, i: int)
    requires
        0 <= i < s.len(),
    ensures
        total_size(s.remove(i).push(s[i])) == total_size(s),
        s.remove(i).push(s[i]).len() == s.len(),
{
    lemma_total_remove(s, i);
    assert(s.remove(i).push(s[i]).drop_last() =~= s.remove(i));
}

proof fn lemma_total_skip(s: Seq<(String, CacheEntry)>, k: int)
    requires
        0 <= k <= s.len(),
    ensures
        total_size(s.skip(k)) <= total_size(s),
    decreases k,
{
    if k > 0 {
        lemma_total_drop_first(s);
        lemma_total_skip(s.drop_first(), k - 1);
        assert(s.drop_first().skip(k - 1) =~= s.skip(k));
    } else {
        assert(s.skip(0) =~= s);
    }
}

proof fn lemma_evict_for_memory(s: Seq<(String, CacheEntry)>, max_bytes: nat)
    ensures
        total_size(evict_for_memory(s, max_bytes)) <= max_bytes,
        evict_for_memory(s, max_bytes).len() <= s.len(),
        evict_for_memory(s, max_bytes) == s.skip(s.len() - evict_for_memory(s, max_bytes).len()),
        s.len() > 0 && s.last().1.memory_size <= max_bytes ==> evict_for_memory(s, max_bytes).len() > 0,
    decreases s.len(),
{
    if total_size(s) > max_bytes && s.len() > 0 {
        lemma_evict_for_memory(s.drop_first(), max_bytes);
        let r = evict_for_memory(s.drop_first(), max_bytes);
        assert(s.drop_first().skip(s.drop_first().len() - r.len()) =~= s.skip(s.len() - r.len()));
        if s.len() == 1 && s.last().1.memory_size <= max_bytes {
            assert(s.drop_last() =~= Seq::<(String, CacheEntry)>::empty());
            assert(total_size(s.drop_last()) == 0);
            assert(total_size(s) == s.last().1.memory_size);
        }
        if s.len() > 1 {
            assert(s.drop_first().last() == s.last());
        }
    } else {
        assert(s.skip(0) =~= s);
        if s.len() == 0 {
        }
    }
}

/// The bounds of the cache: after they are enforced at most `max_entries`
/// entries of at most `max_bytes` bytes in all remain, and they are the
/// most recently used ones, in order; the newest entry remains whenever it
/// fits alone.
pub proof fn lemma_enforce_bounds(s: Seq<(String, CacheEntry)>, max_bytes: nat, max_entries: nat)
    ensures
        enforce(s, max_bytes, max_entries).len() <= max_entries,
        enforce(s, max_bytes, max_entries).len() <= s.len(),
        total_size(enforce(s, max_bytes, max_entries)) <= max_bytes,
        enforce(s, max_bytes, max_entries) == s.skip(s.len() - enforce(s, max_bytes, max_entries).len()),
        s.len() > 0 && s.last().1.memory_size <= max_bytes && max_entries >= 1 ==> {
            &&& enforce(s, max_bytes, max_entries).len() > 0
            &&& enforce(s, max_bytes, max_entries).last() == s.last()
        },
{
    lemma_evict_for_memory(s, max_bytes);
    let m = evict_for_memory(s, max_bytes);
    let r = enforce(s, max_bytes, max_entries);
    if m.len() > max_entries {
        let k = m.len() - max_entries;
        lemma_total_skip(m, k);
        assert(m.skip(k) =~= s.skip(s.len() - max_entries));
    }
    if s.len() > 0 && s.last().1.memory_size <= max_bytes && max_entries >= 1 {
        assert(m.last() == s.last());
        assert(r.last() == m.last());
    }
}

proof fn lemma_distinct_skip(s: Seq<(String, CacheEntry)>, n: int)
    requires
        distinct_keys(s),
        0 <= n <= s.len(),
    ensures
        distinct_keys(s.skip(n)),
{
    let t = s.skip(n);
    assert forall|a: int, b: int| 0 <= a < b < t.len() implies t[a].0@ != t[b].0@ by {
        assert(t[a] == s[a + n] && t[b] == s[b + n]);
    }
}

/// What is cached is read back: after an entry for a file is stored (the
/// contents that [`CacheManager::add_to_cache`] leaves), that entry is the
/// cache's entry for the file, the most recently used one, whenever it
/// fits within the bounds on its own.
pub proof fn lemma_read_after_add(
    s: Seq<(String, CacheEntry)>,
    path: String,
    entry: CacheEntry,
    max_bytes: nat,
    max_entries: nat,
)
    requires
        distinct_keys(s),
        entry.memory_size <= max_bytes,
        max_entries >= 1,
    ensures
        ({
            let t = enforce(without_key(s, path@).push((path, entry)), max_bytes, max_entries);
            &&& t.len() > 0
            &&& key_index(t, path@) == Some(t.len() - 1)
            &&& t[t.len() - 1] == (path, entry)
        }),
{
    let w = without_key(s, path@);
    match key_index(s, path@) {
        Some(i) => {
            lemma_distinct_remove(s, i);
        },
        None => {},
    }
    assert(distinct_keys(w));
    assert forall|k: int| 0 <= k < w.len() implies w[k].0@ != path@ by {
        if key_index(s, path@) is None {
            assert(w[k] == s[k]);
        }
    }
    let u = w.push((path, entry));
    assert forall|a: int, b: int| 0 <= a < b < u.len() implies u[a].0@ != u[b].0@ by {
        assert(u[a] == w[a]);
        if b < w.len() {
            assert(u[b] == w[b]);
        }
    }
    lemma_enforce_bounds(u, max_bytes, max_entries);
    let t = enforce(u, max_bytes, max_entries);
    lemma_distinct_skip(u, u.len() - t.len());
    lemma_key_index_at(t, t.len() - 1, path@);
}

/// What std's `DefaultHasher` (as made by `DefaultHasher::new`) gives
/// after hashing a text with `Hash::hash` and `Hasher::finish`.
pub uninterp spec fn text_hash_of(content: Seq<char>) -> u64;

/// Hashes a text with a fresh `DefaultHasher` (`DefaultHasher::new`,
/// `str::hash`, `Hasher::finish`). Claimed: the result is
/// [`text_hash_of`] of the text; std makes every `DefaultHasher::new` start
/// from the same keys.
#[verifier::external_body]
fn hash_text(content: &str) -> (h: u64)
    ensures
        h == text_hash_of(content@),
{
    let mut hasher = std::collections::hash_map::DefaultHasher::new();
    content.hash(&mut hasher);
    hasher.finish()
}

/// A least-recently-used cache of analysed files.
pub struct CacheManager {
    /// Entries ordered from least to most recently used.
    entries: Vec<(String, CacheEntry)>,
    max_memory_bytes: usize,
    max_entries: usize,
    current_memory_bytes: usize,
}

impl CacheManager {
    /// The entries, least recently used first.
    pub closed spec fn contents(&self) -> Seq<(String, CacheEntry)> {
        self.entries@
    }

    /// The memory bound in bytes.
    pub closed spec fn max_bytes(&self) -> nat {
        self.max_memory_bytes as nat
    }

    /// The bound on the number of entries.
    pub closed spec fn max_count(&self) -> nat {
        self.max_entries as nat
    }

    /// The cache's invariant: one entry per file, and the tracked memory use
    /// is the sum of the entries' sizes.
    pub closed spec fn well_formed(&self) -> bool {
        &&& distinct_keys(self.entries@)
        &&& self.current_memory_bytes as nat == total_size(self.entries@)
    }

    /// The memory in use: the sum of the entries' sizes.
    pub open spec fn memory_used(&self) -> nat {
        total_size(self.contents())
    }

    /// The bounds hold: at most `max_count` entries of at most `max_bytes`
    /// bytes in all.
    pub open spec fn within_bounds(&self) -> bool {
        &&& self.contents().len() <= self.max_count()
        &&& self.memory_used() <= self.max_bytes()
    }

    /// What the invariant gives a caller: no file has two entries (the
    /// entries are the cached files, least recently used first, each once),
    /// and the memory in use is the sum of their sizes (see
    /// [`CacheManager::memory_usage_bytes`]).
    pub proof fn lemma_cache_invariant(&self)
        requires
            self.well_formed(),
        ensures
            distinct_keys(self.contents()),
    {
    }

    /// An empty cache with the default bounds (100 MB, 1000 entries).
    pub fn new() -> (c: CacheManager)
        ensures
            c.well_formed(),
            c.contents().len() == 0,
            c.max_bytes() == 100 * 1024 * 1024,
            c.max_count() == 1000,
            c.within_bounds(),
    {
        Self::with_limits(DEFAULT_MAX_MEMORY_MB, DEFAULT_MAX_ENTRIES)
    }

    /// An empty cache with the given bounds.
    pub fn with_limits(max_memory_mb: usize, max_entries: usize) -> (c: CacheManager)
        requires
            max_memory_mb * 1024 * 1024 <= usize::MAX,
        ensures
            c.well_formed(),
            c.contents().len() == 0,
            c.max_bytes() == max_memory_mb * 1024 * 1024,
            c.max_count() == max_entries,
            c.within_bounds(),
    {
        CacheManager {
            entries: Vec::new(),
            max_memory_bytes: max_memory_mb * 1024 * 1024,
            max_entries,
            current_memory_bytes: 0,
        }
    }

    fn find(&self, path: &str) -> (r: Option<usize>)
        requires
            self.well_formed(),
        ensures
            match r {
                Some(i) => i < self.contents().len() && key_index(self.contents(), path@) == Some(i as int),
                None => key_index(self.contents(), path@) is None,
            },
    {
        let mut i: usize = 0;
        while i < self.entries.len()
            invariant
                i <= self.entries@.len(),
                distinct_keys(self.entries@),
                forall|k: int| 0 <= k < i ==> self.entries@[k].0@ != path@,
            decreases self.entries@.len() - i,
        {
            if str_eq(self.entries[i].0.as_str(), path) {
                proof { lemma_key_index_at(self.entries@, i as int, path@); }
                return Some(i);
            }
            i = i + 1;
        }
        None
    }

    /// Whether a file has an entry.
    pub fn is_cached(&self, path: &str) -> (b: bool)
        requires
            self.well_formed(),
        ensures
            b == (key_index(self.contents(), path@) is Some),
    {
        self.find(path).is_some()
    }

    /// The number of entries.
    pub fn len(&self) -> (n: usize)
        ensures
            n == self.contents().len(),
    {
        self.entries.len()
    }

    /// The memory in use, in bytes.
    pub fn memory_usage_bytes(&self) -> (n: usize)
        requires
            self.well_formed(),
        ensures
            n == self.memory_used(),
    {
        self.current_memory_bytes
    }

    /// Entry count, memory use and memory bound, the last two in whole
    /// megabytes.
    pub fn usage(&self) -> (r: (usize, usize, usize))
        requires
            self.well_formed(),
        ensures
            r.0 == self.contents().len(),
            r.1 == self.memory_used() / (1024 * 1024),
            r.2 == self.max_bytes() / (1024 * 1024),
    {
        (self.entries.len(), self.current_memory_bytes / (1024 * 1024), self.max_memory_bytes / (1024 * 1024))
    }

    /// Drops the entry of a file, if there is one.
    pub fn invalidate_file(&mut self, path: &str)
        requires
            old(self).well_formed(),
        ensures
            final(self).well_formed(),
            final(self).contents() == without_key(old(self).contents(), path@),
            entry_of(final(self).contents(), path@) is None,
            forall|q: Seq<char>| q != path@ ==> #[trigger] entry_of(final(self).contents(), q) == entry_of(old(self).contents(), q),
            final(self).memory_used() + (match entry_of(old(self).contents(), path@) {
                Some(e) => e.memory_size as nat,
                None => 0,
            }) == old(self).memory_used(),
            final(self).max_bytes() == old(self).max_bytes(),
            final(self).max_count() == old(self).max_count(),
            old(self).within_bounds() ==> final(self).within_bounds(),
    {
        match self.find(path) {
            Some(i) => {
                let ghost s = self.entries@;
                let (_, e) = self.entries.remove(i);
                proof {
                    lemma_total_remove(s, i as int);
                    lemma_distinct_remove(s, i as int);
                    lemma_key_index_at(s, i as int, path@);
                    lemma_entry_of_remove(s, i as int);
                }
                self.current_memory_bytes = self.current_memory_bytes - e.memory_size;
            },
            None => {},
        }
    }

    /// The hash recorded for a file's content.
    pub fn calculate_file_hash(&self, content: &str) -> (h: u64)
        ensures
            h == text_hash_of(content@),
    {
        hash_text(content)
    }

    /// Drops every entry.
    pub fn clear(&mut self)
        ensures
            final(self).well_formed(),
            final(self).contents().len() == 0,
            final(self).max_bytes() == old(self).max_bytes(),
            final(self).max_count() == old(self).max_count(),
            final(self).within_bounds(),
    {
        self.entries = Vec::new();
        self.current_memory_bytes = 0;
    }

    /// Makes the entry at `i` the most recently used.
    fn touch(&mut self, i: usize)
        requires
            old(self).well_formed(),
            i < old(self).contents().len(),
        ensures
            final(self).well_formed(),
            final(self).contents() == old(self).contents().remove(i as int).push(old(self).contents()[i as int]),
            final(self).max_bytes() == old(self).max_bytes(),
            final(self).max_count() == old(self).max_count(),
            old(self).within_bounds() ==> final(self).within_bounds(),
    {
        let ghost s = self.entries@;
        let e = self.entries.remove(i);
        self.entries.push(e);
        proof {
            lemma_total_move(s, i as int);
            lemma_distinct_remove(s, i as int);
            lemma_total_remove(s, i as int);
            let t = self.entries@;
            assert(t.drop_last() =~= s.remove(i as int));
            assert forall|a: int, b: int| 0 <= a < b < t.len() implies t[a].0@ != t[b].0@ by {
                if b == t.len() - 1 {
                    assert(t[a] == s.remove(i as int)[a]);
                } else {
                    assert(t[a] == s.remove(i as int)[a] && t[b] == s.remove(i as int)[b]);
                }
            }
        }
    }

    /// Drops least recently used entries until the memory bound and then
    /// the entry bound hold.
    fn enforce_limits(&mut self)
        requires
            old(self).well_formed(),
        ensures
            final(self).well_formed(),
            final(self).contents() == enforce(old(self).contents(), old(self).max_bytes(), old(self).max_count()),
            final(self).max_bytes() == old(self).max_bytes(),
            final(self).max_count() == old(self).max_count(),
    {
        let ghost s0 = self.entries@;
        while self.current_memory_bytes > self.max_memory_bytes && self.entries.len() > 0
            invariant
                self.well_formed(),
                evict_for_memory(self.entries@, self.max_memory_bytes as nat) == evict_for_memory(s0, self.max_memory_bytes as nat),
                self.max_memory_bytes == old(self).max_memory_bytes,
                self.max_entries == old(self).max_entries,
            decreases self.entries@.len(),
        {
            let ghost s = self.entries@;
            let (_, e) = self.entries.remove(0);
            proof {
                lemma_total_drop_first(s);
                lemma_distinct_remove(s, 0);
                assert(s.remove(0) =~= s.drop_first());
            }
            self.current_memory_bytes = self.current_memory_bytes - e.memory_size;
        }
        let ghost s1 = self.entries@;
        assert(evict_for_memory(s1, self.max_memory_bytes as nat) == s1);
        let n = self.entries.len();
        if n > self.max_entries {
            let k = n - self.max_entries;
            let mut j: usize = 0;
            while j < k
                invariant
                    j <= k,
                    k == s1.len() - self.max_entries,
                    self.well_formed(),
                    self.entries@ == s1.skip(j as int),
                    self.max_memory_bytes == old(self).max_memory_bytes,
                    self.max_entries == old(self).max_entries,
                decreases k - j,
            {
                let ghost s = self.entries@;
                let (_, e) = self.entries.remove(0);
                proof {
                    lemma_total_drop_first(s);
                    lemma_distinct_remove(s, 0);
                    assert(s.remove(0) =~= s.drop_first());
                    assert(s1.skip(j + 1) =~= s.drop_first());
                }
                self.current_memory_bytes = self.current_memory_bytes - e.memory_size;
                j = j + 1;
            }
        } else {
            assert(s1.skip(0) =~= s1);
        }
    }

    /// Stores the content read from a file, with the file's modification
    /// time, the time of the read and the entry's estimated memory size: an
    /// entry holding the content, its hash and no symbols yet is added as
    /// [`CacheManager::add_to_cache`] adds it. When the entry fits within the
    /// bounds on its own, it is then the file's entry.
    pub fn cache_file_with_content(
        &mut self,
        path: String,
        content: String,
        modified_time: u64,
        last_accessed: u64,
        memory_size: usize,
    )
        requires
            old(self).well_formed(),
            old(self).memory_used() + memory_size <= usize::MAX,
        ensures
            final(self).well_formed(),
            final(self).within_bounds(),
            final(self).max_bytes() == old(self).max_bytes(),
            final(self).max_count() == old(self).max_count(),
            exists|e: CacheEntry|
                #[trigger] is_content_entry(e, path@, content@, modified_time, last_accessed, memory_size)
                    && final(self).contents() == enforce(
                    without_key(old(self).contents(), path@).push((path, e)),
                    old(self).max_bytes(),
                    old(self).max_count(),
                ),
            memory_size <= old(self).max_bytes() && old(self).max_count() >= 1 ==> (entry_of(final(self).contents(), path@) matches Some(e)
                && is_content_entry(e, path@, content@, modified_time, last_accessed, memory_size)),
    {
        let hash = self.calculate_file_hash(content.as_str());
        let entry = CacheEntry {
            file_info: CachedFileInfo {
                path: path.clone(),
                hash,
                modified_time,
                content: Some(content),
                symbols: Vec::new(),
                last_accessed,
            },
            memory_size,
        };
        let ghost e = entry;
        let ghost s = self.entries@;
        proof {
            self.lemma_cache_invariant();
            if memory_size <= self.max_bytes() && self.max_count() >= 1 {
                lemma_read_after_add(s, path, e, self.max_bytes(), self.max_count());
            }
        }
        self.add_to_cache(path, entry);
        assert(is_content_entry(e, path@, content@, modified_time, last_accessed, memory_size));
    }

    /// Stores an entry for a file as the most recently used, replacing an
    /// older entry of the same file, then enforces the bounds.
    pub fn add_to_cache(&mut self, path: String, entry: CacheEntry)
        requires
            old(self).well_formed(),
            old(self).memory_used() + entry.memory_size <= usize::MAX,
        ensures
            final(self).well_formed(),
            final(self).contents() == enforce(
                without_key(old(self).contents(), path@).push((path, entry)),
                old(self).max_bytes(),
                old(self).max_count(),
            ),
            final(self).max_bytes() == old(self).max_bytes(),
            final(self).max_count() == old(self).max_count(),
            final(self).within_bounds(),
    {
        let ghost p = path@;
        match self.find(path.as_str()) {
            Some(i) => {
                let ghost s = self.entries@;
                let (_, old_entry) = self.entries.remove(i);
                proof {
                    lemma_total_remove(s, i as int);
                    lemma_distinct_remove(s, i as int);
                }
                self.current_memory_bytes = self.current_memory_bytes - old_entry.memory_size;
            },
            None => {},
        }
        let ghost before = self.entries@;
        assert(before == without_key(old(self).contents(), p));
        assert forall|k: int| 0 <= k < before.len() implies before[k].0@ != p by {
            if key_index(old(self).contents(), p) is None {
                assert(before[k] == old(self).contents()[k]);
            }
        }
        self.current_memory_bytes = self.current_memory_bytes + entry.memory_size;
        self.entries.push((path, entry));
        proof {
            let t = self.entries@;
            assert(t.drop_last() =~= before);
            assert forall|a: int, b: int| 0 <= a < b < t.len() implies t[a].0@ != t[b].0@ by {
                if b == t.len() - 1 {
                    assert(t[a] == before[a]);
                } else {
                    assert(t[a] == before[a] && t[b] == before[b]);
                }
            }
        }
        let ghost pushed = self.entries@;
        self.enforce_limits();
        proof {
            lemma_enforce_bounds(pushed, self.max_bytes(), self.max_count());
        }
    }

    /// The symbols cached for a file, given the file's current modification
    /// time. Without an entry nothing changes. An entry older than the file
    /// is dropped. Otherwise the entry becomes the most recently used and its
    /// symbols are returned.
    pub fn get_symbols(&mut self, path: &str, current_modified: u64) -> (r: Option<Vec<CachedSymbol>>)
        requires
            old(self).well_formed(),
        ensures
            final(self).well_formed(),
            old(self).within_bounds() ==> final(self).within_bounds(),
            final(self).max_bytes() == old(self).max_bytes(),
            final(self).max_count() == old(self).max_count(),
            match key_index(old(self).contents(), path@) {
                None => r is None && final(self).contents() == old(self).contents(),
                Some(i) => if current_modified > old(self).contents()[i].1.file_info.modified_time {
                    r is None && final(self).contents() == old(self).contents().remove(i)
                } else {
                    &&& r matches Some(v) && v@ == old(self).contents()[i].1.file_info.symbols@
                    &&& final(self).contents() == old(self).contents().remove(i).push(old(self).contents()[i])
                },
            },
    {
        match self.find(path) {
            None => None,
            Some(i) => {
                if current_modified > self.entries[i].1.file_info.modified_time {
                    let ghost s = self.entries@;
                    let (_, e) = self.entries.remove(i);
                    proof {
                        lemma_total_remove(s, i as int);
                        lemma_distinct_remove(s, i as int);
                    }
                    self.current_memory_bytes = self.current_memory_bytes - e.memory_size;
                    proof { lemma_total_remove(s, i as int); }
                    None
                } else {
                    let syms = copy_symbols(&self.entries[i].1.file_info.symbols);
                    self.touch(i);
                    Some(syms)
                }
            },
        }
    }

    /// The cache side of reading a file: the content cached for it, if its
    /// entry holds one; the entry then becomes the most recently used. On a
    /// miss nothing changes here: the caller reads the file and stores what
    /// it read with [`CacheManager::cache_file_with_content`], after which
    /// this serves the content.
    pub fn get_file_content(&mut self, path: &str) -> (r: Option<String>)
        requires
            old(self).well_formed(),
        ensures
            final(self).well_formed(),
            old(self).within_bounds() ==> final(self).within_bounds(),
            final(self).max_bytes() == old(self).max_bytes(),
            final(self).max_count() == old(self).max_count(),
            match key_index(old(self).contents(), path@) {
                Some(i) if old(self).contents()[i].1.file_info.content is Some => {
                    &&& r matches Some(c) && c@ == old(self).contents()[i].1.file_info.content.unwrap()@
                    &&& final(self).contents() == old(self).contents().remove(i).push(old(self).contents()[i])
                },
                _ => r is None && final(self).contents() == old(self).contents(),
            },
    {
        match self.find(path) {
            None => None,
            Some(i) => {
                match &self.entries[i].1.file_info.content {
                    Some(c) => {
                        let content = c.clone();
                        self.touch(i);
                        Some(content)
                    },
                    None => None,
                }
            },
        }
    }
}

/// A copy of a list of cached symbols.
pub fn copy_symbols(v: &Vec<CachedSymbol>) -> (r: Vec<CachedSymbol>)
    ensures
        r@ == v@,
{
    let mut r: Vec<CachedSymbol> = Vec::new();
    let mut i: usize = 0;
    while i < v.len()
        invariant
            i <= v@.len(),
            r@ == v@.subrange(0, i as int),
        decreases v@.len() - i,
    {
        let s = &v[i];
        r.push(CachedSymbol { name: s.name.clone(), symbol_type: s.symbol_type, line: s.line, column: s.column });
        assert(r@ =~= v@.subrange(0, i + 1));
        i = i + 1;
    }
    assert(v@.subrange(0, v@.len() as int) =~= v@);
    r
}

} // verus!
