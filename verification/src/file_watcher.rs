//! Decisions of the file watcher: which file system events become watch
//! events, which files are watched, the debouncing of rapid changes, and
//! what a watch event asks of the indexer.

use vstd::prelude::*;
use crate::pathutil::{path_starts_with_of, path_starts_with, glob_match_of, glob_match};
use crate::filters::matches_any;
use crate::display::utils::sat_sub;
use crate::text::str_eq;

verus! {

/// What happened to a file.
#[derive(Debug, Clone)]
pub enum WatchEventKind {
    Created,
    Modified,
    Deleted,
    Renamed { from: String, to: String },
}

/// A change seen by the watcher.
#[derive(Debug)]
pub enum WatchEvent {
    FileChanged { path: String, event_kind: WatchEventKind },
    BatchUpdate { events: Vec<WatchEvent> },
}

/// The kind of a file system event as the operating system reports it.
#[derive(Debug, Clone, Copy, PartialEq, Eq, Structural)]
pub enum FsEventKind {
    Create,
    Modify,
    Remove,
    Other,
}

/// The watch event of a file system event: the change of its first path,
/// when that path lies in the watched directory and the event creates,
/// modifies or removes something.
pub open spec fn watch_event_spec(kind: FsEventKind, paths: Seq<String>, watch_path: Seq<char>) -> Option<(Seq<char>, WatchEventKind)> {
    if paths.len() == 0 || !path_starts_with_of(paths[0]@, watch_path) {
        None
    } else {
        match kind {
            FsEventKind::Create => Some((paths[0]@, WatchEventKind::Created)),
            FsEventKind::Modify => Some((paths[0]@, WatchEventKind::Modified)),
            FsEventKind::Remove => Some((paths[0]@, WatchEventKind::Deleted)),
            FsEventKind::Other => None,
        }
    }
}

/// The watch event of a file system event (see [`watch_event_spec`]).
pub fn convert_notify_event(kind: FsEventKind, paths: &Vec<String>, watch_path: &str) -> (r: Option<WatchEvent>)
    ensures
        match watch_event_spec(kind, paths@, watch_path@) {
            None => r is None,
            Some((p, k)) => r matches Some(WatchEvent::FileChanged { path, event_kind }) && path == paths@[0]
                && path@ == p && event_kind == k,
        },
{
    if paths.len() == 0 {
        return None;
    }
    if !path_starts_with(paths[0].as_str(), watch_path) {
        return None;
    }
    let event_kind = match kind {
        FsEventKind::Create => WatchEventKind::Created,
        FsEventKind::Modify => WatchEventKind::Modified,
        FsEventKind::Remove => WatchEventKind::Deleted,
        FsEventKind::Other => return None,
    };
    Some(WatchEvent::FileChanged { path: paths[0].clone(), event_kind })
}

/// Whether a changed file is watched: it is no directory and matches one
/// of the patterns (every file when there are none).
pub fn should_index_file(path: &str, is_dir: bool, patterns: &Vec<String>) -> (r: bool)
    ensures
        r == (!is_dir && matches_any(patterns@, path@)),
{
    if is_dir {
        return false;
    }
    if patterns.len() == 0 {
        return true;
    }
    let mut i: usize = 0;
    while i < patterns.len()
        invariant
            !is_dir,
            i <= patterns@.len(),
            forall|k: int| 0 <= k < i ==> glob_match_of(#[trigger] patterns@[k]@, path@) != Some(true),
        decreases patterns@.len() - i,
    {
        if glob_match(patterns[i].as_str(), path) == Some(true) {
            assert(glob_match_of(patterns@[i as int]@, path@) == Some(true));
            return true;
        }
        i = i + 1;
    }
    false
}

/// What a watch event asks of the indexer.
#[derive(Debug, Clone)]
pub enum UpdatePlan {
    /// Index the file and report it added.
    Added(String),
    /// Index the file again and report it modified.
    Modified(String),
    /// Report the file removed.
    Removed(String),
}

/// The plan of a watch event: a created file (or the new name of a
/// renamed one) is added, a modified one reindexed, a deleted one removed;
/// a batch goes by its first event.
pub open spec fn plan_of(e: WatchEvent) -> Option<UpdatePlan>
    decreases e,
{
    match e {
        WatchEvent::FileChanged { path, event_kind } => match event_kind {
            WatchEventKind::Created => Some(UpdatePlan::Added(path)),
            WatchEventKind::Modified => Some(UpdatePlan::Modified(path)),
            WatchEventKind::Deleted => Some(UpdatePlan::Removed(path)),
            WatchEventKind::Renamed { from, to } => Some(UpdatePlan::Added(to)),
        },
        WatchEvent::BatchUpdate { events } => {
            if events@.len() > 0 {
                proof {
                    assert(decreases_to!(events => events@[0]));
                }
                plan_of(events@[0])
            } else {
                None
            }
        },
    }
}

/// The plan of a watch event (see [`plan_of`]).
pub fn update_plan(event: WatchEvent) -> (r: Option<UpdatePlan>)
    ensures
        r == plan_of(event),
    decreases event,
{
    let ghost orig = event;
    match event {
        WatchEvent::FileChanged { path, event_kind } => match event_kind {
            WatchEventKind::Created => Some(UpdatePlan::Added(path)),
            WatchEventKind::Modified => Some(UpdatePlan::Modified(path)),
            WatchEventKind::Deleted => Some(UpdatePlan::Removed(path)),
            WatchEventKind::Renamed { from: _, to } => Some(UpdatePlan::Added(to)),
        },
        WatchEvent::BatchUpdate { events } => {
            let ghost all = events@;
            let mut events = events;
            if events.len() > 0 {
                let first = events.remove(0);
                proof {
                    assert(first == all[0]);
                    assert(decreases_to!(orig => orig->events@[0]));
                }
                update_plan(first)
            } else {
                None
            }
        },
    }
}

/// The path of a file change (empty for a batch).
pub open spec fn changed_path(e: WatchEvent) -> Seq<char> {
    match e {
        WatchEvent::FileChanged { path, event_kind } => path@,
        WatchEvent::BatchUpdate { events } => Seq::empty(),
    }
}

/// Pending changes: file changes with their times, no path twice.
pub open spec fn pending_ok(p: Seq<(WatchEvent, u64)>) -> bool {
    &&& forall|i: int| 0 <= i < p.len() ==> (#[trigger] p[i]).0 is FileChanged
    &&& forall|i: int, j: int|
        0 <= i < j < p.len() ==> changed_path((#[trigger] p[i]).0) != changed_path((#[trigger] p[j]).0)
}

/// A pending change is due once `d` milliseconds have passed since it came.
pub open spec fn is_due(entry: (WatchEvent, u64), now: u64, d: u64) -> bool {
    sat_sub(now as nat, entry.1 as nat) >= d
}

/// The due changes, in order.
pub open spec fn due_events(p: Seq<(WatchEvent, u64)>, now: u64, d: u64) -> Seq<WatchEvent>
    decreases p.len(),
{
    if p.len() == 0 {
        Seq::empty()
    } else if is_due(p.last(), now, d) {
        due_events(p.drop_last(), now, d).push(p.last().0)
    } else {
        due_events(p.drop_last(), now, d)
    }
}

/// The changes that are not due, in order.
pub open spec fn not_due(p: Seq<(WatchEvent, u64)>, now: u64, d: u64) -> Seq<(WatchEvent, u64)>
    decreases p.len(),
{
    if p.len() == 0 {
        Seq::empty()
    } else if is_due(p.last(), now, d) {
        not_due(p.drop_last(), now, d)
    } else {
        not_due(p.drop_last(), now, d).push(p.last())
    }
}

/// The index of the pending change of a path.
pub open spec fn index_of_change(p: Seq<(WatchEvent, u64)>, path: Seq<char>) -> Option<int>
    decreases p.len(),
{
    if p.len() == 0 {
        None
    } else if changed_path(p.last().0) == path {
        Some(p.len() - 1)
    } else {
        index_of_change(p.drop_last(), path)
    }
}

/// The pending changes with `e` recorded at `now`: it replaces the change
/// of its path, or is added at the end.
pub open spec fn record_change(p: Seq<(WatchEvent, u64)>, e: WatchEvent, now: u64) -> Seq<(WatchEvent, u64)> {
    match index_of_change(p, changed_path(e)) {
        Some(i) => p.update(i, (e, now)),
        None => p.push((e, now)),
    }
}

/// Holds back rapid changes of a file until no newer change of it has come
/// for a while. Times are milliseconds on a monotonic clock.
pub struct EventDebouncer {
    pending: Vec<(WatchEvent, u64)>,
    debounce_ms: u64,
}

proof fn lemma_not_due_ok(p: Seq<(WatchEvent, u64)>, now: u64, d: u64)
    requires
        pending_ok(p),
    ensures
        pending_ok(not_due(p, now, d)),
        forall|i: int| 0 <= i < not_due(p, now, d).len() ==> exists|j: int| 0 <= j < p.len()
            && #[trigger] not_due(p, now, d)[i] == p[j],
    decreases p.len(),
{
    if p.len() > 0 {
        let p0 = p.drop_last();
        assert(pending_ok(p0)) by {
            assert forall|i: int| 0 <= i < p0.len() implies (#[trigger] p0[i]).0 is FileChanged by {
                assert(p0[i] == p[i]);
            }
            assert forall|i: int, j: int| 0 <= i < j < p0.len() implies changed_path((#[trigger] p0[i]).0)
                != changed_path((#[trigger] p0[j]).0) by {
                assert(p0[i] == p[i] && p0[j] == p[j]);
            }
        }
        lemma_not_due_ok(p0, now, d);
        let q = not_due(p, now, d);
        let q0 = not_due(p0, now, d);
        assert forall|i: int| 0 <= i < q.len() implies exists|j: int| 0 <= j < p.len() && #[trigger] q[i] == p[j] by {
            if i < q0.len() {
                let j = choose|j: int| 0 <= j < p0.len() && q0[i] == p0[j];
                assert(q[i] == p[j]);
            } else {
                assert(q[i] == p[p.len() - 1]);
            }
        }
        if !is_due(p.last(), now, d) {
            assert forall|i: int, j: int| 0 <= i < j < q.len() implies changed_path((#[trigger] q[i]).0)
                != changed_path((#[trigger] q[j]).0) by {
                if j == q.len() - 1 {
                    let a = choose|a: int| 0 <= a < p0.len() && q0[i] == p0[a];
                    assert(q[i] == p[a]);
                    assert(q[j] == p[p.len() - 1]);
                } else {
                    assert(q[i] == q0[i] && q[j] == q0[j]);
                }
            }
            assert forall|i: int| 0 <= i < q.len() implies (#[trigger] q[i]).0 is FileChanged by {
                let a = choose|a: int| 0 <= a < p.len() && q[i] == p[a];
            }
        }
    }
}

proof fn lemma_index_of_change(p: Seq<(WatchEvent, u64)>, path: Seq<char>)
    ensures
        match index_of_change(p, path) {
            Some(i) => 0 <= i < p.len() && changed_path(p[i].0) == path,
            None => forall|i: int| 0 <= i < p.len() ==> changed_path((#[trigger] p[i]).0) != path,
        },
    decreases p.len(),
{
    if p.len() > 0 {
        lemma_index_of_change(p.drop_last(), path);
        if changed_path(p.last().0) != path {
            match index_of_change(p.drop_last(), path) {
                Some(i) => {
                    assert(p.drop_last()[i] == p[i]);
                },
                None => {
                    assert forall|i: int| 0 <= i < p.len() implies changed_path((#[trigger] p[i]).0) != path by {
                        if i < p.len() - 1 {
                            assert(p.drop_last()[i] == p[i]);
                        }
                    }
                },
            }
        }
    }
}

proof fn lemma_record_ok(p: Seq<(WatchEvent, u64)>, e: WatchEvent, now: u64)
    requires
        pending_ok(p),
        e is FileChanged,
    ensures
        pending_ok(record_change(p, e, now)),
{
    lemma_index_of_change(p, changed_path(e));
    let r = record_change(p, e, now);
    match index_of_change(p, changed_path(e)) {
        Some(k) => {
            assert forall|i: int, j: int| 0 <= i < j < r.len() implies changed_path((#[trigger] r[i]).0)
                != changed_path((#[trigger] r[j]).0) by {
                assert(p[i] == r[i] || i == k);
                assert(p[j] == r[j] || j == k);
            }
            assert forall|i: int| 0 <= i < r.len() implies (#[trigger] r[i]).0 is FileChanged by {
                assert(p[i] == r[i] || i == k);
            }
        },
        None => {
            assert forall|i: int, j: int| 0 <= i < j < r.len() implies changed_path((#[trigger] r[i]).0)
                != changed_path((#[trigger] r[j]).0) by {
                assert(r[i] == p[i]);
                if j < p.len() {
                    assert(r[j] == p[j]);
                }
            }
            assert forall|i: int| 0 <= i < r.len() implies (#[trigger] r[i]).0 is FileChanged by {
                if i < p.len() {
                    assert(r[i] == p[i]);
                }
            }
        },
    }
}

impl EventDebouncer {
    /// The pending changes with the times they came, oldest first.
    pub closed spec fn pending(&self) -> Seq<(WatchEvent, u64)> {
        self.pending@
    }

    /// How long a change is held back, in milliseconds.
    pub closed spec fn debounce(&self) -> u64 {
        self.debounce_ms
    }

    pub open spec fn well_formed(&self) -> bool {
        pending_ok(self.pending())
    }

    /// A debouncer holding changes back for `debounce_ms` milliseconds.
    pub fn new(debounce_ms: u64) -> (d: EventDebouncer)
        ensures
            d.pending().len() == 0,
            d.debounce() == debounce_ms,
            d.well_formed(),
    {
        EventDebouncer { pending: Vec::new(), debounce_ms }
    }

    /// Takes a change seen at `now`. A batch passes at once. A file change
    /// releases every pending change that is due and is then held back,
    /// replacing an older pending change of its file.
    pub fn add_event(&mut self, event: WatchEvent, now: u64) -> (ready: Vec<WatchEvent>)
        requires
            old(self).well_formed(),
        ensures
            final(self).well_formed(),
            final(self).debounce() == old(self).debounce(),
            event is BatchUpdate ==> ready@ == seq![event] && final(self).pending() == old(self).pending(),
            event is FileChanged ==> {
                &&& ready@ == due_events(old(self).pending(), now, old(self).debounce())
                &&& final(self).pending() == record_change(
                    not_due(old(self).pending(), now, old(self).debounce()),
                    event,
                    now,
                )
            },
    {
        if let WatchEvent::BatchUpdate { events: _ } = &event {
            let mut ready: Vec<WatchEvent> = Vec::new();
            ready.push(event);
            return ready;
        }
        let d = self.debounce_ms;
        let ghost orig = self.pending@;
        let n = self.pending.len();
        let mut rest: Vec<(WatchEvent, u64)> = Vec::new();
        std::mem::swap(&mut rest, &mut self.pending);
        let mut rev: Vec<(WatchEvent, u64)> = Vec::new();
        while rest.len() > 0
            invariant
                rest@ + rev@.reverse() == orig,
            decreases rest@.len(),
        {
            let x = rest.pop().unwrap();
            rev.push(x);
            assert(rest@ + rev@.reverse() =~= orig);
        }
        assert(rev@.reverse() =~= orig);
        let mut ready: Vec<WatchEvent> = Vec::new();
        let mut kept: Vec<(WatchEvent, u64)> = Vec::new();
        while rev.len() > 0
            invariant
                n == orig.len(),
                rev@.len() <= n,
                rev@.reverse() == orig.subrange(n - rev@.len(), n as int),
                ready@ == due_events(orig.subrange(0, n - rev@.len()), now, d),
                kept@ == not_due(orig.subrange(0, n - rev@.len()), now, d),
            decreases rev@.len(),
        {
            let ghost k = n - rev@.len();
            let ghost before = rev@;
            let (e, t) = rev.pop().unwrap();
            assert(before.reverse()[0] == before.last());
            assert((e, t) == orig[k]);
            assert(rev@ == before.drop_last());
            assert(rev@.reverse() =~= before.reverse().subrange(1, before.len() as int));
            assert(rev@.reverse() =~= orig.subrange(k + 1, n as int));
            assert(orig.subrange(0, k + 1).drop_last() =~= orig.subrange(0, k));
            if now >= t && now - t >= d || now < t && 0 >= d {
                ready.push(e);
            } else {
                kept.push((e, t));
            }
        }
        assert(orig.subrange(0, n as int) =~= orig);
        proof {
            lemma_not_due_ok(orig, now, d);
        }
        // Record the new change.
        let ghost waiting = kept@;
        let new_path = match &event {
            WatchEvent::FileChanged { path, event_kind: _ } => path.clone(),
            WatchEvent::BatchUpdate { events: _ } => String::new(),
        };
        let mut j = kept.len();
        assert(kept@.take(j as int) =~= kept@);
        while j > 0 && !same_path(&kept[j - 1].0, new_path.as_str())
            invariant
                j <= kept@.len(),
                kept@ == waiting,
                pending_ok(waiting),
                index_of_change(waiting, new_path@) == index_of_change(waiting.take(j as int), new_path@),
            decreases j,
        {
            assert(waiting.take(j as int).drop_last() =~= waiting.take(j - 1));
            assert(waiting.take(j as int).last() == waiting[j - 1]);
            assert(waiting[j - 1].0 is FileChanged);
            j = j - 1;
        }
        if j > 0 {
            assert(waiting.take(j as int).last() == waiting[j - 1]);
            kept.set(j - 1, (event, now));
        } else {
            kept.push((event, now));
        }
        proof {
            lemma_record_ok(waiting, event, now);
        }
        self.pending = kept;
        ready
    }

    /// Releases every pending change, oldest first.
    pub fn flush(&mut self) -> (events: Vec<WatchEvent>)
        requires
            old(self).well_formed(),
        ensures
            events@ == old(self).pending().map_values(|p: (WatchEvent, u64)| p.0),
            final(self).pending().len() == 0,
            final(self).debounce() == old(self).debounce(),
            final(self).well_formed(),
    {
        let ghost orig = self.pending@;
        let mut rest: Vec<(WatchEvent, u64)> = Vec::new();
        std::mem::swap(&mut rest, &mut self.pending);
        let mut rev: Vec<WatchEvent> = Vec::new();
        while rest.len() > 0
            invariant
                rest@.map_values(|p: (WatchEvent, u64)| p.0) + rev@.reverse() == orig.map_values(
                    |p: (WatchEvent, u64)| p.0,
                ),
            decreases rest@.len(),
        {
            let ghost r0 = rest@;
            let x = rest.pop().unwrap();
            assert(r0.map_values(|p: (WatchEvent, u64)| p.0) =~= rest@.map_values(|p: (WatchEvent, u64)| p.0).push(x.0));
            rev.push(x.0);
            assert(rest@.map_values(|p: (WatchEvent, u64)| p.0) + rev@.reverse() =~= orig.map_values(
                |p: (WatchEvent, u64)| p.0,
            ));
        }
        let mut events: Vec<WatchEvent> = Vec::new();
        while rev.len() > 0
            invariant
                events@ + rev@.reverse() == orig.map_values(|p: (WatchEvent, u64)| p.0),
            decreases rev@.len(),
        {
            let ghost r0 = rev@;
            let x = rev.pop().unwrap();
            assert(r0.reverse() =~= seq![x] + rev@.reverse());
            events.push(x);
            assert(events@ + rev@.reverse() =~= orig.map_values(|p: (WatchEvent, u64)| p.0));
        }
        assert(events@ =~= orig.map_values(|p: (WatchEvent, u64)| p.0));
        events
    }
}

/// Whether a pending change is of the file `path`.
fn same_path(e: &WatchEvent, path: &str) -> (r: bool)
    ensures
        r == (e is FileChanged && changed_path(*e) == path@),
{
    match e {
        WatchEvent::FileChanged { path: p, event_kind: _ } => str_eq(p.as_str(), path),
        WatchEvent::BatchUpdate { events: _ } => false,
    }
}


/// The plan of a watch event taken by reference (see [`plan_of`]).
fn plan_for(event: &WatchEvent) -> (r: Option<UpdatePlan>)
    ensures
        r == plan_of(*event),
    decreases event,
{
    match event {
        WatchEvent::FileChanged { path, event_kind } => match event_kind {
            WatchEventKind::Created => Some(UpdatePlan::Added(path.clone())),
            WatchEventKind::Modified => Some(UpdatePlan::Modified(path.clone())),
            WatchEventKind::Deleted => Some(UpdatePlan::Removed(path.clone())),
            WatchEventKind::Renamed { from: _, to } => Some(UpdatePlan::Added(to.clone())),
        },
        WatchEvent::BatchUpdate { events } => {
            if events.len() > 0 {
                proof {
                    assert(decreases_to!(event => event->events@[0]));
                }
                plan_for(&events[0])
            } else {
                None
            }
        },
    }
}

/// The plans of a run of watch events, in order, leaving out those that
/// have none.
pub open spec fn plans_of(s: Seq<WatchEvent>) -> Seq<UpdatePlan>
    decreases s.len(),
{
    if s.len() == 0 {
        Seq::empty()
    } else {
        match plan_of(s.last()) {
            Some(p) => plans_of(s.drop_last()).push(p),
            None => plans_of(s.drop_last()),
        }
    }
}

/// The plans of a run of watch events (see [`plans_of`]).
pub fn update_plans(events: &Vec<WatchEvent>) -> (r: Vec<UpdatePlan>)
    ensures
        r@ == plans_of(events@),
{
    let mut r: Vec<UpdatePlan> = Vec::new();
    let mut i: usize = 0;
    while i < events.len()
        invariant
            i <= events@.len(),
            r@ == plans_of(events@.take(i as int)),
        decreases events@.len() - i,
    {
        assert(events@.take(i + 1).drop_last() =~= events@.take(i as int));
        assert(events@.take(i + 1).last() == events@[i as int]);
        if let Some(p) = plan_for(&events[i]) {
            r.push(p);
        }
        i = i + 1;
    }
    assert(events@.take(events@.len() as int) =~= events@);
    r
}

/// The watch event of a file system event, when the file is one that is
/// watched (see [`watch_event_spec`] and [`should_index_file`]).
pub open spec fn watched_change(
    kind: FsEventKind,
    paths: Seq<String>,
    watch_path: Seq<char>,
    is_dir: bool,
    patterns: Seq<String>,
) -> Option<WatchEvent> {
    match watch_event_spec(kind, paths, watch_path) {
        Some((p, k)) => if !is_dir && matches_any(patterns, p) {
            Some(WatchEvent::FileChanged { path: paths[0], event_kind: k })
        } else {
            None
        },
        None => None,
    }
}

/// What the watcher's background work keeps between file system events:
/// the watched directory, the patterns of watched files and the debouncer.
pub struct WatchProcessor {
    watch_path: String,
    patterns: Vec<String>,
    debouncer: EventDebouncer,
}

impl WatchProcessor {
    pub closed spec fn watch_path(&self) -> Seq<char> {
        self.watch_path@
    }

    pub closed spec fn patterns(&self) -> Seq<String> {
        self.patterns@
    }

    pub closed spec fn debouncer(&self) -> EventDebouncer {
        self.debouncer
    }

    pub open spec fn well_formed(&self) -> bool {
        self.debouncer().well_formed()
    }

    /// A processor for `watch_path`; changes are held back `debounce_ms`
    /// milliseconds, 100 when none is given.
    pub fn new(watch_path: String, patterns: Vec<String>, debounce_ms: Option<u64>) -> (w: WatchProcessor)
        ensures
            w.watch_path() == watch_path@,
            w.patterns() == patterns@,
            w.debouncer().pending().len() == 0,
            w.debouncer().debounce() == (match debounce_ms {
                Some(d) => d,
                None => 100,
            }),
            w.well_formed(),
    {
        let d = match debounce_ms {
            Some(d) => d,
            None => 100,
        };
        WatchProcessor { watch_path, patterns, debouncer: EventDebouncer::new(d) }
    }

    /// Takes a file system event seen at `now` (`is_dir`: whether its first
    /// path is a directory). A change of a watched file releases the plans
    /// of the pending changes that are due and is then held back; any other
    /// event changes nothing.
    pub fn on_fs_event(&mut self, kind: FsEventKind, paths: &Vec<String>, is_dir: bool, now: u64) -> (plans: Vec<UpdatePlan>)
        requires
            old(self).well_formed(),
        ensures
            final(self).well_formed(),
            final(self).watch_path() == old(self).watch_path(),
            final(self).patterns() == old(self).patterns(),
            final(self).debouncer().debounce() == old(self).debouncer().debounce(),
            match watched_change(kind, paths@, old(self).watch_path(), is_dir, old(self).patterns()) {
                Some(e) => {
                    let d = old(self).debouncer().debounce();
                    &&& plans@ == plans_of(due_events(old(self).debouncer().pending(), now, d))
                    &&& final(self).debouncer().pending() == record_change(
                        not_due(old(self).debouncer().pending(), now, d),
                        e,
                        now,
                    )
                },
                None => plans@.len() == 0 && final(self).debouncer().pending() == old(self).debouncer().pending(),
            },
    {
        let event = match convert_notify_event(kind, paths, self.watch_path.as_str()) {
            Some(e) => e,
            None => return Vec::new(),
        };
        let watched = match &event {
            WatchEvent::FileChanged { path, event_kind: _ } => should_index_file(path.as_str(), is_dir, &self.patterns),
            WatchEvent::BatchUpdate { events: _ } => false,
        };
        if !watched {
            return Vec::new();
        }
        let ready = self.debouncer.add_event(event, now);
        update_plans(&ready)
    }

    /// Releases every pending change, oldest first.
    pub fn flush_pending(&mut self) -> (events: Vec<WatchEvent>)
        requires
            old(self).well_formed(),
        ensures
            events@ == old(self).debouncer().pending().map_values(|p: (WatchEvent, u64)| p.0),
            final(self).debouncer().pending().len() == 0,
            final(self).watch_path() == old(self).watch_path(),
            final(self).patterns() == old(self).patterns(),
            final(self).debouncer().debounce() == old(self).debouncer().debounce(),
            final(self).well_formed(),
    {
        self.debouncer.flush()
    }
}

} // verus!
