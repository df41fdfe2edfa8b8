//! The file change detector: the messages it sends for file system events
//! and how it answers its control messages.

use vstd::prelude::*;
use crate::types::{FaeMessage, HandlerAction, is_send};
use crate::message::Message;
use crate::file_watcher::FsEventKind;
use crate::text::str_eq;

verus! {

/// What the detector does on a control message.
#[derive(Debug, Clone, Copy, PartialEq, Eq, Structural)]
pub enum WatchCommand {
    /// Start watching the directory.
    Start,
    /// Stop watching (drop the watcher).
    Stop,
    /// Nothing.
    Ignore,
}

/// The message sent for a changed file, by the kind of event.
pub open spec fn change_message(kind: FsEventKind, path: Seq<char>, a: HandlerAction) -> bool {
    match kind {
        FsEventKind::Create => is_send(a, "detectFileCreate"@, |p: FaeMessage| p matches FaeMessage::DetectFileCreate(s) && s@ == path),
        FsEventKind::Modify => is_send(a, "detectFileUpdate"@, |p: FaeMessage| p matches FaeMessage::DetectFileUpdate(s) && s@ == path),
        FsEventKind::Remove => is_send(a, "detectFileDelete"@, |p: FaeMessage| p matches FaeMessage::DetectFileDelete(s) && s@ == path),
        FsEventKind::Other => false,
    }
}

/// The files of an event that are reported: those that are no directory.
pub open spec fn reported_paths(paths: Seq<(String, bool)>) -> Seq<Seq<char>>
    decreases paths.len(),
{
    if paths.len() == 0 {
        Seq::empty()
    } else if paths.last().1 {
        reported_paths(paths.drop_last())
    } else {
        reported_paths(paths.drop_last()).push(paths.last().0@)
    }
}

/// Watches a directory and reports file changes.
pub struct WatchHandler {
    pub watch_path: String,
}

impl WatchHandler {
    /// A detector for the directory `watch_path`.
    pub fn new(watch_path: String) -> (h: WatchHandler)
        ensures
            h.watch_path == watch_path,
    {
        WatchHandler { watch_path }
    }

    /// `startWatching` starts, `stopWatching` stops; anything else is ignored.
    pub fn on_message(&self, message: &Message<FaeMessage>) -> (c: WatchCommand)
        ensures
            c == (if message.method@ == "startWatching"@ {
                WatchCommand::Start
            } else if message.method@ == "stopWatching"@ {
                WatchCommand::Stop
            } else {
                WatchCommand::Ignore
            }),
    {
        if str_eq(message.method.as_str(), "startWatching") {
            WatchCommand::Start
        } else if str_eq(message.method.as_str(), "stopWatching") {
            WatchCommand::Stop
        } else {
            WatchCommand::Ignore
        }
    }

    /// The messages for a file system event on `paths` (each with whether
    /// it is a directory): one per file, in order, for creations,
    /// modifications and removals; none for other events.
    pub fn process_event(&self, kind: FsEventKind, paths: &Vec<(String, bool)>) -> (actions: Vec<HandlerAction>)
        ensures
            kind == FsEventKind::Other ==> actions@.len() == 0,
            kind != FsEventKind::Other ==> {
                &&& actions@.len() == reported_paths(paths@).len()
                &&& forall|i: int| 0 <= i < actions@.len() ==> change_message(kind, reported_paths(paths@)[i], #[trigger] actions@[i])
            },
    {
        let mut actions: Vec<HandlerAction> = Vec::new();
        if kind == FsEventKind::Other {
            return actions;
        }
        let mut i: usize = 0;
        while i < paths.len()
            invariant
                kind != FsEventKind::Other,
                i <= paths@.len(),
                actions@.len() == reported_paths(paths@.take(i as int)).len(),
                forall|k: int| 0 <= k < actions@.len() ==> change_message(kind, reported_paths(paths@.take(i as int))[k], #[trigger] actions@[k]),
            decreases paths@.len() - i,
        {
            assert(paths@.take(i + 1).drop_last() =~= paths@.take(i as int));
            let (path, is_dir) = (&paths[i].0, paths[i].1);
            if !is_dir {
                let p = path.clone();
                let a = match kind {
                    FsEventKind::Create => HandlerAction::Send { method: "detectFileCreate".to_owned(), payload: FaeMessage::DetectFileCreate(p) },
                    FsEventKind::Modify => HandlerAction::Send { method: "detectFileUpdate".to_owned(), payload: FaeMessage::DetectFileUpdate(p) },
                    _ => HandlerAction::Send { method: "detectFileDelete".to_owned(), payload: FaeMessage::DetectFileDelete(p) },
                };
                actions.push(a);
            }
            i = i + 1;
        }
        assert(paths@.take(paths@.len() as int) =~= paths@);
        actions
    }
}

} // verus!
