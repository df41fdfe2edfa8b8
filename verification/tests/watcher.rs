use fae::file_watcher::{EventDebouncer, WatchEvent, WatchEventKind, FsEventKind, UpdatePlan, convert_notify_event,
    should_index_file, update_plan, WatchProcessor};
use fae::watch::{WatchHandler, WatchCommand};
use fae::types::{FaeMessage, HandlerAction};
use fae::message::Message;

fn change(path: &str) -> WatchEvent {
    WatchEvent::FileChanged { path: path.to_string(), event_kind: WatchEventKind::Modified }
}

#[test]
fn test_event_debouncer() {
    let mut debouncer = EventDebouncer::new(50);
    let ready = debouncer.add_event(change("/test/file.rs"), 1000);
    assert!(ready.is_empty());
    // 60 ms later the earlier change is due
    let ready = debouncer.add_event(change("/test/file.rs"), 1060);
    assert_eq!(ready.len(), 1);
}

#[test]
fn debouncer_replaces_pending_change_of_same_file() {
    let mut d = EventDebouncer::new(100);
    assert!(d.add_event(change("/a"), 0).is_empty());
    assert!(d.add_event(change("/a"), 10).is_empty());
    assert!(d.add_event(change("/b"), 20).is_empty());
    // at 115 only /a (recorded at 10) is due
    let ready = d.add_event(change("/c"), 115);
    assert_eq!(ready.len(), 1);
    assert!(matches!(&ready[0], WatchEvent::FileChanged { path, .. } if path == "/a"));
    let rest = d.flush();
    let paths: Vec<String> = rest
        .iter()
        .map(|e| match e {
            WatchEvent::FileChanged { path, .. } => path.clone(),
            _ => String::new(),
        })
        .collect();
    assert_eq!(paths, vec!["/b".to_string(), "/c".to_string()]);
    assert!(d.flush().is_empty());
}

#[test]
fn batches_pass_at_once() {
    let mut d = EventDebouncer::new(100);
    let ready = d.add_event(WatchEvent::BatchUpdate { events: vec![change("/x")] }, 0);
    assert_eq!(ready.len(), 1);
    assert!(d.flush().is_empty());
}

#[test]
fn test_should_index_file() {
    let patterns = vec!["**/*.rs".to_string(), "**/*.ts".to_string()];
    assert!(should_index_file("src/main.rs", false, &patterns));
    assert!(should_index_file("lib/utils.ts", false, &patterns));
    assert!(!should_index_file("README.md", false, &patterns));
    assert!(should_index_file("README.md", false, &vec![]));
    assert!(!should_index_file("src", true, &vec![]));
}

#[test]
fn notify_events_become_watch_events() {
    let paths = vec!["/w/src/a.rs".to_string(), "/w/b.rs".to_string()];
    match convert_notify_event(FsEventKind::Create, &paths, "/w") {
        Some(WatchEvent::FileChanged { path, event_kind: WatchEventKind::Created }) => assert_eq!(path, "/w/src/a.rs"),
        _ => panic!("expected a creation"),
    }
    assert!(convert_notify_event(FsEventKind::Other, &paths, "/w").is_none());
    assert!(convert_notify_event(FsEventKind::Modify, &paths, "/other").is_none());
    assert!(convert_notify_event(FsEventKind::Remove, &vec![], "/w").is_none());
}

#[test]
fn update_plans() {
    assert!(matches!(update_plan(change("/a")), Some(UpdatePlan::Modified(p)) if p == "/a"));
    let renamed = WatchEvent::FileChanged {
        path: "/old".to_string(),
        event_kind: WatchEventKind::Renamed { from: "/old".to_string(), to: "/new".to_string() },
    };
    assert!(matches!(update_plan(renamed), Some(UpdatePlan::Added(p)) if p == "/new"));
    let batch = WatchEvent::BatchUpdate {
        events: vec![
            WatchEvent::FileChanged { path: "/d".to_string(), event_kind: WatchEventKind::Deleted },
            change("/e"),
        ],
    };
    assert!(matches!(update_plan(batch), Some(UpdatePlan::Removed(p)) if p == "/d"));
    assert!(update_plan(WatchEvent::BatchUpdate { events: vec![] }).is_none());
}

#[test]
fn watch_handler_reports_files_only() {
    let h = WatchHandler::new("/w".to_string());
    assert_eq!(h.on_message(&Message::new("startWatching", FaeMessage::ClearResults)), WatchCommand::Start);
    assert_eq!(h.on_message(&Message::new("stopWatching", FaeMessage::ClearResults)), WatchCommand::Stop);
    assert_eq!(h.on_message(&Message::new("other", FaeMessage::ClearResults)), WatchCommand::Ignore);
    let paths = vec![("/w/a.rs".to_string(), false), ("/w/dir".to_string(), true)];
    let actions = h.process_event(FsEventKind::Remove, &paths);
    assert_eq!(actions.len(), 1);
    assert!(matches!(&actions[0], HandlerAction::Send { method, payload: FaeMessage::DetectFileDelete(p) }
        if method == "detectFileDelete" && p == "/w/a.rs"));
    assert!(h.process_event(FsEventKind::Other, &paths).is_empty());
}

fn plan_path(p: &UpdatePlan) -> (&'static str, String) {
    match p {
        UpdatePlan::Added(f) => ("added", f.clone()),
        UpdatePlan::Modified(f) => ("modified", f.clone()),
        UpdatePlan::Removed(f) => ("removed", f.clone()),
    }
}

#[test]
fn watch_processor_holds_back_and_releases_plans() {
    let mut w = WatchProcessor::new("/proj".to_string(), vec!["**/*.rs".to_string()], None);
    let rs = vec!["/proj/src/main.rs".to_string()];
    // first change of a watched file is held back
    assert!(w.on_fs_event(FsEventKind::Create, &rs, false, 0).is_empty());
    // outside the watched directory, unwatched files, directories and other kinds change nothing
    assert!(w.on_fs_event(FsEventKind::Modify, &vec!["/other/x.rs".to_string()], false, 500).is_empty());
    assert!(w.on_fs_event(FsEventKind::Modify, &vec!["/proj/README.md".to_string()], false, 500).is_empty());
    assert!(w.on_fs_event(FsEventKind::Modify, &rs, true, 500).is_empty());
    assert!(w.on_fs_event(FsEventKind::Other, &rs, false, 500).is_empty());
    assert!(w.on_fs_event(FsEventKind::Modify, &vec![], false, 500).is_empty());
    // 100 ms (the default) after the creation, the next change releases it
    let lib = vec!["/proj/src/lib.rs".to_string()];
    let plans = w.on_fs_event(FsEventKind::Remove, &lib, false, 100);
    assert_eq!(plans.iter().map(plan_path).collect::<Vec<_>>(), vec![("added", "/proj/src/main.rs".to_string())]);
    let rest = w.flush_pending();
    assert_eq!(rest.len(), 1);
    assert!(matches!(&rest[0], WatchEvent::FileChanged { path, event_kind: WatchEventKind::Deleted } if path == "/proj/src/lib.rs"));
    assert!(w.flush_pending().is_empty());
}

#[test]
fn watch_processor_uses_given_debounce() {
    let mut w = WatchProcessor::new("/p".to_string(), vec![], Some(10));
    assert!(w.on_fs_event(FsEventKind::Modify, &vec!["/p/a.txt".to_string()], false, 0).is_empty());
    let plans = w.on_fs_event(FsEventKind::Modify, &vec!["/p/b.txt".to_string()], false, 10);
    assert_eq!(plans.iter().map(plan_path).collect::<Vec<_>>(), vec![("modified", "/p/a.txt".to_string())]);
}
