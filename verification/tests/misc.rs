use fae::tui::{TuiActor, TuiUpdate, ToastType};
use fae::backend::{handle_command, CommandAction, UserCommand, watch_patterns, IndexingRun, BackendEvent,
    index_update_event, IndexUpdate, FileChangeType, progress_complete, BackendState, ProgressRead, SearcherStep,
    loop_error_event, LoopFailure};
use fae::filters::{FileFilter, GitignoreFilter, IndexCheck, is_git_internal};
use fae::index_manager::{IndexManager, FileInfo};
use fae::indexer::{path_symbols, is_parsed_file, TreeSitterIndexer, IndexerError};
use fae::command::{StringHandler, CommandHandler, command_request, CommandRequest, run_step, RunEvent, RunAction,
    output_step, OutputRead, OutputMessage, RunSlot, StopSteps};
use fae::message::CommandError;
use fae::types::{FaeMessage, SearchParams, SearchMode, SearchResult, SymbolType, CodeSymbol};
use fae::message::Message;

fn toast_text(u: &TuiUpdate) -> (String, ToastType, u64) {
    match u {
        TuiUpdate::ShowToast { message, toast_type, seconds } => (message.clone(), *toast_type, *seconds),
        _ => panic!("expected a toast"),
    }
}

#[test]
fn tui_progress_toasts() {
    let actor = TuiActor::new();
    let m = Message::new(
        "reportSymbolIndex",
        FaeMessage::ReportSymbolIndex { queued_files: 5, indexed_files: 3, symbols_found: 120 },
    );
    let u = actor.on_message(&m);
    assert_eq!(u.len(), 1);
    let (text, kind, secs) = toast_text(&u[0]);
    assert!(text.contains("Indexing: 3/8 files"));
    assert!(text.contains("120 symbols"));
    assert_eq!(kind, ToastType::Info);
    assert_eq!(secs, 2);
    let m = Message::new(
        "reportSymbolIndex",
        FaeMessage::ReportSymbolIndex { queued_files: 0, indexed_files: 8, symbols_found: 240 },
    );
    let (text, kind, _) = toast_text(&actor.on_message(&m)[0]);
    assert_eq!(text, "Indexing completed: 8 files, 240 symbols");
    assert_eq!(kind, ToastType::Success);
}

#[test]
fn tui_search_result_lines() {
    let actor = TuiActor::new();
    let result = SearchResult {
        filename: "test.rs".to_string(),
        line: 42,
        column: 10,
        content: "  fn test_function() {".to_string(),
    };
    let m = Message::new("pushSearchResult", FaeMessage::PushSearchResult { result, request_id: "1".to_string() });
    let u = actor.on_message(&m);
    match &u[0] {
        TuiUpdate::AppendResults(lines) => {
            assert_eq!(lines.len(), 1);
            assert_eq!(lines[0], "test.rs:42 - fn test_function() {");
        }
        _ => panic!("expected result lines"),
    }
    let (t, k, s) = toast_text(&actor.on_message(&Message::new("x", FaeMessage::NotifySearchReport { result_count: 0 }))[0]);
    assert_eq!((t.as_str(), k, s), ("No results found", ToastType::Warning, 3));
    let (t, _, _) = toast_text(&actor.on_message(&Message::new("x", FaeMessage::NotifySearchReport { result_count: 2 }))[0]);
    assert_eq!(t, "Search completed: 2 results found");
    let upd = actor.on_message(&Message::new(
        "updateSearchParams",
        FaeMessage::UpdateSearchParams {
            params: SearchParams { query: "q".to_string(), mode: SearchMode::Literal },
            request_id: "r".to_string(),
        },
    ));
    assert!(matches!(&upd[0], TuiUpdate::SetSearchInput(q) if q == "q"));
    assert_eq!(toast_text(&upd[1]).0, "Searching for 'q'...");
    let del = actor.on_message(&Message::new("d", FaeMessage::DetectFileDelete("/a".to_string())));
    assert_eq!(toast_text(&del[0]), ("File deleted: /a".to_string(), ToastType::Warning, 2));
    assert!(actor.on_message(&Message::new("x", FaeMessage::AbortSearch)).is_empty());
}

#[test]
fn backend_commands() {
    assert!(matches!(handle_command(UserCommand::Quit), CommandAction::Quit));
    assert!(matches!(handle_command(UserCommand::CopyResult { index: 3 }), CommandAction::Nothing));
    assert!(matches!(handle_command(UserCommand::StartIndexing { directory: "/d".to_string() }),
        CommandAction::StartIndexing(d) if d == "/d"));
    assert_eq!(watch_patterns().len(), 14);
    assert_eq!(watch_patterns()[0], "**/*.ts");
    assert!(progress_complete(3, 3));
    assert!(!progress_complete(2, 3));
    let (e, syms) = index_update_event(IndexUpdate::Removed { file: "/a".to_string(), symbol_count: 0 });
    assert!(matches!(e, BackendEvent::FileChanged { ref file, change_type: FileChangeType::Deleted } if file == "/a"));
    assert!(syms.is_none());
}

fn sym(name: &str) -> CodeSymbol {
    CodeSymbol {
        name: name.to_string(),
        symbol_type: SymbolType::Function,
        file: "/a.rs".to_string(),
        line: 1,
        column: 1,
        context: None,
    }
}

#[test]
fn indexing_run_counts_files_and_symbols() {
    let mut run = IndexingRun::new(3);
    let ((s, p, t), ev) = run.file_done(Some(vec![sym("a"), sym("b")]));
    assert_eq!((s.len(), p, t), (2, 1, 3));
    assert!(matches!(ev, Some(BackendEvent::IndexingProgress { processed: 1, total: 3, ref symbols }) if symbols.len() == 2));
    let ((s, p, _), ev) = run.file_done(None);
    assert_eq!((s.len(), p), (0, 2));
    assert!(ev.is_none());
    let _ = run.file_done(Some(vec![sym("c")]));
    assert!(matches!(run.finish(12), BackendEvent::IndexingComplete { duration_ms: 12, total_symbols: 3 }));
}

#[test]
fn file_filter_decisions() {
    let f = FileFilter::new(false);
    assert_eq!(f.check_file("/p/big.rs", Some(2 * 1024 * 1024)), IndexCheck::TooLarge(2 * 1024 * 1024));
    assert_eq!(f.check_file("/p/logo.PNG", Some(10)), IndexCheck::BinaryExtension);
    assert_eq!(f.check_file("/p/notes.tmp.rs", None), IndexCheck::SuspiciousName);
    assert_eq!(f.check_file("/p/main.rs", Some(1024 * 1024)), IndexCheck::Index);
    assert!(f.should_index_file("/p/main.rs", None));
    assert!(f.is_binary_extension("Lock"));
    assert!(!f.is_binary_extension("rs"));
    assert!(f.is_suspicious_filename("file~"));
    assert!(f.is_suspicious_filename(".DS_Store"));
    assert!(!f.is_suspicious_filename("main.rs"));
    assert!(f.matches_patterns("src/a.rs", &vec![]));
    assert!(f.matches_patterns("src/a.rs", &vec!["[".to_string(), "**/*.rs".to_string()]));
    assert!(!f.matches_patterns("src/a.py", &vec!["**/*.rs".to_string()]));
}

#[test]
fn gitignore_filter_settings() {
    let on = GitignoreFilter::new(true, false).walker_settings();
    assert!(on.git_ignore && on.parents && on.custom_ignore_file && !on.skip_git_dir && !on.require_git);
    let off = GitignoreFilter::new(false, false).walker_settings();
    assert!(!off.git_ignore && !off.parents && off.skip_git_dir && !off.hidden);
    assert!(is_git_internal("/repo/.git/config"));
    assert!(is_git_internal("/repo/.git"));
    assert!(!is_git_internal("/repo/.github/x"));
    let g = GitignoreFilter::new(true, false);
    assert_eq!(g.should_process_entry("/repo/a.rs", true), Some("/repo/a.rs".to_string()));
    assert_eq!(g.should_process_entry("/repo/src", false), None);
    assert_eq!(g.should_process_entry("/repo/.git/HEAD", true), None);
}

#[test]
fn index_manager_rules() {
    let mut m = IndexManager::new("/p".to_string());
    assert_eq!(m.project_root(), "/p");
    assert!(m.has_extension("ts") && m.has_extension("py") && m.has_extension("rs"));
    assert!(!m.has_extension("txt"));
    m.add_extension("txt");
    assert!(m.has_extension("txt"));
    assert!(m.accepts_entry("/p/a.txt", true));
    assert!(!m.accepts_entry("/p/a.txt", false));
    assert!(!m.accepts_entry("/p/Makefile", true));
    assert!(m.within_size_limit(1024 * 1024));
    assert!(!m.within_size_limit(1024 * 1024 + 1));
    m.set_max_file_size(10);
    assert!(!m.within_size_limit(11));
    assert!(IndexManager::is_likely_binary(&[0x48, 0x65, 0x00, 0x6c]));
    assert!(!IndexManager::is_likely_binary(b"This is a text file\n"));
    assert!(IndexManager::is_likely_binary(&[0x48, 0x65, 0x6c, 0x6c, 0x6f, 0x00, 0x57, 0x6f, 0x72, 0x6c, 0x64]));
    let info = m.file_info("/p/src/a.rs", 12);
    assert_eq!(info.relative_path, "src/a.rs");
    let files = vec![
        (5, FileInfo { path: "a".to_string(), size: 1, relative_path: "a".to_string() }),
        (9, FileInfo { path: "b".to_string(), size: 1, relative_path: "b".to_string() }),
        (5, FileInfo { path: "c".to_string(), size: 1, relative_path: "c".to_string() }),
    ];
    let recent: Vec<String> = IndexManager::most_recent(files, 2).into_iter().map(|f| f.path).collect();
    assert_eq!(recent, vec!["b".to_string(), "a".to_string()]);
}

#[test]
fn path_symbols_and_parsed_files() {
    let syms = path_symbols("/p/src/main.rs");
    assert_eq!(syms.len(), 2);
    assert_eq!(syms[0].name, "main.rs");
    assert_eq!(syms[0].symbol_type, SymbolType::Filename);
    assert_eq!(syms[1].name, "src");
    assert_eq!(syms[1].symbol_type, SymbolType::Dirname);
    assert_eq!(path_symbols("main.rs").len(), 1);
    assert!(is_parsed_file("/p/a.tsx"));
    assert!(!is_parsed_file("/p/a.md"));
}

#[test]
fn command_runner_messages() {
    let out = StringHandler {}.process_line("line".to_string());
    assert_eq!(out.len(), 1);
    assert_eq!(out[0].method, "output");
    assert_eq!(out[0].payload, "line");
    assert_eq!(command_request(&Message::new("cancel", ())), CommandRequest::Cancel);
    assert_eq!(command_request(&Message::new("run", ())), CommandRequest::Execute);
}

#[test]
fn command_run_steps() {
    assert!(matches!(run_step(RunEvent::Line("x".to_string())), RunAction::Deliver(l) if l == "x"));
    assert!(matches!(run_step(RunEvent::EndOfOutput), RunAction::AwaitExit));
    assert!(matches!(run_step(RunEvent::Exited), RunAction::Finish(Ok(()))));
    assert!(matches!(run_step(RunEvent::Cancelled), RunAction::KillAndFinish(CommandError::Cancelled)));
    assert!(matches!(run_step(RunEvent::NoStdout), RunAction::Finish(Err(CommandError::StdoutNotAvailable))));
    assert!(matches!(run_step(RunEvent::SpawnFailed("e".to_string())),
        RunAction::Finish(Err(CommandError::SpawnFailed(e))) if e == "e"));
    assert!(matches!(run_step(RunEvent::ReadFailed("r".to_string())),
        RunAction::Finish(Err(CommandError::ReadFailed(e))) if e == "r"));
    assert!(matches!(run_step(RunEvent::WaitFailed("w".to_string())),
        RunAction::Finish(Err(CommandError::WaitFailed(e))) if e == "w"));
    assert_eq!(CommandError::Cancelled.message(), "Command execution was cancelled");
}

#[test]
fn command_output_reader_steps() {
    assert_eq!(output_step(OutputRead::Cancelled), None);
    assert_eq!(output_step(OutputRead::Stdout(Some("a".to_string()))), Some(Some(OutputMessage::Stdout("a".to_string()))));
    assert_eq!(output_step(OutputRead::Stderr(Some("b".to_string()))), Some(Some(OutputMessage::Stderr("b".to_string()))));
    assert_eq!(output_step(OutputRead::Stdout(None)), Some(None));
    assert_eq!(output_step(OutputRead::Stderr(None)), Some(None));
    assert_eq!(output_step(OutputRead::StdoutFailed), None);
    assert_eq!(output_step(OutputRead::StderrFailed), None);
}

#[test]
fn command_slot_kills_before_spawning() {
    let mut slot = RunSlot::new();
    let steps = slot.begin_spawn();
    assert_eq!(steps, StopSteps { cancel_token: false, kill_process: false, join_reader: false });
    slot.spawned();
    assert_eq!(slot, RunSlot { has_token: true, has_process: true, has_reader: true });
    let steps = slot.begin_spawn();
    assert_eq!(steps, StopSteps { cancel_token: true, kill_process: true, join_reader: true });
    assert_eq!(slot, RunSlot { has_token: true, has_process: false, has_reader: false });
    let steps = slot.kill();
    assert_eq!(steps, StopSteps { cancel_token: true, kill_process: false, join_reader: false });
    assert_eq!(slot, RunSlot::new());
}

#[test]
fn backend_state_reads_progress_until_done() {
    let mut b = BackendState::new();
    assert!(b.watch_request().is_none());
    b.start_indexing("/proj".to_string());
    assert!(b.is_indexing && b.reading_progress);
    let w = b.watch_request().unwrap();
    assert_eq!(w.directory, "/proj");
    assert_eq!(w.debounce_ms, 100);
    assert_eq!(w.patterns.len(), 14);
    // no symbols and no searcher: dropped
    assert_eq!(b.on_progress(ProgressRead::Update { no_symbols: true, processed: 1, total: 3 }), (SearcherStep::Skip, true));
    assert!(!b.has_searcher);
    // the first symbols build the searcher
    assert_eq!(b.on_progress(ProgressRead::Update { no_symbols: false, processed: 2, total: 3 }), (SearcherStep::Create, true));
    assert!(b.has_searcher);
    assert_eq!(b.on_progress(ProgressRead::Empty), (SearcherStep::Skip, false));
    assert!(b.is_indexing);
    // the last file ends indexing
    assert_eq!(b.on_progress(ProgressRead::Update { no_symbols: true, processed: 3, total: 3 }), (SearcherStep::Update, false));
    assert!(!b.is_indexing && !b.reading_progress);
    let mut c = BackendState::new();
    c.start_indexing("/x".to_string());
    assert_eq!(c.on_progress(ProgressRead::Disconnected), (SearcherStep::Skip, false));
    assert!(!c.is_indexing && !c.reading_progress);
    c.watcher_started();
    assert!(c.watching);
}

#[test]
fn backend_loop_error_messages() {
    let msg = |f, r| match loop_error_event(f, r) {
        BackendEvent::Error { message } => message,
        _ => panic!("not an error event"),
    };
    assert_eq!(msg(LoopFailure::Command, "bad"), "Command handling error: bad");
    assert_eq!(msg(LoopFailure::FileWatching, "w"), "File watching error: w");
    assert_eq!(msg(LoopFailure::IndexingProgress, ""), "Indexing progress error: ");
}

#[test]
fn indexer_records_symbols_once_initialized() {
    let mut ix = TreeSitterIndexer::new();
    assert_eq!(ix.index_file("a.rs".to_string(), vec![sym("f")]), Err(IndexerError::NotInitialized));
    assert_eq!(IndexerError::NotInitialized.message(), "Indexer not initialized");
    assert!(ix.get_symbols_by_file("a.rs").is_empty());
    assert!(ix.index_file_sync(vec![sym("f")]).is_err());
    ix.initialize().unwrap();
    assert_eq!(ix.index_file_sync(vec![sym("f")]).unwrap().len(), 1);
    ix.index_file("a.rs".to_string(), vec![sym("f")]).unwrap();
    ix.index_file("b.rs".to_string(), vec![sym("g"), sym("h")]).unwrap();
    // indexing a file again replaces its symbols
    ix.index_file("a.rs".to_string(), vec![sym("k")]).unwrap();
    let a = ix.get_symbols_by_file("a.rs");
    assert_eq!(a.len(), 1);
    assert_eq!(a[0].name, "k");
    let all: Vec<String> = ix.get_all_symbols().into_iter().map(|s| s.name).collect();
    assert_eq!(all, vec!["k", "g", "h"]);
    ix.index_directory(vec![("c.rs".to_string(), vec![sym("c")]), ("b.rs".to_string(), vec![])]);
    assert!(ix.get_symbols_by_file("b.rs").is_empty());
    assert_eq!(ix.get_symbols_by_file("c.rs")[0].name, "c");
    ix.clear_cache();
    assert!(ix.get_all_symbols().is_empty());
}

#[test]
fn test_extension_filtering() {
    let manager = IndexManager::new("/tmp/fae-extension-filtering".to_string());
    assert!(manager.has_extension("ts"));
    assert!(manager.has_extension("py"));
    assert!(manager.has_extension("rs"));
    assert!(!manager.has_extension("txt"));
}
