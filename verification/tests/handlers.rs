use fae::result_handler::ResultHandler;
use fae::cache_manager::{CacheManager, CacheEntry, CachedFileInfo, CachedSymbol};
use fae::symbol_index::{SymbolIndexHandler, FileOperation};
use fae::symbol_search::SymbolSearchHandler;
use fae::filepath::{FilepathSearchHandler, PathEntry};
use fae::types::{SearchMode, SearchResult, Symbol, SymbolType, FaeMessage, HandlerAction, SearchParams};
use fae::message::{Message, MethodOnlyMessage, StringMessage, IntMessage, BoolMessage};

#[test]
fn test_result_handler_creation() {
    let handler = ResultHandler::new();
    assert_eq!(handler.get_result_count(), 0);
    assert!(!handler.is_completed());
    assert!(!handler.has_started());
}

#[test]
fn result_handler_counts_each_result_once() {
    let mut handler = ResultHandler::new();
    let r = SearchResult { filename: "a.rs".to_string(), line: 1, column: 2, content: "x".to_string() };
    assert!(handler.handle_search_result(r.clone(), "q".to_string()).is_some());
    assert!(handler.handle_search_result(r.clone(), "q".to_string()).is_none());
    assert_eq!(handler.get_result_count(), 1);
    assert!(handler.has_started());
    handler.reset_for_new_search();
    assert_eq!(handler.get_result_count(), 0);
    assert!(handler.handle_search_result(r, "q2".to_string()).is_some());
}

#[test]
fn test_cache_manager_creation() {
    let cache = CacheManager::new();
    assert_eq!(cache.len(), 0);
    assert_eq!(cache.memory_usage_bytes(), 0);
}

fn entry(path: &str, size: usize, modified: u64) -> CacheEntry {
    CacheEntry {
        file_info: CachedFileInfo {
            path: path.to_string(),
            hash: 7,
            modified_time: modified,
            content: Some("body".to_string()),
            symbols: vec![CachedSymbol { name: "f".to_string(), symbol_type: SymbolType::Function, line: 1, column: 1 }],
            last_accessed: 0,
        },
        memory_size: size,
    }
}

#[test]
fn cache_keeps_bounds_and_evicts_least_recent() {
    let mut cache = CacheManager::with_limits(1, 2);
    cache.add_to_cache("a".to_string(), entry("a", 10, 5));
    cache.add_to_cache("b".to_string(), entry("b", 10, 5));
    assert!(cache.get_symbols("a", 5).is_some());
    cache.add_to_cache("c".to_string(), entry("c", 10, 5));
    assert_eq!(cache.len(), 2);
    assert!(cache.is_cached("a"));
    assert!(!cache.is_cached("b"));
    assert!(cache.is_cached("c"));
    assert_eq!(cache.memory_usage_bytes(), 20);
    // a newer file drops its stale entry
    assert!(cache.get_symbols("a", 6).is_none());
    assert!(!cache.is_cached("a"));
    assert_eq!(cache.get_file_content("c"), Some("body".to_string()));
    cache.invalidate_file("c");
    assert_eq!(cache.len(), 0);
}

#[test]
fn symbol_index_test_is_supported_file() {
    assert!(SymbolIndexHandler::is_supported_file("test.rs"));
    assert!(SymbolIndexHandler::is_supported_file("/path/to/main.rs"));
    assert!(SymbolIndexHandler::is_supported_file("test.js"));
    assert!(SymbolIndexHandler::is_supported_file("module.mjs"));
    assert!(SymbolIndexHandler::is_supported_file("config.cjs"));
    assert!(SymbolIndexHandler::is_supported_file("test.py"));
    assert!(SymbolIndexHandler::is_supported_file("script.pyw"));
    assert!(SymbolIndexHandler::is_supported_file("types.pyi"));
    assert!(!SymbolIndexHandler::is_supported_file("README.md"));
    assert!(!SymbolIndexHandler::is_supported_file("Cargo.toml"));
}

#[test]
fn symbol_index_queue_keeps_one_operation_per_file() {
    let mut h = SymbolIndexHandler::new("/p".to_string()).unwrap();
    h.add_operation_to_queue(FileOperation::Create("/p/a.rs".to_string()));
    h.add_operation_to_queue(FileOperation::Update("/p/b.rs".to_string()));
    h.add_operation_to_queue(FileOperation::Delete("/p/a.rs".to_string()));
    assert_eq!(h.queue_len(), 2);
    match h.begin_next() {
        Some(FileOperation::Update(p)) => assert_eq!(p, "/p/b.rs"),
        other => panic!("unexpected {:?}", other),
    }
    assert!(h.is_currently_processing());
    h.finish_operation();
    match h.begin_next() {
        Some(FileOperation::Delete(p)) => assert_eq!(p, "/p/a.rs"),
        other => panic!("unexpected {:?}", other),
    }
}

#[test]
fn test_format_match_content() {
    let content = FilepathSearchHandler::format_match_content("test.rs", &[0, 2, 5], false);
    assert!(content.contains("[FILE]"));
    assert!(content.contains("test.rs"));
    let content = FilepathSearchHandler::format_match_content("src/lib", &[0, 4], true);
    assert!(content.contains("[DIR]"));
    assert!(content.contains("src/lib"));
    assert_eq!(content, "[DIR] src/lib");
}

fn path_entry(p: &str, dir: bool) -> PathEntry {
    PathEntry { path: format!("./src/{}", p), relative_path: p.to_string(), is_dir: dir }
}

#[test]
fn search_filepaths_matches_and_orders() {
    let entries = vec![path_entry("main.rs", false), path_entry("lib.rs", false), path_entry("docs", true)];
    let results = FilepathSearchHandler::search_filepaths(&entries, "rs", SearchMode::Filepath);
    assert!(results.len() >= 2);
    for r in &results {
        assert!(!r.filename.is_empty());
        assert_eq!(r.line, 1);
        assert!(!r.content.is_empty());
    }
    let none = FilepathSearchHandler::search_filepaths(&entries, "test", SearchMode::Literal);
    assert_eq!(none.len(), 0);
}

#[test]
fn test_symbol_search_handler_creation() {
    let handler = SymbolSearchHandler::new();
    let (file_count, symbol_count) = handler.get_index_stats();
    assert_eq!(file_count, 0);
    assert_eq!(symbol_count, 0);
}

#[test]
fn test_add_and_clear_symbols() {
    let mut handler = SymbolSearchHandler::new();
    let symbol1 = Symbol::new("test.rs".to_string(), 10, 5, "my_function".to_string(), SymbolType::Function);
    let symbol2 = Symbol::new("test.rs".to_string(), 20, 1, "MyStruct".to_string(), SymbolType::Struct);
    handler.add_symbol(symbol1);
    handler.add_symbol(symbol2);
    let (file_count, symbol_count) = handler.get_index_stats();
    assert_eq!(file_count, 1);
    assert_eq!(symbol_count, 2);
    handler.clear_file_symbols("test.rs");
    let (file_count, symbol_count) = handler.get_index_stats();
    assert_eq!(file_count, 0);
    assert_eq!(symbol_count, 0);
}

#[test]
fn test_symbol_filtering_logic() {
    let handler = SymbolSearchHandler::new();
    let function_symbol = Symbol::new("test.rs".to_string(), 10, 5, "test_function".to_string(), SymbolType::Function);
    let variable_symbol = Symbol::new("test.rs".to_string(), 20, 5, "test_variable".to_string(), SymbolType::Variable);
    let constant_symbol = Symbol::new("test.rs".to_string(), 30, 5, "TEST_CONSTANT".to_string(), SymbolType::Constant);
    let field_symbol = Symbol::new("test.rs".to_string(), 40, 5, "test_field".to_string(), SymbolType::Field);
    assert!(handler.is_symbol_allowed_for_mode(&function_symbol, SearchMode::Symbol));
    assert!(!handler.is_symbol_allowed_for_mode(&variable_symbol, SearchMode::Symbol));
    assert!(!handler.is_symbol_allowed_for_mode(&constant_symbol, SearchMode::Symbol));
    assert!(!handler.is_symbol_allowed_for_mode(&field_symbol, SearchMode::Symbol));
    assert!(!handler.is_symbol_allowed_for_mode(&function_symbol, SearchMode::Variable));
    assert!(handler.is_symbol_allowed_for_mode(&variable_symbol, SearchMode::Variable));
    assert!(handler.is_symbol_allowed_for_mode(&constant_symbol, SearchMode::Variable));
    assert!(handler.is_symbol_allowed_for_mode(&field_symbol, SearchMode::Variable));
    assert!(!handler.is_symbol_allowed_for_mode(&function_symbol, SearchMode::Literal));
    assert!(!handler.is_symbol_allowed_for_mode(&variable_symbol, SearchMode::Filepath));
}

#[test]
fn test_initial_indexing_complete_flag() {
    let handler = SymbolSearchHandler::new();
    assert!(!handler.is_initial_indexing_complete());
}

#[test]
fn test_generic_message_creation() {
    let msg1 = MethodOnlyMessage::method_only("ping");
    assert_eq!(msg1.method, "ping");
    assert_eq!(msg1.payload, ());
    let msg2 = StringMessage::with_string("echo", "hello world".to_string());
    assert_eq!(msg2.method, "echo");
    assert_eq!(msg2.payload, "hello world");
    let msg3 = IntMessage::with_int("count", 42);
    assert_eq!(msg3.method, "count");
    assert_eq!(msg3.payload, 42);
    let msg4 = BoolMessage::with_bool("status", true);
    assert_eq!(msg4.method, "status");
    assert_eq!(msg4.payload, true);
}

#[test]
fn test_direct_message_creation() {
    let msg1 = Message::new("test", "data".to_string());
    assert_eq!(msg1.method, "test");
    assert_eq!(msg1.payload, "data");
    let msg2 = Message::new("number", 123i32);
    assert_eq!(msg2.method, "number");
    assert_eq!(msg2.payload, 123);
}

#[test]
fn test_message_clone_and_equality() {
    let message = StringMessage::new("test", "data".to_string());
    let cloned = message.clone();
    assert_eq!(message, cloned);
    assert_eq!(message.method, cloned.method);
    assert_eq!(message.payload, cloned.payload);
}

#[test]
fn search_messages_are_handled() {
    let mut handler = SymbolSearchHandler::new();
    let msg = Message::new("completeInitialIndexing", FaeMessage::CompleteInitialIndexing);
    let _ = handler.on_message(msg);
    assert!(handler.is_initial_indexing_complete());
}

#[test]
fn cache_reads_back_what_was_added() {
    let mut cache = CacheManager::with_limits(1, 3);
    cache.add_to_cache("a".to_string(), entry("a", 10, 5));
    let mut newer = entry("a", 12, 9);
    newer.file_info.symbols[0].name = "g".to_string();
    cache.add_to_cache("a".to_string(), newer);
    assert_eq!(cache.len(), 1);
    assert_eq!(cache.memory_usage_bytes(), 12);
    let syms = cache.get_symbols("a", 9).unwrap();
    assert_eq!(syms.len(), 1);
    assert_eq!(syms[0].name, "g");
}

fn sent(actions: &[HandlerAction]) -> Vec<String> {
    actions
        .iter()
        .map(|a| match a {
            HandlerAction::Send { method, .. } => method.clone(),
            HandlerAction::Spawn(_) => "spawn".to_string(),
        })
        .collect()
}

#[test]
fn symbol_index_steps_through_queue_then_reports_completion() {
    let mut h = SymbolIndexHandler::new("/p".to_string()).unwrap();
    h.add_operation_to_queue(FileOperation::Update("/p/a.rs".to_string()));
    h.add_operation_to_queue(FileOperation::Create("/p/notes.txt".to_string()));
    h.add_operation_to_queue(FileOperation::Delete("/p/b.rs".to_string()));
    let (op, actions) = h.next_step();
    assert!(matches!(op, Some(FileOperation::Update(p)) if p == "/p/a.rs"));
    assert_eq!(sent(&actions), vec!["clearSymbolIndex"]);
    assert!(h.is_currently_processing());
    h.finish_operation();
    let (op, actions) = h.next_step();
    assert!(matches!(op, Some(FileOperation::Create(_))));
    assert!(actions.is_empty());
    h.finish_operation();
    let (_, actions) = h.next_step();
    assert_eq!(sent(&actions), vec!["clearSymbolIndex", "completeSymbolIndex"]);
    h.finish_operation();
    let (op, actions) = h.next_step();
    assert!(op.is_none());
    assert_eq!(sent(&actions), vec!["completeInitialIndexing"]);
    assert!(matches!(&actions[0], HandlerAction::Send { payload: FaeMessage::CompleteInitialIndexing, .. }));
    assert!(!h.is_currently_processing());
}

#[test]
fn search_waits_for_initial_indexing() {
    let mut h = SymbolSearchHandler::new();
    let update = Message::new(
        "updateSearchParams",
        FaeMessage::UpdateSearchParams {
            params: SearchParams { query: "handler".to_string(), mode: SearchMode::Symbol },
            request_id: "r1".to_string(),
        },
    );
    // before indexing completes the search is kept, not run
    assert!(h.on_message(update).is_empty());
    let push = Message::new(
        "pushSymbolIndex",
        FaeMessage::PushSymbolIndex {
            filepath: "src/a.rs".to_string(),
            line: 3,
            column: 1,
            name: "handler".to_string(),
            content: "handler".to_string(),
            symbol_type: SymbolType::Function,
        },
    );
    assert!(h.on_message(push).is_empty());
    // completing the indexing runs the kept search
    let actions = h.on_message(Message::new("completeInitialIndexing", FaeMessage::CompleteInitialIndexing));
    let methods: Vec<String> = actions
        .iter()
        .map(|a| match a {
            HandlerAction::Send { method, .. } => method.clone(),
            HandlerAction::Spawn(_) => "spawn".to_string(),
        })
        .collect();
    assert_eq!(methods, vec!["pushSearchResult", "completeSearch"]);
    assert!(matches!(&actions[0], HandlerAction::Send { payload: FaeMessage::PushSearchResult { request_id, .. }, .. }
        if request_id == "r1"));
}

#[test]
fn result_handler_state_laws() {
    let mut h = ResultHandler::new();
    // a completion before any result is ignored: completed implies started
    assert!(h.on_message(Message::new("completeSearch", FaeMessage::CompleteSearch)).is_empty());
    assert!(!h.is_completed() && !h.has_started());
    let r = SearchResult { filename: "a.rs".to_string(), line: 1, column: 2, content: "x".to_string() };
    let push = |r: &SearchResult, rid: &str| {
        Message::new("pushSearchResult", FaeMessage::PushSearchResult { result: r.clone(), request_id: rid.to_string() })
    };
    assert_eq!(h.on_message(push(&r, "q")).len(), 1);
    assert!(h.has_started() && !h.is_completed());
    // forgetting a request lets its results through again
    h.clear_request_results("q");
    assert_eq!(h.on_message(push(&r, "q")).len(), 1);
    assert_eq!(h.get_result_count(), 2);
    assert_eq!(h.on_message(Message::new("completeSearch", FaeMessage::CompleteSearch)).len(), 1);
    assert!(h.is_completed() && h.has_started());
    // a completed search is frozen
    assert!(h.on_message(push(&r, "other")).is_empty());
    assert_eq!(h.get_result_count(), 2);
}

#[test]
fn test_file_content_caching() {
    let mut cache = CacheManager::new();
    let path = "/tmp/fae/test_function.rs";
    let text = "fn test_function() {\n    println!(\"Hello\");\n}\n".to_string();
    // the first read misses: the file's text, as read, is stored
    assert!(cache.get_file_content(path).is_none());
    cache.cache_file_with_content(path.to_string(), text.clone(), 10, 20, 128);
    let content1 = cache.get_file_content(path).unwrap();
    assert!(content1.contains("test_function"));
    assert!(cache.is_cached(path));
    // the second read is served from the cache
    let content2 = cache.get_file_content(path).unwrap();
    assert_eq!(content1, content2);
    assert_eq!(cache.memory_usage_bytes(), 128);
    // the stored entry has no symbols yet, and is fresh for its modification time
    assert_eq!(cache.get_symbols(path, 10).unwrap().len(), 0);
}
