use fae::native::{NativeSearchHandler, CompiledPattern, search_pattern};
use fae::types::{SearchMode, SearchParams, FaeMessage, HandlerAction, SearchResult};
use fae::message::Message;

#[test]
fn test_is_binary_file() {
    assert!(NativeSearchHandler::is_binary_file("test.exe", None));
    assert!(NativeSearchHandler::is_binary_file("image.png", None));
    assert!(NativeSearchHandler::is_binary_file("archive.zip", None));
    assert!(!NativeSearchHandler::is_binary_file("source.rs", None));
    assert!(!NativeSearchHandler::is_binary_file("README.md", None));
}

#[test]
fn test_is_binary_file_edge_cases() {
    assert!(!NativeSearchHandler::is_binary_file("Makefile", None));
    assert!(!NativeSearchHandler::is_binary_file("LICENSE", None));
    assert!(NativeSearchHandler::is_binary_file("test.EXE", None));
    assert!(NativeSearchHandler::is_binary_file("image.PNG", None));
    assert!(!NativeSearchHandler::is_binary_file("", None));
}

#[test]
fn large_files_are_binary() {
    assert!(NativeSearchHandler::is_binary_file("big.rs", Some(1_000_001)));
    assert!(!NativeSearchHandler::is_binary_file("big.rs", Some(1_000_000)));
}

#[test]
fn literal_patterns_are_escaped() {
    let p = search_pattern("a.b", SearchMode::Literal).unwrap().unwrap();
    let lines = vec!["a.b and axb".to_string(), "none".to_string(), "xa.ba.b".to_string()];
    let hits = NativeSearchHandler::search_lines("f.txt", &lines, &p);
    let cols: Vec<(u32, u32)> = hits.iter().map(|h| (h.line, h.column)).collect();
    assert_eq!(cols, vec![(1, 1), (3, 2), (3, 5)]);
    assert_eq!(hits[0].content, "a.b and axb");
    assert_eq!(hits[0].filename, "f.txt");
}

#[test]
fn regex_patterns_and_errors() {
    let p = search_pattern("a.b", SearchMode::Regexp).unwrap().unwrap();
    let lines = vec!["axb".to_string()];
    assert_eq!(NativeSearchHandler::search_lines("f", &lines, &p).len(), 1);
    assert!(search_pattern("[invalid_regex", SearchMode::Regexp).unwrap().is_err());
    assert!(search_pattern("x", SearchMode::Symbol).is_none());
    assert!(CompiledPattern::compile("(".to_string()).is_err());
}

#[test]
fn native_handler_messages() {
    let h = NativeSearchHandler::new("./src".to_string());
    let msg = Message::new(
        "updateSearchParams",
        FaeMessage::UpdateSearchParams {
            params: SearchParams { query: "ab".to_string(), mode: SearchMode::Literal },
            request_id: "1".to_string(),
        },
    );
    let actions = h.on_message(&msg);
    assert_eq!(actions.len(), 2);
    assert!(matches!(&actions[1], HandlerAction::Spawn(p) if p.query == "ab"));
    let short = Message::new(
        "updateSearchParams",
        FaeMessage::UpdateSearchParams {
            params: SearchParams { query: "a".to_string(), mode: SearchMode::Literal },
            request_id: "1".to_string(),
        },
    );
    assert_eq!(h.on_message(&short).len(), 1);
    let hits = vec![SearchResult { filename: "a".to_string(), line: 1, column: 1, content: "x".to_string() }];
    let done = h.search_finished(Some(hits), "1");
    assert_eq!(done.len(), 2);
    assert!(matches!(&done[1], HandlerAction::Send { method, .. } if method == "completeSearch"));
    assert_eq!(h.search_finished(None, "1").len(), 1);
}

#[test]
fn literal_patterns_escape_every_meta_character() {
    let query = r"\.+*?()|[]{}^$#&-~ %/!";
    let p = search_pattern(query, SearchMode::Literal).unwrap().unwrap();
    let lines = vec![format!("x{}y", query), "\\.+*?".to_string()];
    let hits = NativeSearchHandler::search_lines("f", &lines, &p);
    let cols: Vec<(u32, u32)> = hits.iter().map(|h| (h.line, h.column)).collect();
    assert_eq!(cols, vec![(1, 2)]);
}
