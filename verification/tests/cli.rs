use fae::cli::{parse_query_with_mode, create_search_params, SearchStrategy, ContentStrategy, FileStrategy,
    RegexStrategy, SymbolStrategy};
use fae::types::SearchMode;
use fae::display::{SearchResult, DisplayInfo};

#[test]
fn test_parse_query_literal_mode() {
    let (mode, query) = parse_query_with_mode("hello world");
    assert_eq!(mode, SearchMode::Literal);
    assert_eq!(query, "hello world");
}

#[test]
fn test_parse_query_symbol_mode() {
    let (mode, query) = parse_query_with_mode("#my_function");
    assert_eq!(mode, SearchMode::Symbol);
    assert_eq!(query, "my_function");
    let (mode, query) = parse_query_with_mode("#");
    assert_eq!(mode, SearchMode::Symbol);
    assert_eq!(query, "");
}

#[test]
fn test_parse_query_variable_mode() {
    let (mode, query) = parse_query_with_mode("$my_variable");
    assert_eq!(mode, SearchMode::Variable);
    assert_eq!(query, "my_variable");
    let (mode, query) = parse_query_with_mode("$MY_CONSTANT");
    assert_eq!(mode, SearchMode::Variable);
    assert_eq!(query, "MY_CONSTANT");
}

#[test]
fn test_parse_query_filepath_mode() {
    let (mode, query) = parse_query_with_mode("@main.rs");
    assert_eq!(mode, SearchMode::Filepath);
    assert_eq!(query, "main.rs");
    let (mode, query) = parse_query_with_mode("@src/lib.rs");
    assert_eq!(mode, SearchMode::Filepath);
    assert_eq!(query, "src/lib.rs");
}

#[test]
fn test_parse_query_regexp_mode() {
    let (mode, query) = parse_query_with_mode("/fn \\w+");
    assert_eq!(mode, SearchMode::Regexp);
    assert_eq!(query, "fn \\w+");
    let (mode, query) = parse_query_with_mode("/[A-Z]+_[A-Z]+");
    assert_eq!(mode, SearchMode::Regexp);
    assert_eq!(query, "[A-Z]+_[A-Z]+");
}

#[test]
fn test_prefix_edge_cases() {
    let (mode, query) = parse_query_with_mode("##nested_symbol");
    assert_eq!(mode, SearchMode::Symbol);
    assert_eq!(query, "#nested_symbol");
    let (mode, query) = parse_query_with_mode("#$mixed");
    assert_eq!(mode, SearchMode::Symbol);
    assert_eq!(query, "$mixed");
    let (mode, query) = parse_query_with_mode("email@domain.com");
    assert_eq!(mode, SearchMode::Literal);
    assert_eq!(query, "email@domain.com");
}

#[test]
fn test_create_search_params() {
    let params = create_search_params("hello");
    assert_eq!(params.mode, SearchMode::Literal);
    assert_eq!(params.query, "hello");
    let params = create_search_params("#function_name");
    assert_eq!(params.mode, SearchMode::Symbol);
    assert_eq!(params.query, "function_name");
    let params = create_search_params("$variable_name");
    assert_eq!(params.mode, SearchMode::Variable);
    assert_eq!(params.query, "variable_name");
}

#[test]
fn parse_query_empty_and_unicode() {
    let (mode, query) = parse_query_with_mode("");
    assert_eq!(mode, SearchMode::Literal);
    assert_eq!(query, "");
    let (mode, query) = parse_query_with_mode("/ü+");
    assert_eq!(mode, SearchMode::Regexp);
    assert_eq!(query, "ü+");
}

struct MockStrategy;

impl SearchStrategy for MockStrategy {
    fn name(&self) -> &'static str {
        "mock"
    }

    fn supports_file_grouping(&self) -> bool {
        true
    }
}

impl MockStrategy {
    fn create_stream(&self, _project_root: &str, _query: &str) -> Vec<SearchResult> {
        vec![SearchResult {
            file_path: "test.rs".to_string(),
            line: 1,
            column: 1,
            display_info: DisplayInfo::Content {
                line_content: "test content".to_string(),
                match_start: 0,
                match_end: 4,
            },
        }]
    }
}

#[test]
fn test_mock_strategy_basic() {
    let strategy = MockStrategy;
    assert_eq!(strategy.name(), "mock");
    assert!(strategy.supports_file_grouping());
}

#[test]
fn test_mock_strategy_stream() {
    let strategy = MockStrategy;
    let results = strategy.create_stream("/test", "test");
    assert_eq!(results.len(), 1);
    assert_eq!(results[0].file_path, "test.rs");
}

#[test]
fn test_content_strategy_basic() {
    let strategy = ContentStrategy;
    assert_eq!(strategy.name(), "content");
    assert!(strategy.supports_file_grouping());
}

#[test]
fn test_file_strategy_basic() {
    let strategy = FileStrategy;
    assert_eq!(strategy.name(), "file");
    assert!(!strategy.supports_file_grouping());
}

#[test]
fn test_regex_strategy_basic() {
    let strategy = RegexStrategy;
    assert_eq!(strategy.name(), "regex");
    assert!(strategy.supports_file_grouping());
}

#[test]
fn test_symbol_strategy_basic() {
    let strategy = SymbolStrategy;
    assert_eq!(strategy.name(), "symbol");
    assert!(strategy.supports_file_grouping());
}
