use fae::display::{DisplayFormatter, CliFormatter, TuiFormatter, ContentHeadingFormatter, ContentInlineFormatter,
    FileHeadingFormatter, FileInlineFormatter, ResultFormatter, SearchResult, DisplayInfo, Color, truncate_path,
    create_context_preview};
use fae::display::utils::{color_to_ansi, apply_color, get_relative_path};
use fae::types::SymbolType;

fn display_formatter() -> DisplayFormatter {
    DisplayFormatter::with_settings("/test/project".to_string(), 100, false, true)
}

fn symbol_result() -> SearchResult {
    SearchResult {
        file_path: "/test/project/src/main.rs".to_string(),
        line: 42,
        column: 8,
        display_info: DisplayInfo::Symbol { name: "test_function".to_string(), symbol_type: SymbolType::Function },
    }
}

fn file_result(path: &str, is_directory: bool) -> SearchResult {
    SearchResult {
        file_path: format!("/test/project/{}", path),
        line: 1,
        column: 1,
        display_info: DisplayInfo::File { path: path.to_string(), is_directory },
    }
}

#[test]
fn display_test_path_truncation() {
    let formatter = display_formatter();
    let short_path = "src/main.rs";
    assert_eq!(formatter.truncate_path(short_path), "src/main.rs");
    let long_path = "src/very/deep/nested/directory/structure/with/many/levels/file.rs";
    let truncated = formatter.truncate_path(long_path);
    assert!(truncated.len() < long_path.len());
    assert!(truncated.contains("..."));
    assert!(truncated.ends_with("file.rs"));
}

#[test]
fn display_test_context_preview() {
    let formatter = display_formatter();
    let line = "    const result = calculateSomething(input);";
    let preview = formatter.create_context_preview(line, 19, 35, 50);
    assert!(preview.contains("calculateSomething"));
    assert!(preview.len() <= 50);
}

#[test]
fn display_test_symbol_formatting() {
    let formatter = display_formatter();
    let formatted = formatter.format_result(&symbol_result());
    assert!(formatted.left_part.contains("🔧"));
    assert!(formatted.left_part.contains("test_function"));
    assert!(formatted.right_part.contains("src/main.rs:42"));
}

#[test]
fn mod_test_path_truncation() {
    assert_eq!(truncate_path("src/main.rs"), "src/main.rs");
    let long_path = "src/very/deep/nested/directory/structure/with/many/levels/file.rs";
    let truncated = truncate_path(long_path);
    assert!(truncated.len() < long_path.len());
    assert!(truncated.contains("..."));
    assert!(truncated.ends_with("file.rs"));
}

#[test]
fn mod_test_context_preview() {
    let line = "    const result = calculateSomething(input);";
    let preview = create_context_preview(line, 19, 35, 50);
    assert!(preview.contains("calculateSomething"));
    assert!(preview.len() <= 50);
}

#[test]
fn mod_test_symbol_formatting() {
    let formatter = DisplayFormatter::new_for_cli("/test/project".to_string(), 80, false);
    let formatted = formatter.format_result(&symbol_result());
    assert!(formatted.left_part.contains("🔧"));
    assert!(formatted.left_part.contains("test_function"));
    assert!(formatted.right_part.contains("src/main.rs:42"));
}

#[test]
fn test_file_heading_formatter() {
    let formatter = FileHeadingFormatter::new("/test/project".to_string());
    let formatted = formatter.format_result(&file_result("src/main.rs", false));
    assert_eq!(formatted.left_part, "📄  src/main.rs");
    let formatted = formatter.format_result(&file_result("src/utils", true));
    assert_eq!(formatted.left_part, "📁  src/utils");
}

#[test]
fn test_file_inline_formatter() {
    let formatter = FileInlineFormatter::new("/test/project".to_string());
    let formatted = formatter.format_result(&file_result("src/main.rs", false));
    assert_eq!(formatted.left_part, "src/main.rs");
    let formatted = formatter.format_result(&file_result("src/utils", true));
    assert_eq!(formatted.left_part, "src/utils/");
}

#[test]
fn test_file_formatter_coloring() {
    let heading_formatter = FileHeadingFormatter::new("/test".to_string());
    let inline_formatter = FileInlineFormatter::new("/test".to_string());
    let dir_result = file_result("docs", true);
    let heading_formatted = heading_formatter.format_result(&dir_result);
    let heading_colored = heading_formatter.to_colored_string(&heading_formatted);
    assert!(heading_colored.contains("\x1b[34m"));
    let inline_formatted = inline_formatter.format_result(&dir_result);
    let inline_colored = inline_formatter.to_colored_string(&inline_formatted);
    assert!(inline_colored.contains("\x1b[34m"));
}

#[test]
fn truncation_keeps_short_and_two_part_paths() {
    let long_two = "a".repeat(60) + "/" + &"b".repeat(10);
    assert_eq!(truncate_path(&long_two), long_two);
    let abs = format!("/{}/x/{}", "d".repeat(30), "f".repeat(30));
    assert_eq!(truncate_path(&abs), format!(".../{}", "f".repeat(30)));
    let rel = format!("{}/x/{}/f.rs", "d".repeat(30), "y".repeat(20));
    assert_eq!(truncate_path(&rel), format!("{}/.../f.rs", "d".repeat(30)));
    // exactly 50 bytes stays
    let fifty = format!("{}/{}/{}", "a".repeat(16), "b".repeat(16), "c".repeat(16));
    assert_eq!(fifty.len(), 50);
    assert_eq!(truncate_path(&fifty), fifty);
}

#[test]
fn preview_cases() {
    assert_eq!(create_context_preview("anything", 0, 3, 9), "...");
    // a match as wide as the preview is cut from its start
    assert_eq!(create_context_preview("0123456789abcdef", 2, 14, 10), "2345678...");
    // both sides cut
    let line = "aaaaaaaaaaMATCHbbbbbbbbbb";
    assert_eq!(create_context_preview(line, 10, 15, 11), "...aaaMATCHbbb...");
    // tabs widened and whitespace trimmed
    assert_eq!(create_context_preview("\tx", 1, 2, 20), "x");
}

#[test]
fn colors_and_paths() {
    assert_eq!(color_to_ansi(&Color::Reset), "\x1b[0m");
    assert_eq!(color_to_ansi(&Color::Gray), "\x1b[90m");
    assert_eq!(color_to_ansi(&Color::Blue), "\x1b[34m");
    assert_eq!(color_to_ansi(&Color::Green), "\x1b[32m");
    assert_eq!(color_to_ansi(&Color::Yellow), "\x1b[33m");
    assert_eq!(color_to_ansi(&Color::Red), "\x1b[31m");
    assert_eq!(color_to_ansi(&Color::Cyan), "\x1b[36m");
    assert_eq!(color_to_ansi(&Color::White), "\x1b[37m");
    assert_eq!(apply_color("x", &Color::Red, true), "\x1b[31mx\x1b[0m");
    assert_eq!(apply_color("x", &Color::Red, false), "x");
    assert_eq!(get_relative_path("/a/b/c.rs", "/a"), "b/c.rs");
    assert_eq!(get_relative_path("/x/c.rs", "/a"), "/x/c.rs");
    assert_eq!(get_relative_path("/ab/c.rs", "/a"), "/ab/c.rs");
}

#[test]
fn column_layout_and_padding() {
    let formatter = DisplayFormatter::with_settings("/p".to_string(), 80, false, false);
    let r = SearchResult {
        file_path: "/p/src/a.rs".to_string(),
        line: 3,
        column: 7,
        display_info: DisplayInfo::Content { line_content: "\tlet x = 1;  ".to_string(), match_start: 5, match_end: 6 },
    };
    let f = formatter.format_result(&r);
    assert_eq!(f.left_part, "src/a.rs:3:7");
    assert_eq!(f.right_part, "let x = 1;");
    let line = formatter.to_colored_string(&f);
    assert_eq!(line, format!("{:<40} {}", "src/a.rs:3:7", "let x = 1;"));
    let colored = DisplayFormatter::with_settings("/p".to_string(), 80, true, false).to_colored_string(&f);
    assert_eq!(colored, format!("\x1b[37m{:<40}\x1b[0m \x1b[34mlet x = 1;\x1b[0m", "src/a.rs:3:7"));
    let file = SearchResult {
        file_path: "/p/src/a.rs".to_string(),
        line: 1,
        column: 1,
        display_info: DisplayInfo::File { path: "src/a.rs".to_string(), is_directory: false },
    };
    let f = formatter.format_result(&file);
    assert_eq!(f.left_part, "📄 src/a.rs");
    assert_eq!(f.right_part, "src");
    let top = SearchResult {
        file_path: "a.rs".to_string(),
        line: 1,
        column: 1,
        display_info: DisplayInfo::File { path: "a.rs".to_string(), is_directory: false },
    };
    assert_eq!(formatter.format_result(&top).right_part, "");
}

#[test]
fn cli_and_tui_layouts() {
    let cli = CliFormatter::new("/p".to_string());
    let sym = SearchResult {
        file_path: "/p/src/a.rs".to_string(),
        line: 9,
        column: 2,
        display_info: DisplayInfo::Symbol { name: "go".to_string(), symbol_type: SymbolType::Function },
    };
    let f = cli.format_result(&sym);
    assert_eq!(f.left_part, "🔧go:src/a.rs:9");
    assert_eq!(f.right_part, "");
    assert_eq!(cli.to_colored_string(&f), "🔧go:src/a.rs:9");
    let tui = TuiFormatter::new("/p".to_string(), 60, false);
    let content = SearchResult {
        file_path: "/p/src/a.rs".to_string(),
        line: 1,
        column: 1,
        display_info: DisplayInfo::Content { line_content: "x".repeat(100), match_start: 50, match_end: 52 },
    };
    let f = tui.format_result(&content);
    assert_eq!(f.left_part, "src/a.rs:1:1");
    assert!(f.right_part.starts_with("...") && f.right_part.ends_with("..."));
}

#[test]
fn content_formatters_highlight_the_match() {
    let heading = ContentHeadingFormatter::new("/p".to_string());
    let r = SearchResult {
        file_path: "/p/a.rs".to_string(),
        line: 4,
        column: 3,
        display_info: DisplayInfo::Content { line_content: "  foo bar".to_string(), match_start: 2, match_end: 5 },
    };
    let f = heading.format_result(&r);
    assert_eq!(f.left_part, "4:\x1b[37m\x1b[33mfoo\x1b[0m\x1b[37m bar");
    assert_eq!(f.right_part, "a.rs");
    assert_eq!(heading.to_colored_string(&f), "4:\x1b[37m\x1b[33mfoo\x1b[0m\x1b[37m bar\x1b[0m");
    let inline = ContentInlineFormatter::new("/p".to_string(), false);
    let f = inline.format_result(&r);
    assert_eq!(f.left_part, "a.rs:4:foo bar");
    assert_eq!(inline.to_colored_string(&f), "a.rs:4:foo bar");
    // a match inside a multi-byte character widens to the whole character
    let wide = SearchResult {
        file_path: "/p/a.rs".to_string(),
        line: 1,
        column: 1,
        display_info: DisplayInfo::Content { line_content: "aéb".to_string(), match_start: 2, match_end: 3 },
    };
    let f = heading.format_result(&wide);
    assert_eq!(f.left_part, "1:\x1b[37ma\x1b[33mé\x1b[0m\x1b[37mb");
}

#[test]
fn regex_hits_laid_out_like_content_hits() {
    let f = DisplayFormatter::new("/p".to_string(), 80, false);
    let mk = |info: DisplayInfo| SearchResult { file_path: "/p/src/a.rs".to_string(), line: 4, column: 2, display_info: info };
    let line = "    let value = compute(42);".to_string();
    let a = f.format_result(&mk(DisplayInfo::Regex {
        line_content: line.clone(),
        matched_text: "compute".to_string(),
        match_start: 16,
        match_end: 23,
    }));
    let b = f.format_result(&mk(DisplayInfo::Content { line_content: line, match_start: 16, match_end: 23 }));
    assert_eq!(a.left_part, b.left_part);
    assert_eq!(a.right_part, b.right_part);
    let tui = TuiFormatter::new("/p".to_string(), 80, false);
    let t = tui.format_result(&mk(DisplayInfo::Content { line_content: "    let value = compute(42);".to_string(),
        match_start: 16, match_end: 23 }));
    assert_eq!(t.left_part, b.left_part);
    assert_eq!(t.right_part, b.right_part);
    assert_eq!(tui.to_colored_string(&t), f.to_colored_string(&b));
}

#[test]
fn column_cli_pads_left_column_to_fifty() {
    let cli = fae::display::column_cli::CliFormatter::new("/p".to_string(), false);
    let r = SearchResult {
        file_path: "/p/src/a.rs".to_string(),
        line: 3,
        column: 5,
        display_info: DisplayInfo::Content { line_content: "\tlet x = 1;  ".to_string(), match_start: 5, match_end: 6 },
    };
    let f = cli.format_result(&r);
    assert_eq!(f.left_part, "src/a.rs:3:5");
    assert_eq!(f.right_part, "let x = 1;");
    let line = cli.to_colored_string(&f);
    assert_eq!(line, format!("{:<50} {}", "src/a.rs:3:5", "let x = 1;"));
    let d = DisplayFormatter::new_for_cli("/p".to_string(), 80, false);
    let g = d.format_result(&r);
    assert_eq!(g.left_part, f.left_part);
    assert_eq!(g.right_part, f.right_part);
    assert_eq!(d.to_colored_string(&g), format!("{:<40} {}", "src/a.rs:3:5", "let x = 1;"));
}
