use fae::ag::{AgHandler, ag_command_line};
use fae::rg::{RipgrepOutputHandler, RipgrepCommandFactory};
use fae::rg;
use fae::ripgrep::{RipgrepHandler, ripgrep_command_line};
use fae::types::{SearchMode, SearchParams, FaeMessage, HandlerAction};
use fae::message::Message;

#[test]
fn test_parse_ag_line() {
    let handler = AgHandler::new();
    let line = "src/main.rs:42:15:fn main() {";
    let result = handler.parse_ag_line(line).unwrap();
    assert_eq!(result.filename, "src/main.rs");
    assert_eq!(result.line, 42);
    assert_eq!(result.column, 15);
    assert_eq!(result.content, "fn main() {");
}

#[test]
fn test_parse_ag_line_with_colons_in_content() {
    let handler = AgHandler::new();
    let line = "config.toml:10:5:server = \"localhost:8080\"";
    let result = handler.parse_ag_line(line).unwrap();
    assert_eq!(result.filename, "config.toml");
    assert_eq!(result.line, 10);
    assert_eq!(result.column, 5);
    assert_eq!(result.content, "server = \"localhost:8080\"");
}

#[test]
fn test_parse_ag_line_invalid_format() {
    let handler = AgHandler::new();
    assert!(handler.parse_ag_line("invalidformat").is_none());
    assert!(handler.parse_ag_line("file.rs:42").is_none());
    assert!(handler.parse_ag_line("file.rs:not_a_number:15:content").is_none());
    assert!(handler.parse_ag_line("file.rs:42:not_a_number:content").is_none());
}

#[test]
fn test_parse_rg_line() {
    let line = "src/main.rs:42:15:    let result = search_function();";
    let result = RipgrepOutputHandler::parse_rg_line(line);
    assert!(result.is_some());
    let result = result.unwrap();
    assert_eq!(result.filename, "src/main.rs");
    assert_eq!(result.line, 42);
    assert_eq!(result.offset, 15);
    assert_eq!(result.content, "    let result = search_function();");
}

#[test]
fn test_parse_rg_line_invalid() {
    let result = RipgrepOutputHandler::parse_rg_line("invalid format");
    assert!(result.is_none());
}

#[test]
fn test_search_mode_literal() {
    let factory = RipgrepCommandFactory::new(rg::SearchMode::Literal);
    let cmd = factory.create_command("test query".to_string());
    let cmd_debug = format!("{:?}", cmd);
    assert!(cmd_debug.contains("--fixed-strings"));
}

#[test]
fn test_search_mode_regexp() {
    let factory = RipgrepCommandFactory::new(rg::SearchMode::Regexp);
    let cmd = factory.create_command("test.*pattern".to_string());
    let cmd_debug = format!("{:?}", cmd);
    assert!(!cmd_debug.contains("--fixed-strings"));
}

#[test]
fn test_parse_ripgrep_line() {
    let handler = RipgrepHandler::new();
    let line = "src/main.rs:42:15:fn main() {";
    let result = handler.parse_ripgrep_line(line).unwrap();
    assert_eq!(result.filename, "src/main.rs");
    assert_eq!(result.line, 42);
    assert_eq!(result.offset, 15);
    assert_eq!(result.content, "fn main() {");
}

#[test]
fn test_parse_ripgrep_line_with_colons_in_content() {
    let handler = RipgrepHandler::new();
    let line = "config.toml:10:5:server = \"localhost:8080\"";
    let result = handler.parse_ripgrep_line(line).unwrap();
    assert_eq!(result.filename, "config.toml");
    assert_eq!(result.line, 10);
    assert_eq!(result.offset, 5);
    assert_eq!(result.content, "server = \"localhost:8080\"");
}

#[test]
fn test_parse_ripgrep_line_invalid_format() {
    let handler = RipgrepHandler::new();
    assert!(handler.parse_ripgrep_line("invalidformat").is_none());
    assert!(handler.parse_ripgrep_line("file.rs:42").is_none());
    assert!(handler.parse_ripgrep_line("file.rs:not_a_number:15:content").is_none());
    assert!(handler.parse_ripgrep_line("file.rs:42:not_a_number:content").is_none());
}

#[test]
fn parse_rejects_line_numbers_beyond_u32() {
    let handler = AgHandler::new();
    assert!(handler.parse_ag_line("f.rs:4294967296:1:x").is_none());
    let r = handler.parse_ag_line("f.rs:4294967295:+7:x").unwrap();
    assert_eq!(r.line, 4294967295);
    assert_eq!(r.column, 7);
}

#[test]
fn ag_command_line_uses_vimgrep_output() {
    let params = SearchParams { query: "needle".to_string(), mode: SearchMode::Literal };
    let cmd = ag_command_line(&params, "./src");
    assert_eq!(cmd.program, "ag");
    assert!(cmd.args.contains(&"needle".to_string()));
    assert!(cmd.args.contains(&"./src".to_string()));
}

#[test]
fn ripgrep_command_line_names_rg() {
    let params = SearchParams { query: "needle".to_string(), mode: SearchMode::Regexp };
    let cmd = ripgrep_command_line(&params, "./src");
    assert_eq!(cmd.program, "rg");
    assert!(!cmd.args.contains(&"--fixed-strings".to_string()));
}

#[test]
fn ag_handler_clears_then_spawns_for_literal_search() {
    let mut handler = AgHandler::new();
    let msg = Message::new(
        "updateSearchParams",
        FaeMessage::UpdateSearchParams {
            params: SearchParams { query: "abc".to_string(), mode: SearchMode::Literal },
            request_id: "r1".to_string(),
        },
    );
    let actions = handler.on_message(msg);
    assert_eq!(actions.len(), 2);
    match &actions[0] {
        HandlerAction::Send { method, payload } => {
            assert_eq!(method, "clearResults");
            assert!(matches!(payload, FaeMessage::ClearResults));
        }
        _ => panic!("expected a send"),
    }
    assert!(matches!(&actions[1], HandlerAction::Spawn(p) if p.query == "abc"));
    assert_eq!(handler.request_id, "r1");
}

#[test]
fn ag_handler_completes_unsupported_modes() {
    let mut handler = AgHandler::new();
    let msg = Message::new(
        "updateSearchParams",
        FaeMessage::UpdateSearchParams {
            params: SearchParams { query: "abc".to_string(), mode: SearchMode::Symbol },
            request_id: "r2".to_string(),
        },
    );
    let actions = handler.on_message(msg);
    assert_eq!(actions.len(), 2);
    assert!(matches!(&actions[1], HandlerAction::Send { method, .. } if method == "completeSearch"));
}
