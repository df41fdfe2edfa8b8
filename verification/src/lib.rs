//! Verified core of a code search tool: query parsing, search output
//! parsing, result bookkeeping, symbol indexing queues, caching and
//! display formatting.

pub mod text;
pub mod types;
pub mod message;
pub mod cli;
pub mod vimgrep;
pub mod ag;
pub mod rg;
pub mod ripgrep;
pub mod ranking;
pub mod fuzzy;
pub mod filepath;
pub mod result_handler;
pub mod pathutil;
pub mod symbol_index;
pub mod symbol_search;
pub mod cache_manager;
pub mod display;
pub mod tui;
pub mod jsonrpc;
pub mod native;
pub mod filters;
pub mod index_manager;
pub mod file_watcher;
pub mod watch;
pub mod backend;
pub mod indexer;
pub mod command;
pub mod echo;
