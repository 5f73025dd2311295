//! The logic of insh, a graphical, interactive, terminal environment: what each part of the
//! screen does with what is typed, how what it shows is laid out, and how its settings, history
//! and messages to the daemon are kept.

pub mod text;
pub mod command_message;
pub mod keys;
pub mod ids;
pub mod requests;
pub mod config;
pub mod footer;
pub mod history;
pub mod args;
pub mod color;
pub mod data;
pub mod search_completer;
pub mod phrase;
pub mod transcript;
pub mod ansi_escaped_text;
pub mod frame;
pub mod input;
pub mod entry;
pub mod paths;
pub mod browser;
pub mod commands;
pub mod finder_contents;
pub mod finder;
pub mod searcher_contents;
pub mod searcher;
pub mod dir_bar;
pub mod browse;
pub mod file_creator;
pub mod history_searcher;
pub mod chat;
pub mod insh;
pub mod listing;
pub mod hit_listing;
pub mod found_listing;
pub mod ai;
pub mod wrapping;
pub mod markdown;
pub mod markdown_read;
