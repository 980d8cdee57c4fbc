//! The logic of the Refraction Discord bot for the Prism Launcher community:
//! log analysis, tags, help, moderation and event decisions, each with its
//! contract. The Discord client runs around it.
pub mod analyze_logs;
pub mod api;
pub mod commands;
pub mod config;
pub mod consts;
pub mod embed;
pub mod error_handler;
pub mod events;
pub mod help;
pub mod heuristics;
pub mod issue_text;
pub mod issues;
pub mod launcher_version;
pub mod moderation;
pub mod providers;
pub mod regex_match;
pub mod resolve_message;
pub mod storage;
pub mod tags;
pub mod text;
pub mod utils;
pub mod welcome;
