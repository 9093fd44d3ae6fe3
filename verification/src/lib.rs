//! The verified core of the OpenWarp terminal: quoting and output mapping for
//! git and `gh` commands run on remote hosts, Markdown detection for the file
//! viewer, the slash command menu's availability rules, and the disabled
//! server API of this build.
pub mod ai_client;
pub mod code_review;
pub mod git;
pub mod hydrator;
pub mod markdown;
pub mod server_api;
pub mod shell;
pub mod slash_commands;
