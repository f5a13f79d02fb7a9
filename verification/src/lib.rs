//! Verified core of the `alberto` client for NodeService.
pub mod cli;
pub mod client;
pub mod commands;
pub mod config;
pub mod config_cmd;
pub mod download;
pub mod json;
pub mod pdf;
pub mod table;
pub mod text;
pub mod tui;
pub mod upload;
