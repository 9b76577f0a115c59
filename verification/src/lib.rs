//! Verified core of a Jenkins command-line client and MCP server.

pub mod client;
pub mod commands;
pub mod cli;
pub mod config;
pub mod error;
pub mod json;
pub mod lines;
pub mod models;
pub mod output;
pub mod text;
