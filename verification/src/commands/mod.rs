//! The decisions behind each command; the commands' input and output live
//! with the caller.

pub mod auth;
pub mod builds;
pub mod job;
pub mod logs;
pub mod mcp;
pub mod status;
