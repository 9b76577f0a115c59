//! The command line, as plain data.

use vstd::prelude::*;

verus! {

/// A parsed command line.
#[derive(Debug)]
pub struct Cli {
    pub global: GlobalArgs,
    pub command: Command,
}

/// Flags accepted anywhere on the command line.
#[derive(Debug, Clone, Copy, Default, PartialEq, Eq)]
pub struct GlobalArgs {
    /// Print raw JSON instead of colorized key/value output.
    pub json: bool,
}

/// The subcommands.
#[derive(Debug)]
pub enum Command {
    /// Authentication commands.
    Auth(AuthArgs),
    /// Trigger and watch job builds.
    Build(BuildArgs),
    /// Check build status.
    Status(StatusArgs),
    /// Job commands.
    Job(JobArgs),
    /// Show a build's console log.
    Logs(LogsArgs),
    /// Run an MCP server exposing Jenkins to AI assistants (stdio).
    Mcp(McpArgs),
}

#[derive(Debug, Clone, Copy, PartialEq, Eq)]
pub struct AuthArgs {
    pub cmd: Option<AuthCmd>,
}

#[derive(Debug, Clone, Copy, PartialEq, Eq)]
pub enum AuthCmd {
    /// Save auth info (Jenkins URL + user + API token). Default action.
    Save,
    /// Show saved auth info.
    Show,
    /// Verify saved credentials against the server.
    Whoami,
}

#[derive(Debug, PartialEq, Eq)]
pub struct BuildArgs {
    pub job: String,
    /// Build parameters as `key=value`; any of them implies
    /// `buildWithParameters`.
    pub params: Vec<String>,
    /// Wait for the build to finish, polling its status.
    pub wait: bool,
    /// Max seconds to wait when `wait` is set.
    pub timeout: u64,
    /// Seconds between polls when `wait` is set.
    pub poll: u64,
}

#[derive(Debug, PartialEq, Eq)]
pub struct StatusArgs {
    pub job: String,
    /// Build number (defaults to the last build).
    pub build_number: Option<u64>,
    /// Resolve status from a queue item URL instead of job+number.
    pub queue: Option<String>,
}

#[derive(Debug, PartialEq, Eq)]
pub struct LogsArgs {
    pub job: String,
    /// Build number (defaults to the last build).
    pub build_number: Option<u64>,
    /// Keep printing new output until the build ends.
    pub follow: bool,
    /// Seconds between polls when following.
    pub poll: u64,
}

#[derive(Debug, Clone, Copy, PartialEq, Eq)]
pub struct JobArgs {
    pub cmd: Option<JobCmd>,
}

#[derive(Debug, Clone, Copy, PartialEq, Eq)]
pub enum JobCmd {
    /// List jobs. Default action.
    List,
}

#[derive(Debug, Clone, Copy, PartialEq, Eq)]
pub struct McpArgs {
    pub cmd: Option<McpCmd>,
}

#[derive(Debug, Clone, Copy, PartialEq, Eq)]
pub enum McpCmd {
    /// Serve the MCP server over stdio. Default action.
    Serve,
}

} // verus!
