//! The Jenkins REST API response shapes the commands read.

use vstd::prelude::*;

verus! {

/// A queue item, read while polling `{queueUrl}api/json` after triggering a
/// build. `executable` is `None` until Jenkins assigns an executor.
#[derive(Debug, PartialEq, Eq)]
pub struct QueueItem {
    pub cancelled: bool,
    pub executable: Option<Executable>,
    pub why: Option<String>,
}

/// The build a queue item turned into.
#[derive(Debug, PartialEq, Eq)]
pub struct Executable {
    pub number: u64,
    pub url: String,
}

/// A build's status, from `/job/{job}/{n}/api/json` or `/lastBuild/api/json`.
#[derive(Debug, PartialEq, Eq)]
pub struct BuildInfo {
    pub building: bool,
    pub result: Option<String>,
    pub number: u64,
    pub url: String,
    /// Milliseconds.
    pub duration: i64,
    /// Milliseconds.
    pub estimated_duration: i64,
}

/// One job of the job list.
#[derive(Debug, PartialEq, Eq)]
pub struct JobSummary {
    pub name: String,
    pub color: Option<String>,
    pub url: String,
}

} // verus!
