//! Build status: by job and build number (the last build by default), or by
//! a queue item URL that `build` printed.

use vstd::prelude::*;

use crate::cli::StatusArgs;
use crate::commands::builds::{api_json_spec, api_json_url};
use crate::commands::logs::{build_path, build_path_spec};
use crate::error::AppError;
use crate::models::QueueItem;

verus! {

/// Where a status comes from.
#[derive(Debug, PartialEq, Eq)]
pub enum StatusPlan {
    /// Resolve the queue item at this URL to its build.
    FromQueue { queue_url: String },
    /// Read the build's JSON at `path`; a 404 there means `job` is missing.
    FromJob { job: String, path: String },
}

/// The path of a build's JSON status.
pub open spec fn build_status_path_spec(job: Seq<char>, build_number: Option<u64>) -> Seq<char> {
    build_path_spec(job, build_number) + "api/json"@
}

/// Where the status of a build is read from: the queue item when one is
/// given, else the job's build (the last one by default).
pub fn plan(job: String, build_number: Option<u64>, queue: Option<String>) -> (p: StatusPlan)
    ensures
        match queue {
            Some(u) => p == (StatusPlan::FromQueue { queue_url: u }),
            None => p matches StatusPlan::FromJob { job: j, path } && j == job
                && path@ == build_status_path_spec(job@, build_number),
        },
{
    match queue {
        Some(u) => StatusPlan::FromQueue { queue_url: u },
        None => {
            let mut path = build_path(job.as_str(), build_number);
            path.append("api/json");
            StatusPlan::FromJob { job, path }
        },
    }
}

/// What `jenkins status` reads.
pub fn run(args: StatusArgs) -> (p: StatusPlan)
    ensures
        match args.queue {
            Some(u) => p == (StatusPlan::FromQueue { queue_url: u }),
            None => p matches StatusPlan::FromJob { job: j, path } && j == args.job
                && path@ == build_status_path_spec(args.job@, args.build_number),
        },
{
    plan(args.job, args.build_number, args.queue)
}

/// The message for a queue item that has no build yet.
pub open spec fn still_queued_message(why: Option<String>) -> Seq<char> {
    match why {
        Some(w) => "Build is still queued: "@ + w@,
        None => "Build is still queued."@,
    }
}

/// Resolves a queue item read from `queue_url` to the JSON URL of its
/// build: a cancelled item and an item without a build yet are errors.
pub fn resolve_queue_item(queue_url: String, item: QueueItem) -> (r: Result<String, AppError>)
    ensures
        item.cancelled ==> r == Err::<String, AppError>(AppError::QueueCancelled(queue_url)),
        !item.cancelled && item.executable is Some ==> r is Ok && r->Ok_0@ == api_json_spec(
            item.executable->Some_0.url@,
        ),
        !item.cancelled && item.executable is None ==> r is Err && r->Err_0 is Api
            && r->Err_0->Api_0@ == still_queued_message(item.why),
{
    if item.cancelled {
        Err(AppError::QueueCancelled(queue_url))
    } else {
        match item.executable {
            Some(exe) => Ok(api_json_url(exe.url.as_str())),
            None => match item.why {
                Some(w) => {
                    let mut m = "Build is still queued: ".to_owned();
                    m.append(w.as_str());
                    Err(AppError::Api(m))
                },
                None => Err(AppError::Api("Build is still queued.".to_owned())),
            },
        }
    }
}

} // verus!
