//! The errors the library's decisions can end in, and the message each one
//! is shown with.

use vstd::prelude::*;

use crate::text::{decimal, u64_to_decimal};

verus! {

/// Why a command failed.
#[derive(Debug, PartialEq, Eq)]
pub enum AppError {
    /// No auth configured yet: the user must run `jenkins auth save`.
    NoAuth,
    /// HTTP 401 from Jenkins.
    Unauthorized,
    /// HTTP 403 from Jenkins.
    Forbidden,
    /// HTTP 404 on a job-scoped path; carries the job's name.
    JobNotFound(String),
    /// The queue item was cancelled before a build started.
    QueueCancelled(String),
    /// The wait for a build ran out of time.
    WaitTimeout(String),
    /// Any other unsuccessful status, with the response body.
    Status(u16, String),
    /// Jenkins answered without a field or header it should have sent.
    Api(String),
    /// A required argument was missing or invalid.
    Usage(String),
}

/// The message an error is shown with.
pub open spec fn message_spec(e: AppError) -> Seq<char> {
    match e {
        AppError::NoAuth => "You have to configure auth info to use this command.\nRun \"jenkins auth save\" first."@,
        AppError::Unauthorized => "Authorization error (HTTP 401). Check your user and API token."@,
        AppError::Forbidden => "Forbidden (HTTP 403). Check your token's permissions, or whether CSRF crumb protection requires a different auth path."@,
        AppError::JobNotFound(job) => "Job not found: "@ + job@,
        AppError::QueueCancelled(what) => "Build was cancelled while queued: "@ + what@,
        AppError::WaitTimeout(what) => "Timed out waiting for the build to finish.\n"@ + what@,
        AppError::Status(code, body) => "An error occurred, status code: "@ + decimal(code as nat) + "\n"@ + body@,
        AppError::Api(msg) => msg@,
        AppError::Usage(msg) => msg@,
    }
}

impl AppError {
    /// The message this error is shown with.
    pub fn message(&self) -> (m: String)
        ensures
            m@ == message_spec(*self),
    {
        match self {
            AppError::NoAuth => "You have to configure auth info to use this command.\nRun \"jenkins auth save\" first.".to_owned(),
            AppError::Unauthorized => "Authorization error (HTTP 401). Check your user and API token.".to_owned(),
            AppError::Forbidden => "Forbidden (HTTP 403). Check your token's permissions, or whether CSRF crumb protection requires a different auth path.".to_owned(),
            AppError::JobNotFound(job) => {
                let mut m = "Job not found: ".to_owned();
                m.append(job.as_str());
                m
            },
            AppError::QueueCancelled(what) => {
                let mut m = "Build was cancelled while queued: ".to_owned();
                m.append(what.as_str());
                m
            },
            AppError::WaitTimeout(what) => {
                let mut m = "Timed out waiting for the build to finish.\n".to_owned();
                m.append(what.as_str());
                m
            },
            AppError::Status(code, body) => {
                let mut m = "An error occurred, status code: ".to_owned();
                let digits = u64_to_decimal(*code as u64);
                m.append(digits.as_str());
                m.append("\n");
                m.append(body.as_str());
                m
            },
            AppError::Api(msg) => msg.clone(),
            AppError::Usage(msg) => msg.clone(),
        }
    }
}

} // verus!
