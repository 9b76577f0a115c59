//! Console logs. Without `--follow` the whole log comes from `consoleText`.
//! With it, `logText/progressiveText?start={offset}` is polled: each round
//! prints only the new text, and the `X-Text-Size` / `X-More-Data` headers
//! give the next offset and whether the build is still writing.

use vstd::prelude::*;

use crate::client::{header_spec, RawResponse};
use crate::error::AppError;
use crate::text::{decimal, law_parse_formatted_u64, eq_ignore_ascii_case, eq_ignore_ascii_case_spec, parse_u64, parse_u64_spec, u64_to_decimal};

verus! {

/// The path of a build: `/job/{job}/{n}/`, or `/job/{job}/lastBuild/`.
pub open spec fn build_path_spec(job: Seq<char>, build_number: Option<u64>) -> Seq<char> {
    match build_number {
        Some(n) => "/job/"@ + job + "/"@ + decimal(n as nat) + "/"@,
        None => "/job/"@ + job + "/lastBuild/"@,
    }
}

/// The path of a build of `job`: build `build_number`, or the last build.
pub fn build_path(job: &str, build_number: Option<u64>) -> (p: String)
    ensures
        p@ == build_path_spec(job@, build_number),
{
    let mut p = "/job/".to_owned();
    p.append(job);
    match build_number {
        Some(n) => {
            p.append("/");
            let digits = u64_to_decimal(n);
            p.append(digits.as_str());
            p.append("/");
        },
        None => {
            p.append("/lastBuild/");
        },
    }
    p
}

/// The path of a build's whole console log.
pub fn console_path(build_path: &str) -> (p: String)
    ensures
        p@ == build_path@ + "consoleText"@,
{
    let mut p = build_path.to_owned();
    p.append("consoleText");
    p
}

/// The path that returns a build's console log from character `start` on.
pub fn progressive_path(build_path: &str, start: u64) -> (p: String)
    ensures
        p@ == build_path@ + "logText/progressiveText?start="@ + decimal(start as nat),
{
    let mut p = build_path.to_owned();
    p.append("logText/progressiveText?start=");
    let digits = u64_to_decimal(start);
    p.append(digits.as_str());
    p
}

/// A 404 on a job's path means the job does not exist; other errors pass.
pub fn job_not_found(err: AppError, job: &str) -> (r: AppError)
    ensures
        (err is Status && err->Status_0 == 404) ==> (r is JobNotFound && r->JobNotFound_0@ == job@),
        !(err is Status && err->Status_0 == 404) ==> r == err,
{
    match err {
        AppError::Status(404, _) => AppError::JobNotFound(job.to_owned()),
        other => other,
    }
}

/// Where following a log goes after one response.
#[derive(Debug, Clone, Copy, PartialEq, Eq)]
pub struct FollowStep {
    /// The offset to ask for next.
    pub next_start: u64,
    /// Whether the build may still write more.
    pub more_data: bool,
}

/// The next offset: `X-Text-Size` when it holds a number, else unchanged.
pub open spec fn next_start_spec(start: u64, headers: Seq<(String, Option<String>)>) -> u64 {
    match header_spec(headers, "X-Text-Size"@) {
        Some(v) => match parse_u64_spec(v) {
            Some(n) => n,
            None => start,
        },
        None => start,
    }
}

/// More output is coming exactly when `X-More-Data` is `true` (any ASCII
/// case).
pub open spec fn more_data_spec(headers: Seq<(String, Option<String>)>) -> bool {
    match header_spec(headers, "X-More-Data"@) {
        Some(v) => eq_ignore_ascii_case_spec(v, seq!['t', 'r', 'u', 'e']),
        None => false,
    }
}

/// Reads one progressive-log response that was asked for from `start`.
pub fn follow_step(start: u64, resp: &RawResponse) -> (s: FollowStep)
    ensures
        s.next_start == next_start_spec(start, resp.headers@),
        s.more_data == more_data_spec(resp.headers@),
        forall|n: u64| header_spec(resp.headers@, "X-Text-Size"@) == Some(decimal(n as nat))
            ==> s.next_start == n,
        header_spec(resp.headers@, "X-Text-Size"@) is None ==> s.next_start == start,
        header_spec(resp.headers@, "X-More-Data"@) is None ==> !s.more_data,
{
    let next_start = match resp.header("X-Text-Size") {
        Some(v) => match parse_u64(v) {
            Some(n) => n,
            None => start,
        },
        None => start,
    };
    proof {
        reveal_strlit("true");
        assert("true"@ =~= seq!['t', 'r', 'u', 'e']);
    }
    let more_data = match resp.header("X-More-Data") {
        Some(v) => eq_ignore_ascii_case(v, "true"),
        None => false,
    };
    proof {
        assert forall|n: u64| header_spec(resp.headers@, "X-Text-Size"@) == Some(decimal(n as nat))
            implies next_start == n by {
            law_offset_follows_text_size(start, resp.headers@, n);
        }
    }
    FollowStep { next_start, more_data }
}

/// Law: whenever `X-Text-Size` holds the decimal spelling of an offset,
/// following goes on from exactly that offset, however large it is.
pub proof fn law_offset_follows_text_size(start: u64, headers: Seq<(String, Option<String>)>, n: u64)
    requires
        header_spec(headers, "X-Text-Size"@) == Some(decimal(n as nat)),
    ensures
        next_start_spec(start, headers) == n,
{
    law_parse_formatted_u64(n);
}

} // verus!
