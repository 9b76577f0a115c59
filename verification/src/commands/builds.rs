//! Triggering builds and waiting for them.
//!
//! `POST /job/{job}/build` (or `buildWithParameters`) answers with the queue
//! item's URL in its `Location` header. Waiting then polls
//! `{queueUrl}api/json` until Jenkins assigns an executable (or reports the
//! item cancelled), and then `{buildUrl}api/json` until `building` is false.

use vstd::prelude::*;

use crate::client::{header_spec, RawResponse};
use crate::error::AppError;
use crate::models::{BuildInfo, QueueItem};
use crate::text::{chars_of, string_from_chars};

verus! {

/// How long `--wait` waits unless told otherwise, in seconds.
pub const DEFAULT_WAIT_TIMEOUT_SECS: u64 = 1800;

/// Seconds between polls unless told otherwise.
pub const DEFAULT_POLL_SECS: u64 = 3;

/// The position of the first `c` in `s`.
pub open spec fn first_index_of(s: Seq<char>, c: char) -> Option<int>
    decreases s.len(),
{
    if s.len() == 0 {
        None
    } else if s[0] == c {
        Some(0)
    } else {
        match first_index_of(s.drop_first(), c) {
            Some(i) => Some(i + 1),
            None => None,
        }
    }
}

/// A `key=value` parameter split at its first `=`.
pub open spec fn split_param_spec(s: Seq<char>) -> Option<(Seq<char>, Seq<char>)> {
    match first_index_of(s, '=') {
        Some(i) => Some((s.take(i), s.skip(i + 1))),
        None => None,
    }
}

/// The message for a parameter without `=`.
pub open spec fn invalid_param_message(s: Seq<char>) -> Seq<char> {
    "Invalid build parameter '"@ + s + "': expected key=value."@
}

proof fn lemma_first_index_of(s: Seq<char>, c: char)
    ensures
        match first_index_of(s, c) {
            Some(i) => 0 <= i < s.len() && s[i] == c && forall|j: int| 0 <= j < i ==> s[j] != c,
            None => forall|j: int| 0 <= j < s.len() ==> s[j] != c,
        },
    decreases s.len(),
{
    if s.len() > 0 && s[0] != c {
        lemma_first_index_of(s.drop_first(), c);
        assert forall|j: int| 0 < j < s.len() implies s[j] == s.drop_first()[j - 1] by {}
    }
}

proof fn lemma_first_index_of_unique(s: Seq<char>, c: char, i: int)
    requires
        0 <= i < s.len(),
        s[i] == c,
        forall|j: int| 0 <= j < i ==> s[j] != c,
    ensures
        first_index_of(s, c) == Some(i),
    decreases s.len(),
{
    if i > 0 {
        assert forall|j: int| 0 <= j < i - 1 implies s.drop_first()[j] != c by {
            assert(s.drop_first()[j] == s[j + 1]);
        }
        lemma_first_index_of_unique(s.drop_first(), c, i - 1);
    }
}

/// Splits a `key=value` parameter at its first `=`.
pub fn split_param(s: &str) -> (r: Option<(String, String)>)
    ensures
        match r {
            Some(kv) => split_param_spec(s@) == Some((kv.0@, kv.1@)),
            None => split_param_spec(s@) is None,
        },
{
    let v = chars_of(s);
    let mut i: usize = 0;
    while i < v.len()
        invariant
            v@ == s@,
            0 <= i <= v@.len(),
            forall|j: int| 0 <= j < i ==> v@[j] != '=',
        decreases v.len() - i,
    {
        if v[i] == '=' {
            proof {
                lemma_first_index_of_unique(s@, '=', i as int);
            }
            let key = string_from_chars(&v, 0, i);
            let value = string_from_chars(&v, i + 1, v.len());
            assert(s@.take(i as int) == v@.subrange(0, i as int));
            assert(s@.skip(i + 1) == v@.subrange(i + 1, v@.len() as int));
            return Some((key, value));
        }
        i = i + 1;
    }
    proof {
        lemma_first_index_of(s@, '=');
    }
    None
}

/// What triggering a build sends: the path to `POST`, and the form fields
/// when there are parameters.
#[derive(Debug, PartialEq, Eq)]
pub struct TriggerRequest {
    pub path: String,
    pub form: Option<Vec<(String, String)>>,
}

/// The path that triggers a build without parameters.
pub open spec fn build_trigger_path(job: Seq<char>) -> Seq<char> {
    "/job/"@ + job + "/build"@
}

/// The path that triggers a build with parameters.
pub open spec fn build_with_parameters_path(job: Seq<char>) -> Seq<char> {
    "/job/"@ + job + "/buildWithParameters"@
}

/// The form fields as plain pairs.
pub open spec fn form_view(form: Seq<(String, String)>) -> Seq<(Seq<char>, Seq<char>)> {
    form.map_values(|kv: (String, String)| (kv.0@, kv.1@))
}

/// The request that triggers a build of `job` with `params` (each
/// `key=value`): `build` without parameters, `buildWithParameters` with the
/// split pairs otherwise; the first parameter without `=` is a usage error.
pub fn trigger_request(job: &str, params: &Vec<String>) -> (r: Result<TriggerRequest, AppError>)
    ensures
        params@.len() == 0 ==> (r is Ok && r->Ok_0.path@ == build_trigger_path(job@) && r->Ok_0.form is None),
        params@.len() > 0 && (forall|i: int| 0 <= i < params@.len() ==> split_param_spec(#[trigger] params@[i]@) is Some)
            ==> (r is Ok && r->Ok_0.path@ == build_with_parameters_path(job@) && r->Ok_0.form is Some
                && form_view(r->Ok_0.form->Some_0@) == params@.map_values(|p: String| split_param_spec(p@)->Some_0)),
        r is Err ==> exists|k: int|
            0 <= k < params@.len() && split_param_spec(#[trigger] params@[k]@) is None
                && (forall|j: int| 0 <= j < k ==> split_param_spec(#[trigger] params@[j]@) is Some)
                && r->Err_0 is Usage && r->Err_0->Usage_0@ == invalid_param_message(params@[k]@),
        (exists|k: int| 0 <= k < params@.len() && split_param_spec(#[trigger] params@[k]@) is None) ==> r is Err,
{
    let mut path = "/job/".to_owned();
    path.append(job);
    if params.len() == 0 {
        path.append("/build");
        return Ok(TriggerRequest { path, form: None });
    }
    let mut form: Vec<(String, String)> = Vec::new();
    let mut i: usize = 0;
    while i < params.len()
        invariant
            0 <= i <= params@.len(),
            path@ == "/job/"@ + job@,
            forall|j: int| 0 <= j < i ==> split_param_spec(#[trigger] params@[j]@) is Some,
            form_view(form@) == params@.take(i as int).map_values(|p: String| split_param_spec(p@)->Some_0),
        decreases params.len() - i,
    {
        match split_param(params[i].as_str()) {
            Some(kv) => {
                let ghost before = form_view(form@);
                form.push(kv);
                assert(params@.take(i + 1) == params@.take(i as int).push(params@[i as int]));
                assert(form_view(form@) =~= before.push((kv.0@, kv.1@)));
                assert(form_view(form@) =~= params@.take(i + 1).map_values(|p: String| split_param_spec(p@)->Some_0));
            },
            None => {
                let mut msg = "Invalid build parameter '".to_owned();
                msg.append(params[i].as_str());
                msg.append("': expected key=value.");
                return Err(AppError::Usage(msg));
            },
        }
        i = i + 1;
    }
    assert(params@.take(params@.len() as int) == params@);
    path.append("/buildWithParameters");
    Ok(TriggerRequest { path, form: Some(form) })
}

/// The message when a trigger response has no `Location` header.
pub open spec fn missing_location_message() -> Seq<char> {
    "Jenkins did not return a queue item location (no Location header)."@
}

/// The queue item URL of a trigger response, from its `Location` header.
pub fn queue_location(resp: &RawResponse) -> (r: Result<String, AppError>)
    ensures
        match header_spec(resp.headers@, "Location"@) {
            Some(v) => r is Ok && r->Ok_0@ == v,
            None => r is Err && r->Err_0 is Api && r->Err_0->Api_0@ == missing_location_message(),
        },
{
    match resp.header("Location") {
        Some(v) => Ok(v.to_owned()),
        None => Err(AppError::Api("Jenkins did not return a queue item location (no Location header).".to_owned())),
    }
}

/// The JSON API URL of a Jenkins object URL: `{url}api/json`, with a `/`
/// put in between when the URL lacks one.
pub open spec fn api_json_spec(url: Seq<char>) -> Seq<char> {
    if url.len() > 0 && url.last() == '/' {
        url + "api/json"@
    } else {
        url + "/api/json"@
    }
}

/// The JSON API URL of a Jenkins object URL.
pub fn api_json_url(url: &str) -> (r: String)
    ensures
        r@ == api_json_spec(url@),
{
    let v = chars_of(url);
    let mut r = url.to_owned();
    if v.len() > 0 && v[v.len() - 1] == '/' {
        r.append("api/json");
    } else {
        r.append("/api/json");
    }
    r
}

/// What a wait is polling: the queue item, or the build it became.
#[derive(Debug, PartialEq, Eq)]
pub enum WaitState {
    Queued { queue_url: String },
    Running { build_url: String },
}

/// Where a wait goes after one poll.
#[derive(Debug, PartialEq, Eq)]
pub enum WaitStep {
    /// Poll again, first sleeping for the poll interval when `sleep` is set.
    Poll { next: WaitState, sleep: bool },
    /// The build finished.
    Done(BuildInfo),
    /// The wait ends in an error.
    Failed(AppError),
}

impl WaitState {
    /// The state a wait starts in.
    pub fn start(queue_url: String) -> (s: WaitState)
        ensures
            s == (WaitState::Queued { queue_url }),
    {
        WaitState::Queued { queue_url }
    }

    /// The URL whose JSON the next poll reads.
    pub fn poll_url(&self) -> (u: String)
        ensures
            u@ == match self {
                WaitState::Queued { queue_url } => api_json_spec(queue_url@),
                WaitState::Running { build_url } => api_json_spec(build_url@),
            },
    {
        match self {
            WaitState::Queued { queue_url } => api_json_url(queue_url.as_str()),
            WaitState::Running { build_url } => api_json_url(build_url.as_str()),
        }
    }
}

/// One poll of the queue item at `queue_url`, `elapsed` seconds into a wait
/// of at most `timeout` seconds: a cancelled item ends the wait, an
/// assigned executable moves on to the build at once, and an item still
/// waiting is polled again until the time is up.
pub fn on_queue_item(queue_url: String, item: QueueItem, elapsed: u64, timeout: u64) -> (s: WaitStep)
    ensures
        s == step_on_queue(queue_url, item, elapsed, timeout),
        item.cancelled ==> s == WaitStep::Failed(AppError::QueueCancelled(queue_url)),
        !item.cancelled && item.executable is Some ==> s == (WaitStep::Poll {
            next: WaitState::Running { build_url: item.executable->Some_0.url },
            sleep: false,
        }),
        !item.cancelled && item.executable is None && elapsed >= timeout ==> s == WaitStep::Failed(
            AppError::WaitTimeout(queue_url),
        ),
        !item.cancelled && item.executable is None && elapsed < timeout ==> s == (WaitStep::Poll {
            next: WaitState::Queued { queue_url },
            sleep: true,
        }),
{
    if item.cancelled {
        WaitStep::Failed(AppError::QueueCancelled(queue_url))
    } else {
        match item.executable {
            Some(exe) => WaitStep::Poll { next: WaitState::Running { build_url: exe.url }, sleep: false },
            None => if elapsed >= timeout {
                WaitStep::Failed(AppError::WaitTimeout(queue_url))
            } else {
                WaitStep::Poll { next: WaitState::Queued { queue_url }, sleep: true }
            },
        }
    }
}

/// One poll of the build at `build_url`: a build that stopped building ends
/// the wait with its status, one still building is polled again until the
/// time is up.
pub fn on_build_info(build_url: String, info: BuildInfo, elapsed: u64, timeout: u64) -> (s: WaitStep)
    ensures
        s == step_on_build(build_url, info, elapsed, timeout),
        !info.building ==> s == WaitStep::Done(info),
        info.building && elapsed >= timeout ==> s == WaitStep::Failed(AppError::WaitTimeout(build_url)),
        info.building && elapsed < timeout ==> s == (WaitStep::Poll {
            next: WaitState::Running { build_url },
            sleep: true,
        }),
{
    if !info.building {
        WaitStep::Done(info)
    } else if elapsed >= timeout {
        WaitStep::Failed(AppError::WaitTimeout(build_url))
    } else {
        WaitStep::Poll { next: WaitState::Running { build_url }, sleep: true }
    }
}

/// The step `on_queue_item` takes, as a function.
pub open spec fn step_on_queue(queue_url: String, item: QueueItem, elapsed: u64, timeout: u64) -> WaitStep {
    if item.cancelled {
        WaitStep::Failed(AppError::QueueCancelled(queue_url))
    } else {
        match item.executable {
            Some(exe) => WaitStep::Poll { next: WaitState::Running { build_url: exe.url }, sleep: false },
            None => if elapsed >= timeout {
                WaitStep::Failed(AppError::WaitTimeout(queue_url))
            } else {
                WaitStep::Poll { next: WaitState::Queued { queue_url }, sleep: true }
            },
        }
    }
}

/// The step `on_build_info` takes, as a function.
pub open spec fn step_on_build(build_url: String, info: BuildInfo, elapsed: u64, timeout: u64) -> WaitStep {
    if !info.building {
        WaitStep::Done(info)
    } else if elapsed >= timeout {
        WaitStep::Failed(AppError::WaitTimeout(build_url))
    } else {
        WaitStep::Poll { next: WaitState::Running { build_url }, sleep: true }
    }
}

/// Whether a finished build succeeded.
pub open spec fn succeeded(info: BuildInfo) -> bool {
    info.result matches Some(r) && r@ == "SUCCESS"@
}

/// The message for a waited-for build that did not succeed.
pub open spec fn failed_build_message(info: BuildInfo) -> Seq<char> {
    match info.result {
        Some(r) => "Build finished with result "@ + r@ + "."@,
        None => "Build finished without a result."@,
    }
}

/// `build --wait` succeeds exactly when the build's result is `SUCCESS`.
pub fn build_outcome(info: &BuildInfo) -> (r: Result<(), AppError>)
    ensures
        r is Ok <==> succeeded(*info),
        r is Err ==> r->Err_0 is Api && r->Err_0->Api_0@ == failed_build_message(*info),
{
    match &info.result {
        Some(res) => {
            if crate::text::str_eq(res.as_str(), "SUCCESS") {
                Ok(())
            } else {
                let mut m = "Build finished with result ".to_owned();
                m.append(res.as_str());
                m.append(".");
                Err(AppError::Api(m))
            }
        },
        None => Err(AppError::Api("Build finished without a result.".to_owned())),
    }
}

/// Law: a wait ends with a build only from the build phase and only once
/// that build stopped building; a queue item never ends a wait as done; and
/// a wait runs out of time only once `elapsed` has reached `timeout`.
pub proof fn law_wait_steps(
    queue_url: String,
    item: QueueItem,
    build_url: String,
    info: BuildInfo,
    elapsed: u64,
    timeout: u64,
)
    ensures
        !(step_on_queue(queue_url, item, elapsed, timeout) is Done),
        (step_on_queue(queue_url, item, elapsed, timeout) matches WaitStep::Failed(AppError::WaitTimeout(_)))
            ==> elapsed >= timeout,
        step_on_build(build_url, info, elapsed, timeout) is Done
            ==> !step_on_build(build_url, info, elapsed, timeout)->Done_0.building,
        (step_on_build(build_url, info, elapsed, timeout) matches WaitStep::Failed(AppError::WaitTimeout(_)))
            ==> elapsed >= timeout,
        elapsed < timeout ==> !(step_on_build(build_url, info, elapsed, timeout) is Failed),
{
}

} // verus!
