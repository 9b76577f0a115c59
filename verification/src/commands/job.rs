//! Job listing.

use vstd::prelude::*;

use crate::cli::{JobArgs, JobCmd};
use crate::json::JsonValue;
use crate::models::JobSummary;
use crate::output::{ucfirst, ucfirst_spec, styled_view, Styled, StyledView};

verus! {

/// The path that lists the jobs with the fields the listing shows.
pub const JOBS_PATH: &'static str = "/api/json?tree=jobs[name,color,url]";

/// Which job action to take: the one asked for, `list` by default.
pub fn run(args: JobArgs) -> (c: JobCmd)
    ensures
        c == match args.cmd {
            Some(c) => c,
            None => JobCmd::List,
        },
{
    match args.cmd {
        Some(c) => c,
        None => JobCmd::List,
    }
}

/// The colorized listing: one `Name: {name}` line per job.
pub open spec fn list_spec(jobs: Seq<JobSummary>) -> Seq<StyledView> {
    jobs.map_values(|j: JobSummary| StyledView::Field(ucfirst_spec("name"@), j.name@))
}

/// The lines of the colorized job listing.
pub fn list_lines(jobs: &Vec<JobSummary>) -> (lines: Vec<Styled>)
    ensures
        styled_view(lines@) == list_spec(jobs@),
        lines@.len() == jobs@.len(),
        forall|i: int| 0 <= i < jobs@.len() ==> (#[trigger] lines@[i])@ == StyledView::Field(
            ucfirst_spec("name"@),
            jobs@[i].name@,
        ),
{
    let mut lines: Vec<Styled> = Vec::new();
    let mut i: usize = 0;
    while i < jobs.len()
        invariant
            0 <= i <= jobs@.len(),
            styled_view(lines@) == list_spec(jobs@.take(i as int)),
        decreases jobs.len() - i,
    {
        let ghost before = styled_view(lines@);
        let line = Styled::Field { key: ucfirst("name"), value: jobs[i].name.clone() };
        lines.push(line);
        assert(jobs@.take(i + 1) == jobs@.take(i as int).push(jobs@[i as int]));
        assert(styled_view(lines@) =~= before.push(line@));
        assert(styled_view(lines@) =~= list_spec(jobs@.take(i + 1)));
        i = i + 1;
    }
    assert(jobs@.take(jobs@.len() as int) == jobs@);
    proof {
        law_one_line_per_job(jobs@);
        assert forall|i: int| 0 <= i < jobs@.len() implies (#[trigger] lines@[i])@ == StyledView::Field(
            ucfirst_spec("name"@),
            jobs@[i].name@,
        ) by {
            assert(styled_view(lines@)[i] == lines@[i]@);
        }
    }
    lines
}

/// Law: the listing has exactly one line per job, in the jobs' order, and
/// line `i` is the `Name` field of job `i`.
pub proof fn law_one_line_per_job(jobs: Seq<JobSummary>)
    ensures
        list_spec(jobs).len() == jobs.len(),
        forall|i: int| 0 <= i < jobs.len() ==> #[trigger] list_spec(jobs)[i] == StyledView::Field(
            ucfirst_spec("name"@),
            jobs[i].name@,
        ),
{
}

/// Whether `v` is the JSON object `{"name", "color", "url"}` of `job`, a
/// missing color as `null`.
pub open spec fn is_job_json(v: JsonValue, job: JobSummary) -> bool {
    v matches JsonValue::Object(entries) && entries@.len() == 3
        && entries@[0].0@ == "name"@ && entries@[0].1 == JsonValue::Str(job.name)
        && entries@[1].0@ == "color"@ && entries@[1].1 == match job.color {
            Some(c) => JsonValue::Str(c),
            None => JsonValue::Null,
        }
        && entries@[2].0@ == "url"@ && entries@[2].1 == JsonValue::Str(job.url)
}

/// The JSON of one job.
pub fn job_json(job: &JobSummary) -> (v: JsonValue)
    ensures
        is_job_json(v, *job),
{
    let color = match &job.color {
        Some(c) => JsonValue::Str(c.clone()),
        None => JsonValue::Null,
    };
    let mut entries: Vec<(String, JsonValue)> = Vec::new();
    entries.push(("name".to_owned(), JsonValue::Str(job.name.clone())));
    entries.push(("color".to_owned(), color));
    entries.push(("url".to_owned(), JsonValue::Str(job.url.clone())));
    JsonValue::Object(entries)
}

/// The `--json` listing: an array with one object per job, in order.
pub fn list_json(jobs: &Vec<JobSummary>) -> (v: JsonValue)
    ensures
        v matches JsonValue::Array(items) && items@.len() == jobs@.len()
            && forall|i: int| 0 <= i < jobs@.len() ==> is_job_json(#[trigger] items@[i], jobs@[i]),
{
    let mut items: Vec<JsonValue> = Vec::new();
    let mut i: usize = 0;
    while i < jobs.len()
        invariant
            0 <= i <= jobs@.len(),
            items@.len() == i,
            forall|k: int| 0 <= k < i ==> is_job_json(#[trigger] items@[k], jobs@[k]),
        decreases jobs.len() - i,
    {
        items.push(job_json(&jobs[i]));
        i = i + 1;
    }
    JsonValue::Array(items)
}

} // verus!
