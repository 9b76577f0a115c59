//! What the MCP tools compute: console-log tails and the JSON shape of a
//! build's status.

use vstd::prelude::*;

use crate::cli::{McpArgs, McpCmd};
use crate::commands::builds::DEFAULT_WAIT_TIMEOUT_SECS;
use crate::json::JsonValue;
use crate::models::BuildInfo;
use crate::text::{decimal, i64_to_decimal, signed_decimal, u64_to_decimal};
use crate::lines::{
    join_from, join_lines, lemma_lines_len_le_pieces, lemma_lines_no_newline, lemma_split_join, lines_spec, lines_view,
    no_newline, split_lines, split_newlines,
};

verus! {

/// How many lines of a console log a tool returns unless told otherwise.
pub const DEFAULT_TAIL_LINES: usize = 100;

/// The last `n` lines of `text`: the text itself when it has at most `n`
/// lines, else those lines joined with `\n`.
pub open spec fn tail_spec(text: Seq<char>, n: nat) -> Seq<char> {
    let ls = lines_spec(text);
    if ls.len() <= n {
        text
    } else {
        join_lines(ls.skip(ls.len() - n))
    }
}

/// Returns the last `n` lines of `text`.
pub fn tail(text: &str, n: usize) -> (r: String)
    ensures
        r@ == tail_spec(text@, n as nat),
{
    let ls = split_lines(text);
    if ls.len() <= n {
        text.to_owned()
    } else {
        let from: usize = ls.len() - n;
        let r = join_from(&ls, from);
        assert(lines_view(ls@).skip(from as int) == lines_spec(text@).skip(lines_spec(text@).len() - n));
        r
    }
}

/// Law: a tail never holds more than `n` lines.
pub proof fn law_tail_has_at_most_n_lines(text: Seq<char>, n: nat)
    ensures
        lines_spec(tail_spec(text, n)).len() <= n,
{
    let ls = lines_spec(text);
    if ls.len() > n {
        let kept = ls.skip(ls.len() - n);
        if kept.len() == 0 {
            assert(join_lines(kept) == Seq::<char>::empty());
            assert(split_newlines(Seq::<char>::empty()) == seq![Seq::<char>::empty()]);
        } else {
            lemma_lines_no_newline(text);
            assert forall|i: int| 0 <= i < kept.len() implies no_newline(#[trigger] kept[i]) by {
                assert(kept[i] == ls[i + ls.len() - n]);
            }
            lemma_split_join(kept);
        }
        lemma_lines_len_le_pieces(join_lines(kept));
    }
}

/// What the console-log tool returns for a fetched log: the whole log when
/// `full` is set, else its last `tail_lines` lines (100 when not given).
pub fn console_log_text(text: &str, tail_lines: Option<usize>, full: bool) -> (r: String)
    ensures
        r@ == (if full {
            text@
        } else {
            tail_spec(text@, (match tail_lines { Some(n) => n, None => DEFAULT_TAIL_LINES }) as nat)
        }),
{
    if full {
        text.to_owned()
    } else {
        let n: usize = match tail_lines {
            Some(n) => n,
            None => DEFAULT_TAIL_LINES,
        };
        tail(text, n)
    }
}

/// Which MCP action to take: the one asked for, `serve` by default.
pub fn run(args: McpArgs) -> (c: McpCmd)
    ensures
        c == match args.cmd {
            Some(c) => c,
            None => McpCmd::Serve,
        },
{
    match args.cmd {
        Some(c) => c,
        None => McpCmd::Serve,
    }
}

/// How long `trigger_build` waits: the given seconds, 1800 by default.
pub fn trigger_timeout(timeout_secs: Option<u64>) -> (t: u64)
    ensures
        t == match timeout_secs {
            Some(t) => t,
            None => DEFAULT_WAIT_TIMEOUT_SECS,
        },
{
    match timeout_secs {
        Some(t) => t,
        None => DEFAULT_WAIT_TIMEOUT_SECS,
    }
}

/// Integer division rounding toward zero, as Rust's `/` on `i64` does.
pub open spec fn div_toward_zero(a: int, b: int) -> int {
    if a >= 0 {
        a / b
    } else {
        -((-a) / b)
    }
}

/// Whole seconds in `ms` milliseconds, rounded toward zero.
pub fn millis_to_secs(ms: i64) -> (s: i64)
    ensures
        s as int == div_toward_zero(ms as int, 1000),
{
    if ms >= 0 {
        let q: u64 = (ms as u64) / 1000;
        q as i64
    } else {
        let magnitude: u64 = if ms == i64::MIN {
            9223372036854775808u64
        } else {
            (-ms) as u64
        };
        let q: u64 = magnitude / 1000;
        -(q as i64)
    }
}

/// Whether `v` is the JSON string `s`.
pub open spec fn is_str(v: JsonValue, s: Seq<char>) -> bool {
    v matches JsonValue::Str(x) && x@ == s
}

/// Whether `v` is the JSON number spelled `s`.
pub open spec fn is_number(v: JsonValue, s: Seq<char>) -> bool {
    v matches JsonValue::Number(x) && x@ == s
}

/// Whether `v` is the status object of `info`'s build of `job`: `job`,
/// `buildNumber`, `url`, `building`, `result` (`null` when unknown) and
/// `durationSecs`, in that order.
pub open spec fn is_build_status_json(v: JsonValue, job: Seq<char>, info: BuildInfo) -> bool {
    v matches JsonValue::Object(entries) && entries@.len() == 6
        && entries@[0].0@ == "job"@ && is_str(entries@[0].1, job)
        && entries@[1].0@ == "buildNumber"@ && is_number(entries@[1].1, decimal(info.number as nat))
        && entries@[2].0@ == "url"@ && entries@[2].1 == JsonValue::Str(info.url)
        && entries@[3].0@ == "building"@ && entries@[3].1 == JsonValue::Bool(info.building)
        && entries@[4].0@ == "result"@ && entries@[4].1 == match info.result {
            Some(r) => JsonValue::Str(r),
            None => JsonValue::Null,
        }
        && entries@[5].0@ == "durationSecs"@
        && is_number(entries@[5].1, signed_decimal(div_toward_zero(info.duration as int, 1000)))
}

/// The JSON a status tool answers with for a build of `job`.
pub fn build_status_json(job: &str, info: &BuildInfo) -> (v: JsonValue)
    ensures
        is_build_status_json(v, job@, *info),
{
    let result = match &info.result {
        Some(r) => JsonValue::Str(r.clone()),
        None => JsonValue::Null,
    };
    let mut entries: Vec<(String, JsonValue)> = Vec::new();
    entries.push(("job".to_owned(), JsonValue::Str(job.to_owned())));
    entries.push(("buildNumber".to_owned(), JsonValue::Number(u64_to_decimal(info.number))));
    entries.push(("url".to_owned(), JsonValue::Str(info.url.clone())));
    entries.push(("building".to_owned(), JsonValue::Bool(info.building)));
    entries.push(("result".to_owned(), result));
    entries.push(("durationSecs".to_owned(), JsonValue::Number(i64_to_decimal(millis_to_secs(info.duration)))));
    JsonValue::Object(entries)
}

/// Whether `v` is the answer for a build of `job` that was queued at
/// `queue_url` and not waited for.
pub open spec fn is_queued_json(v: JsonValue, job: Seq<char>, queue_url: Seq<char>) -> bool {
    v matches JsonValue::Object(entries) && entries@.len() == 3
        && entries@[0].0@ == "job"@ && is_str(entries@[0].1, job)
        && entries@[1].0@ == "queueUrl"@ && is_str(entries@[1].1, queue_url)
        && entries@[2].0@ == "status"@ && is_str(entries@[2].1, "queued"@)
}

/// The answer for a triggered build that is not waited for.
pub fn queued_json(job: &str, queue_url: &str) -> (v: JsonValue)
    ensures
        is_queued_json(v, job@, queue_url@),
{
    let mut entries: Vec<(String, JsonValue)> = Vec::new();
    entries.push(("job".to_owned(), JsonValue::Str(job.to_owned())));
    entries.push(("queueUrl".to_owned(), JsonValue::Str(queue_url.to_owned())));
    entries.push(("status".to_owned(), JsonValue::Str("queued".to_owned())));
    JsonValue::Object(entries)
}

} // verus!
