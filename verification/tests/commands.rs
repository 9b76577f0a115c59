use jenkins_cli::cli::{AuthArgs, AuthCmd, JobArgs, JobCmd, McpArgs, McpCmd, StatusArgs};
use jenkins_cli::client::check_response;
use jenkins_cli::commands::builds::{
    api_json_url, build_outcome, on_build_info, on_queue_item, split_param, trigger_request, WaitState,
    WaitStep,
};
use jenkins_cli::commands::logs::{build_path, console_path, follow_step, job_not_found, progressive_path};
use jenkins_cli::commands::mcp::{
    build_status_json, console_log_text, millis_to_secs, queued_json, tail, trigger_timeout,
};
use jenkins_cli::commands::status::{resolve_queue_item, StatusPlan};
use jenkins_cli::commands::{auth, job, mcp, status};
use jenkins_cli::config::Auth;
use jenkins_cli::error::AppError;
use jenkins_cli::json::JsonValue;
use jenkins_cli::models::{BuildInfo, Executable, JobSummary, QueueItem};
use jenkins_cli::output::{Color, Styled};

fn headers(pairs: &[(&str, &str)]) -> Vec<(String, Option<String>)> {
    pairs.iter().map(|(k, v)| (k.to_string(), Some(v.to_string()))).collect()
}

fn info(building: bool, result: Option<&str>, duration: i64) -> BuildInfo {
    BuildInfo {
        building,
        result: result.map(str::to_string),
        number: 5,
        url: "http://x/job/my-job/5/".to_string(),
        duration,
        estimated_duration: 4000,
    }
}

#[test]
fn follow_stops_when_no_more_data() {
    let path = progressive_path(&build_path("my-job", None), 0);
    assert_eq!(path, "/job/my-job/lastBuild/logText/progressiveText?start=0");
    let resp = check_response(
        200,
        "hello world".to_string(),
        headers(&[("x-text-size", "11"), ("x-more-data", "false")]),
    )
    .unwrap();
    let step = follow_step(0, &resp);
    assert_eq!(step.next_start, 11);
    assert!(!step.more_data);
}

#[test]
fn follow_polls_until_more_data_is_false() {
    let bp = build_path("my-job", None);
    assert_eq!(bp, "/job/my-job/lastBuild/");
    let first = check_response(
        200,
        "part1".to_string(),
        headers(&[("x-text-size", "5"), ("x-more-data", "true")]),
    )
    .unwrap();
    let step = follow_step(0, &first);
    assert!(step.more_data);
    assert_eq!(step.next_start, 5);
    assert_eq!(
        progressive_path(&bp, step.next_start),
        "/job/my-job/lastBuild/logText/progressiveText?start=5"
    );
    let second = check_response(
        200,
        "part2".to_string(),
        headers(&[("x-text-size", "10"), ("x-more-data", "false")]),
    )
    .unwrap();
    let step = follow_step(step.next_start, &second);
    assert!(!step.more_data);
    assert_eq!(step.next_start, 10);
}

#[test]
fn follow_keeps_offset_without_a_usable_size() {
    let resp = check_response(200, String::new(), headers(&[("x-text-size", "abc"), ("x-more-data", "TRUE")])).unwrap();
    let step = follow_step(7, &resp);
    assert_eq!(step.next_start, 7);
    assert!(step.more_data);
    let resp = check_response(200, String::new(), vec![]).unwrap();
    let step = follow_step(7, &resp);
    assert_eq!(step.next_start, 7);
    assert!(!step.more_data);
}

#[test]
fn missing_job_maps_to_job_not_found() {
    assert_eq!(console_path(&build_path("missing", None)), "/job/missing/lastBuild/consoleText");
    let err = check_response(404, String::new(), vec![])
        .map_err(|e| job_not_found(e, "missing"))
        .unwrap_err();
    assert!(matches!(err, AppError::JobNotFound(job) if job == "missing"));
}

#[test]
fn build_path_with_number() {
    assert_eq!(build_path("my-job", Some(19)), "/job/my-job/19/");
    assert_eq!(build_path("a", Some(0)), "/job/a/0/");
    assert_eq!(build_path("a", Some(u64::MAX)), "/job/a/18446744073709551615/");
}

#[test]
fn tail_returns_full_text_when_shorter_than_n() {
    let text = "a\nb\nc";
    assert_eq!(tail(text, 10), "a\nb\nc");
}

#[test]
fn tail_returns_last_n_lines() {
    let text = "1\n2\n3\n4\n5";
    assert_eq!(tail(text, 2), "4\n5");
}

#[test]
fn tail_drops_carriage_returns_and_final_newline() {
    assert_eq!(tail("1\r\n2\r\n3\r\n", 2), "2\n3");
    assert_eq!(tail("1\n2\n3\n", 3), "1\n2\n3\n");
    assert_eq!(tail("1\n2\n3", 0), "");
    assert_eq!(tail("", 0), "");
    assert_eq!(tail("x\n\ny\n", 2), "\ny");
}

#[test]
fn console_log_defaults_to_a_hundred_lines() {
    let text: String = (1..=150).map(|i| format!("{i}\n")).collect();
    let out = console_log_text(&text, None, false);
    assert_eq!(out.lines().count(), 100);
    assert!(out.starts_with("51\n"));
    assert!(out.ends_with("150"));
    assert_eq!(console_log_text(&text, None, true), text);
    assert_eq!(console_log_text(&text, Some(1), false), "150");
}

#[test]
fn build_status_json_shape() {
    let info = info(false, Some("SUCCESS"), 4000);
    let value = build_status_json("my-job", &info);
    assert_eq!(value.get("job"), Some(&JsonValue::Str("my-job".to_string())));
    assert_eq!(value.get("buildNumber"), Some(&JsonValue::Number("5".to_string())));
    assert_eq!(value.get("result"), Some(&JsonValue::Str("SUCCESS".to_string())));
    assert_eq!(value.get("durationSecs"), Some(&JsonValue::Number("4".to_string())));
    assert_eq!(value.get("building"), Some(&JsonValue::Bool(false)));
    assert_eq!(value.get("url"), Some(&JsonValue::Str("http://x/job/my-job/5/".to_string())));
}

#[test]
fn duration_rounds_toward_zero() {
    assert_eq!(millis_to_secs(4999), 4);
    assert_eq!(millis_to_secs(-1500), -1);
    assert_eq!(millis_to_secs(i64::MIN), -9223372036854775);
    let value = build_status_json("j", &info(true, None, -2500));
    assert_eq!(value.get("durationSecs"), Some(&JsonValue::Number("-2".to_string())));
    assert_eq!(value.get("result"), Some(&JsonValue::Null));
}

#[test]
fn queued_answer() {
    let value = queued_json("my-job", "http://localhost/queue/item/42/");
    assert_eq!(value.get("status"), Some(&JsonValue::Str("queued".to_string())));
    assert_eq!(value.get("queueUrl"), Some(&JsonValue::Str("http://localhost/queue/item/42/".to_string())));
    assert_eq!(value.get("missing"), None);
}

#[test]
fn default_subcommands() {
    assert_eq!(auth::run(AuthArgs { cmd: None }), AuthCmd::Save);
    assert_eq!(auth::run(AuthArgs { cmd: Some(AuthCmd::Whoami) }), AuthCmd::Whoami);
    assert_eq!(job::run(JobArgs { cmd: None }), JobCmd::List);
    assert_eq!(mcp::run(McpArgs { cmd: None }), McpCmd::Serve);
    assert_eq!(trigger_timeout(None), 1800);
    assert_eq!(trigger_timeout(Some(5)), 5);
}

#[test]
fn params_split_at_first_equals() {
    assert_eq!(split_param("a=b=c"), Some(("a".to_string(), "b=c".to_string())));
    assert_eq!(split_param("=x"), Some((String::new(), "x".to_string())));
    assert_eq!(split_param("novalue"), None);
    let err = trigger_request("j", &vec!["a=1".to_string(), "bad".to_string()]).unwrap_err();
    assert_eq!(err, AppError::Usage("Invalid build parameter 'bad': expected key=value.".to_string()));
}

#[test]
fn wait_moves_from_queue_to_build() {
    let queued = QueueItem { cancelled: false, executable: None, why: Some("Waiting".to_string()) };
    assert_eq!(
        on_queue_item("q/".to_string(), queued, 1, 10),
        WaitStep::Poll { next: WaitState::Queued { queue_url: "q/".to_string() }, sleep: true }
    );
    let started = QueueItem {
        cancelled: false,
        executable: Some(Executable { number: 5, url: "http://x/job/j/5/".to_string() }),
        why: None,
    };
    let step = on_queue_item("q/".to_string(), started, 1, 10);
    let next = match step {
        WaitStep::Poll { next, sleep } => {
            assert!(!sleep);
            next
        }
        other => panic!("expected a poll, got {other:?}"),
    };
    assert_eq!(next.poll_url(), "http://x/job/j/5/api/json");
    assert_eq!(
        on_build_info("b".to_string(), info(true, None, 0), 3, 10),
        WaitStep::Poll { next: WaitState::Running { build_url: "b".to_string() }, sleep: true }
    );
    assert_eq!(
        on_build_info("b".to_string(), info(false, Some("SUCCESS"), 0), 30, 10),
        WaitStep::Done(info(false, Some("SUCCESS"), 0))
    );
}

#[test]
fn wait_fails_on_cancel_and_timeout() {
    let cancelled = QueueItem { cancelled: true, executable: None, why: None };
    assert_eq!(
        on_queue_item("q".to_string(), cancelled, 0, 10),
        WaitStep::Failed(AppError::QueueCancelled("q".to_string()))
    );
    let queued = QueueItem { cancelled: false, executable: None, why: None };
    assert_eq!(
        on_queue_item("q".to_string(), queued, 10, 10),
        WaitStep::Failed(AppError::WaitTimeout("q".to_string()))
    );
    assert_eq!(
        on_build_info("b".to_string(), info(true, None, 0), 11, 10),
        WaitStep::Failed(AppError::WaitTimeout("b".to_string()))
    );
    assert_eq!(WaitState::start("http://q/1".to_string()).poll_url(), "http://q/1/api/json");
}

#[test]
fn waited_build_must_succeed() {
    assert_eq!(build_outcome(&info(false, Some("SUCCESS"), 0)), Ok(()));
    assert_eq!(
        build_outcome(&info(false, Some("FAILURE"), 0)),
        Err(AppError::Api("Build finished with result FAILURE.".to_string()))
    );
    assert_eq!(
        build_outcome(&info(false, None, 0)),
        Err(AppError::Api("Build finished without a result.".to_string()))
    );
}

#[test]
fn status_plans() {
    assert_eq!(
        status::run(StatusArgs { job: "j".to_string(), build_number: Some(3), queue: None }),
        StatusPlan::FromJob { job: "j".to_string(), path: "/job/j/3/api/json".to_string() }
    );
    assert_eq!(
        status::run(StatusArgs { job: "j".to_string(), build_number: Some(3), queue: Some("u".to_string()) }),
        StatusPlan::FromQueue { queue_url: "u".to_string() }
    );
    assert_eq!(api_json_url("http://x/queue/item/4/"), "http://x/queue/item/4/api/json");
}

#[test]
fn queue_item_resolution() {
    let started = QueueItem {
        cancelled: false,
        executable: Some(Executable { number: 9, url: "http://x/job/j/9/".to_string() }),
        why: None,
    };
    assert_eq!(resolve_queue_item("q".to_string(), started), Ok("http://x/job/j/9/api/json".to_string()));
    let waiting = QueueItem { cancelled: false, executable: None, why: Some("Waiting for executor".to_string()) };
    assert_eq!(
        resolve_queue_item("q".to_string(), waiting),
        Err(AppError::Api("Build is still queued: Waiting for executor".to_string()))
    );
    let cancelled = QueueItem { cancelled: true, executable: None, why: None };
    assert_eq!(resolve_queue_item("q".to_string(), cancelled), Err(AppError::QueueCancelled("q".to_string())));
}

#[test]
fn auth_show_masks_token() {
    let auth = Some(Auth {
        url: Some("http://j".to_string()),
        user: Some("me".to_string()),
        api_token: Some("secret".to_string()),
        insecure: false,
    });
    assert_eq!(
        auth::show_lines(&auth),
        vec![
            Styled::Field { key: "Url".to_string(), value: "http://j".to_string() },
            Styled::Field { key: "User".to_string(), value: "me".to_string() },
            Styled::Field { key: "ApiToken".to_string(), value: "********".to_string() },
        ]
    );
    let partial = Some(Auth { url: None, user: Some("me".to_string()), api_token: None, insecure: false });
    assert_eq!(
        auth::show_lines(&partial),
        vec![
            Styled::Field { key: "User".to_string(), value: "me".to_string() },
            Styled::Text {
                text: "Incomplete auth info. Run \"jenkins auth save\" again.".to_string(),
                color: Color::Yellow
            },
        ]
    );
    assert_eq!(
        auth::show_lines(&None),
        vec![Styled::Text {
            text: "No auth info saved. Run \"jenkins auth save\" first.".to_string(),
            color: Color::Yellow
        }]
    );
}

#[test]
fn job_listing() {
    let jobs = vec![JobSummary {
        name: "my-job".to_string(),
        color: Some("blue".to_string()),
        url: "http://x/job/my-job/".to_string(),
    }];
    assert_eq!(
        job::list_lines(&jobs),
        vec![Styled::Field { key: "Name".to_string(), value: "my-job".to_string() }]
    );
    let value = job::list_json(&jobs);
    match value {
        JsonValue::Array(items) => {
            assert_eq!(items.len(), 1);
            assert_eq!(items[0].get("name"), Some(&JsonValue::Str("my-job".to_string())));
            assert_eq!(items[0].get("color"), Some(&JsonValue::Str("blue".to_string())));
        }
        other => panic!("expected an array, got {other:?}"),
    }
    assert_eq!(job::JOBS_PATH, "/api/json?tree=jobs[name,color,url]");
}

#[test]
fn tail_never_exceeds_n_lines() {
    for text in ["", "a", "a\n", "a\r\nb\r\n", "\n\n\n", "x\n\ny\n", "1\n2\n3\n4\n5"] {
        for n in 0..6 {
            let t = tail(text, n);
            assert!(t.lines().count() <= n, "text {text:?}, n {n}: {t:?}");
            if text.lines().count() <= n {
                assert_eq!(t, text);
            }
        }
    }
}
