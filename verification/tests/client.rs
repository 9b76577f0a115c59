use base64::Engine;
use jenkins_cli::client::{basic_auth_value, check_response, Client, RawResponse};
use jenkins_cli::commands::builds::{queue_location, trigger_request};
use jenkins_cli::commands::logs::job_not_found;
use jenkins_cli::error::AppError;

fn test_client() -> Client {
    Client::with_base("http://127.0.0.1:8080", "me", "tok123")
}

#[test]
fn sends_basic_auth_header() {
    let expected = format!(
        "Basic {}",
        base64::engine::general_purpose::STANDARD.encode("me:tok123")
    );
    let client = test_client();
    assert_eq!(client.auth_header(), expected);
    assert_eq!(client.auth_header(), "Basic bWU6dG9rMTIz");
    assert_eq!(client.url_for("/api/json"), "http://127.0.0.1:8080/api/json");
}

#[test]
fn maps_401_to_unauthorized() {
    let err = check_response(401, String::new(), vec![]).unwrap_err();
    assert!(matches!(err, AppError::Unauthorized));
}

#[test]
fn maps_403_to_forbidden() {
    let err = check_response(403, String::new(), vec![]).unwrap_err();
    assert!(matches!(err, AppError::Forbidden));
}

#[test]
fn maps_404_via_job_scoped_get() {
    let err = check_response(404, String::new(), vec![])
        .map_err(|e| job_not_found(e, "missing"))
        .unwrap_err();
    assert!(matches!(err, AppError::JobNotFound(job) if job == "missing"));
}

#[test]
fn other_status_carries_body() {
    let err = check_response(500, "kaboom".to_string(), vec![]).unwrap_err();
    match err {
        AppError::Status(code, body) => {
            assert_eq!(code, 500);
            assert!(body.contains("kaboom"));
        }
        other => panic!("expected Status, got {other:?}"),
    }
}

#[test]
fn post_build_returns_location_header() {
    let request = trigger_request("my-job", &vec![]).unwrap();
    assert_eq!(request.path, "/job/my-job/build");
    assert_eq!(request.form, None);
    let resp = check_response(
        201,
        String::new(),
        vec![("location".to_string(), Some("http://localhost/queue/item/42/".to_string()))],
    )
    .unwrap();
    assert_eq!(resp.status, 201);
    assert_eq!(resp.header("Location"), Some("http://localhost/queue/item/42/"));
    assert_eq!(queue_location(&resp).unwrap(), "http://localhost/queue/item/42/");
}

#[test]
fn post_build_with_parameters_form_encodes() {
    let request = trigger_request("my-job", &vec!["branch=main".to_string()]).unwrap();
    assert_eq!(request.path, "/job/my-job/buildWithParameters");
    assert_eq!(request.form, Some(vec![("branch".to_string(), "main".to_string())]));
    let resp = check_response(
        201,
        String::new(),
        vec![("location".to_string(), Some("http://localhost/queue/item/7/".to_string()))],
    )
    .unwrap();
    assert_eq!(resp.status, 201);
}

#[test]
fn success_keeps_status_body_and_headers() {
    let resp = check_response(200, "{\"mode\":\"NORMAL\"}".to_string(), vec![]).unwrap();
    assert_eq!(
        resp,
        RawResponse { status: 200, body: "{\"mode\":\"NORMAL\"}".to_string(), headers: vec![] }
    );
    assert!(resp.body.contains("NORMAL"));
}

#[test]
fn redirect_and_server_statuses_are_errors() {
    assert_eq!(
        check_response(302, "moved".to_string(), vec![]).unwrap_err(),
        AppError::Status(302, "moved".to_string())
    );
    assert_eq!(
        check_response(199, String::new(), vec![]).unwrap_err(),
        AppError::Status(199, String::new())
    );
    assert!(check_response(299, String::new(), vec![]).is_ok());
}

#[test]
fn job_not_found_passes_other_errors() {
    assert_eq!(job_not_found(AppError::Forbidden, "x"), AppError::Forbidden);
    assert_eq!(
        job_not_found(AppError::Status(500, "b".to_string()), "x"),
        AppError::Status(500, "b".to_string())
    );
}

#[test]
fn base_url_loses_trailing_slashes() {
    let client = Client::with_base("http://jenkins:8080//", "a", "b");
    assert_eq!(client.base(), "http://jenkins:8080");
    assert_eq!(client.auth_header(), "Basic YTpi");
}

#[test]
fn basic_auth_value_prefixes() {
    assert_eq!(basic_auth_value("abc="), "Basic abc=");
}

#[test]
fn header_lookup_ignores_case_and_takes_first() {
    let resp = RawResponse {
        status: 200,
        body: String::new(),
        headers: vec![
            ("x-text-size".to_string(), None),
            ("x-text-size".to_string(), Some("12".to_string())),
            ("x-more-data".to_string(), Some("true".to_string())),
        ],
    };
    assert_eq!(resp.header("X-Text-Size"), None);
    assert_eq!(resp.header("X-MORE-DATA"), Some("true"));
    assert_eq!(resp.header("Location"), None);
}

#[test]
fn missing_location_is_an_api_error() {
    let resp = check_response(201, String::new(), vec![]).unwrap();
    assert_eq!(
        queue_location(&resp).unwrap_err(),
        AppError::Api("Jenkins did not return a queue item location (no Location header).".to_string())
    );
}
