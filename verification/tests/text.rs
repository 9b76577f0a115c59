use jenkins_cli::config::{insecure_flag, normalize_url, resolve_auth, saved_auth, Auth, AuthEnv};
use jenkins_cli::error::AppError;
use jenkins_cli::text::{eq_ignore_ascii_case, i64_to_decimal, parse_u64, str_eq, trim_end_matches_char, u64_to_decimal};

#[test]
fn decimal_formatting() {
    assert_eq!(u64_to_decimal(0), "0");
    assert_eq!(u64_to_decimal(1234567890), "1234567890");
    assert_eq!(u64_to_decimal(u64::MAX), u64::MAX.to_string());
    assert_eq!(i64_to_decimal(-42), "-42");
    assert_eq!(i64_to_decimal(i64::MIN), i64::MIN.to_string());
    assert_eq!(i64_to_decimal(7), "7");
}

#[test]
fn u64_parsing_matches_std() {
    for s in ["0", "+7", "007", "18446744073709551615", "18446744073709551616", "", "+", "-1", "1a", " 1", "١"] {
        assert_eq!(parse_u64(s), s.parse::<u64>().ok(), "input {s:?}");
    }
}

#[test]
fn formatted_numbers_parse_back() {
    for n in [0u64, 9, 10, 99, 100, 12345, u64::MAX] {
        assert_eq!(parse_u64(&u64_to_decimal(n)), Some(n));
    }
}

#[test]
fn ascii_case_folding() {
    assert!(eq_ignore_ascii_case("TrUe", "true"));
    assert!(!eq_ignore_ascii_case("true", "tru"));
    assert!(!eq_ignore_ascii_case("é", "É"));
    assert!(str_eq("abc", "abc"));
    assert!(!str_eq("abc", "abd"));
}

#[test]
fn normalize_url_trims_every_trailing_slash() {
    assert_eq!(normalize_url("http://10.35.0.51:18080/"), "http://10.35.0.51:18080");
    assert_eq!(normalize_url("http://x///"), "http://x");
    assert_eq!(normalize_url("http://x/a"), "http://x/a");
    assert_eq!(normalize_url("///"), "");
    assert_eq!(normalize_url(&normalize_url("http://x//")), "http://x");
    assert_eq!(trim_end_matches_char("aab", 'b'), "aa");
}

#[test]
fn insecure_flag_values() {
    assert!(insecure_flag("1"));
    assert!(insecure_flag("TRUE"));
    assert!(insecure_flag("true"));
    assert!(!insecure_flag("yes"));
    assert!(!insecure_flag("0"));
}

fn file_auth() -> Auth {
    Auth {
        url: Some("http://file".to_string()),
        user: Some("file-user".to_string()),
        api_token: Some("file-token".to_string()),
        insecure: true,
    }
}

#[test]
fn environment_overrides_file() {
    let env = AuthEnv {
        url: Some("http://env/".to_string()),
        user: None,
        token: Some("env-token".to_string()),
        insecure: Some("0".to_string()),
    };
    let auth = resolve_auth(env, Some(file_auth())).unwrap();
    assert_eq!(auth.url.as_deref(), Some("http://env"));
    assert_eq!(auth.user.as_deref(), Some("file-user"));
    assert_eq!(auth.api_token.as_deref(), Some("env-token"));
    assert!(!auth.insecure);
}

#[test]
fn incomplete_auth_is_no_auth() {
    assert_eq!(resolve_auth(AuthEnv::default(), None), Err(AppError::NoAuth));
    let env = AuthEnv { url: Some("http://x".to_string()), user: Some("u".to_string()), token: None, insecure: None };
    assert_eq!(resolve_auth(env, None), Err(AppError::NoAuth));
}

#[test]
fn saved_auth_is_used_when_environment_is_silent() {
    let saved = saved_auth("http://jenkins:8080/", "me".to_string(), "tok".to_string());
    assert_eq!(saved.url.as_deref(), Some("http://jenkins:8080"));
    let resolved = resolve_auth(AuthEnv::default(), Some(saved)).unwrap();
    assert_eq!(
        resolved,
        Auth {
            url: Some("http://jenkins:8080".to_string()),
            user: Some("me".to_string()),
            api_token: Some("tok".to_string()),
            insecure: false,
        }
    );
    assert!(resolved.is_complete());
}
