use jenkins_cli::error::AppError;
use jenkins_cli::json::JsonValue;
use jenkins_cli::output::{capitalize_with, palette, print_value, ucfirst, Color, Styled};

#[test]
fn ucfirst_capitalizes() {
    assert_eq!(ucfirst("name"), "Name");
    assert_eq!(ucfirst(""), "");
}

#[test]
fn ucfirst_uses_unicode_case_mapping() {
    assert_eq!(ucfirst("ßx"), "SSx");
    assert_eq!(ucfirst("éa"), "Éa");
    assert_eq!(ucfirst("1a"), "1a");
    assert_eq!(capitalize_with("XY", "abc"), "XYbc");
}

#[test]
fn palette_names() {
    assert_eq!(palette("red"), Color::Red);
    assert_eq!(palette("gray"), Color::Gray);
    assert_eq!(palette("white"), Color::Plain);
    assert_eq!(palette("Red"), Color::Plain);
    assert_eq!(jenkins_cli::output::line("hi", "green"), Styled::Text { text: "hi".to_string(), color: Color::Green });
}

#[test]
fn print_value_flattens_objects_and_arrays() {
    let value = JsonValue::Object(vec![
        ("name".to_string(), JsonValue::Str("x".to_string())),
        ("nested".to_string(), JsonValue::Object(vec![("n".to_string(), JsonValue::Number("3".to_string()))])),
        ("flag".to_string(), JsonValue::Bool(true)),
        ("none".to_string(), JsonValue::Null),
        (
            "list".to_string(),
            JsonValue::Array(vec![JsonValue::Str("a".to_string()), JsonValue::Number("1.5".to_string())]),
        ),
    ]);
    assert_eq!(
        print_value(&value),
        vec![
            Styled::Field { key: "Name".to_string(), value: "x".to_string() },
            Styled::Field { key: "N".to_string(), value: "3".to_string() },
            Styled::Field { key: "Flag".to_string(), value: "true".to_string() },
            Styled::Field { key: "None".to_string(), value: String::new() },
            Styled::Text { text: "a".to_string(), color: Color::Plain },
            Styled::Text { text: "1.5".to_string(), color: Color::Plain },
        ]
    );
    assert_eq!(
        print_value(&JsonValue::Bool(false)),
        vec![Styled::Text { text: "false".to_string(), color: Color::Plain }]
    );
}

#[test]
fn error_messages() {
    assert_eq!(AppError::JobNotFound("x".to_string()).message(), "Job not found: x");
    assert_eq!(
        AppError::Status(500, "kaboom".to_string()).message(),
        "An error occurred, status code: 500\nkaboom"
    );
    assert_eq!(
        AppError::NoAuth.message(),
        "You have to configure auth info to use this command.\nRun \"jenkins auth save\" first."
    );
    assert_eq!(
        AppError::WaitTimeout("q".to_string()).message(),
        "Timed out waiting for the build to finish.\nq"
    );
}
