use jirafs::logging::{format_line, should_log, Level};
use jirafs::redact::redacted;

#[test]
fn redacts_toml_api_token() {
    let input = r#"api_token = "secret-token""#;
    let output = redacted(input);
    assert_eq!(output, r#"api_token = "***REDACTED***""#);
}

#[test]
fn redacts_cli_api_token() {
    let input = "jirafs --jira-api-token supersecret /tmp/mnt";
    let output = redacted(input);
    assert_eq!(output, "jirafs --jira-api-token ***REDACTED*** /tmp/mnt");
}

#[test]
fn redacts_escaped_toml_api_token() {
    let input = r#"raw: Some(\"api_token = \\\"secret-token\\\"\")"#;
    let output = redacted(input);
    assert!(output.contains("***REDACTED***"));
    assert!(!output.contains("secret-token"));
}

#[test]
fn redacts_json_api_token_and_leaves_other_text() {
    assert_eq!(
        redacted(r#"{"api_token": "abc", "email": "e"}"#),
        r#"{"api_token": "***REDACTED***", "email": "e"}"#
    );
    assert_eq!(redacted("nothing to hide"), "nothing to hide");
    assert_eq!(redacted(""), "");
    assert_eq!(
        redacted("API_TOKEN='x y' and --JIRA-API-TOKEN z"),
        "API_TOKEN='***REDACTED***' and --JIRA-API-TOKEN ***REDACTED***"
    );
}

#[test]
fn log_lines_carry_time_level_and_masked_message() {
    assert_eq!(
        format_line(1_700_000_000, Level::Info, "starting"),
        "[1700000000][INFO] starting"
    );
    assert_eq!(
        format_line(0, Level::Warn, "jirafs --jira-api-token s3cret /mnt"),
        "[0][WARN] jirafs --jira-api-token ***REDACTED*** /mnt"
    );
    assert_eq!(format_line(7, Level::Debug, ""), "[7][DEBUG] ");
    assert_eq!(format_line(7, Level::Error, "x"), "[7][ERROR] x");
}

#[test]
fn debug_lines_are_written_only_on_request() {
    assert!(!should_log(Level::Debug, false));
    assert!(should_log(Level::Debug, true));
    for level in [Level::Info, Level::Warn, Level::Error] {
        assert!(should_log(level, false));
        assert!(should_log(level, true));
    }
}
