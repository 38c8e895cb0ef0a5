use jirafs::desktop::service::{parse_exec_start_args, parse_program_arguments};
use jirafs::desktop::{
    classify_probe_failure, format_probe_error, normalize_workspace_inputs, LogBufferState,
    ServiceProbeError, ServiceProbeErrorKind, WorkspaceJqlInputDto,
};

#[test]
fn normalize_workspace_inputs_rejects_duplicate_names() {
    let values = vec![
        WorkspaceJqlInputDto {
            name: "ops".to_string(),
            jql: "project = OPS".to_string(),
        },
        WorkspaceJqlInputDto {
            name: "ops".to_string(),
            jql: "project = OPS ORDER BY updated DESC".to_string(),
        },
    ];

    let err = normalize_workspace_inputs(&values).expect_err("duplicates should fail");
    assert!(err.contains("duplicated"));
}

#[test]
fn log_buffer_keeps_recent_lines() {
    let mut state = LogBufferState::new(2);
    state.push_line("journalctl", "one".to_string());
    state.push_line("journalctl", "two".to_string());
    state.push_line("journalctl", "three".to_string());

    let rows = state.snapshot();
    assert_eq!(rows.len(), 2);
    assert_eq!(rows[0].line, "two");
    assert_eq!(rows[1].line, "three");
}

#[test]
fn parses_launchd_program_arguments() {
    let content = r#"
<key>ProgramArguments</key>
<array>
  <string>/usr/local/bin/jirafs</string>
  <string>--config</string>
  <string>/tmp/config.toml</string>
  <string>/tmp/jirafs</string>
</array>
"#;

    let (config, mountpoint) = parse_program_arguments(content);
    assert_eq!(config.as_deref(), Some("/tmp/config.toml"));
    assert_eq!(mountpoint.as_deref(), Some("/tmp/jirafs"));
}

#[test]
fn parses_systemd_exec_start_args() {
    let content = r#"
[Unit]
Description=jirafs FUSE mount
[Service]
ExecStart=/usr/local/bin/jirafs --config /tmp/config.toml /tmp/mount
"#;
    let (config, mountpoint) = parse_exec_start_args(content);
    assert_eq!(config.as_deref(), Some("/tmp/config.toml"));
    assert_eq!(mountpoint.as_deref(), Some("/tmp/mount"));
}

#[test]
fn exec_start_words_follow_shell_quoting() {
    let content = "ExecStart=/bin/jirafs --config \"/tmp/my config.toml\" '/mnt/my jirafs'\n";
    let (config, mountpoint) = parse_exec_start_args(content);
    assert_eq!(config.as_deref(), Some("/tmp/my config.toml"));
    assert_eq!(mountpoint.as_deref(), Some("/mnt/my jirafs"));
}

#[test]
fn exec_start_with_open_quote_is_skipped() {
    let content = "ExecStart=/bin/jirafs \"/mnt/open\n";
    let (config, mountpoint) = parse_exec_start_args(content);
    assert_eq!(config, None);
    assert_eq!(mountpoint, None);
}

#[test]
fn program_arguments_stop_at_the_end_of_the_array() {
    let content = "<key>ProgramArguments</key>\n<array>\n<string>/bin/jirafs</string>\n</array>\n<string>/later</string>\n";
    let (config, mountpoint) = parse_program_arguments(content);
    assert_eq!(config, None);
    assert_eq!(mountpoint.as_deref(), Some("/bin/jirafs"));
}

#[test]
fn config_flag_as_last_argument_gives_no_path() {
    let content = "<key>ProgramArguments</key>\n<string>/mnt</string>\n<string>--config</string>\n";
    let (config, mountpoint) = parse_program_arguments(content);
    assert_eq!(config, None);
    assert_eq!(mountpoint.as_deref(), Some("/mnt"));
}

#[test]
fn probe_failures_are_classified_by_their_words() {
    assert_eq!(
        classify_probe_failure("Permission denied"),
        ServiceProbeErrorKind::Permission
    );
    assert_eq!(
        classify_probe_failure("ACCESS DENIED by policy"),
        ServiceProbeErrorKind::Permission
    );
    assert_eq!(
        classify_probe_failure("Unit jirafs.service could not be found."),
        ServiceProbeErrorKind::NotInstalled
    );
    assert_eq!(
        classify_probe_failure("No such file or directory"),
        ServiceProbeErrorKind::NotInstalled
    );
    assert_eq!(
        classify_probe_failure("connection timed out"),
        ServiceProbeErrorKind::Unreachable
    );
    assert_eq!(classify_probe_failure(""), ServiceProbeErrorKind::Unreachable);
}

#[test]
fn probe_error_line_names_the_kind() {
    let e = ServiceProbeError {
        kind: ServiceProbeErrorKind::NotInstalled,
        message: "unit missing".to_string(),
    };
    assert_eq!(
        format_probe_error(&e),
        "service probe failed (not_installed): unit missing"
    );
}

#[test]
fn workspace_inputs_are_trimmed_and_checked_in_order() {
    let ok = normalize_workspace_inputs(&vec![WorkspaceJqlInputDto {
        name: "  ops ".to_string(),
        jql: " project = OPS\n".to_string(),
    }])
    .expect("valid");
    assert_eq!(ok.len(), 1);
    assert_eq!(ok[0].name, "ops");
    assert_eq!(ok[0].jql, "project = OPS");

    assert_eq!(
        normalize_workspace_inputs(&vec![]).expect_err("empty"),
        "at least one workspace is required"
    );
    assert_eq!(
        normalize_workspace_inputs(&vec![WorkspaceJqlInputDto {
            name: " ".to_string(),
            jql: "x".to_string(),
        }])
        .expect_err("blank name"),
        "workspace name must not be empty"
    );
    assert_eq!(
        normalize_workspace_inputs(&vec![WorkspaceJqlInputDto {
            name: "eng".to_string(),
            jql: " ".to_string(),
        }])
        .expect_err("blank jql"),
        "workspace 'eng' jql must not be empty"
    );
    assert_eq!(
        normalize_workspace_inputs(&vec![
            WorkspaceJqlInputDto {
                name: "eng".to_string(),
                jql: "a".to_string(),
            },
            WorkspaceJqlInputDto {
                name: " eng".to_string(),
                jql: "b".to_string(),
            },
        ])
        .expect_err("duplicate"),
        "workspace 'eng' is duplicated"
    );
}
