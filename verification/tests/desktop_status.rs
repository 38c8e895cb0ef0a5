use jirafs::desktop::status::{
    assemble_status, empty_sync_status, optional_trimmed, parse_trigger_kind, probed_status,
    sync_status_from, trigger_file_name, trigger_outcome, trigger_refusal, PathSource,
    ServiceProbe, SyncStateValue, SyncTriggerKind, TriggerReason,
};
use jirafs::desktop::{ServiceProbeError, ServiceProbeErrorKind};

fn some(s: &str) -> Option<String> {
    Some(s.to_string())
}

#[test]
fn parse_sync_status_when_files_exist() {
    let status = sync_status_from(
        &some("10 seconds ago\n"),
        &some("never\n"),
        &some("4\n"),
        &some("sync in progress\n"),
        &some("write '1' or 'true'\n"),
    )
    .expect("status should parse");
    assert_eq!(status.last_sync.as_deref(), Some("10 seconds ago"));
    assert_eq!(status.last_full_sync.as_deref(), Some("never"));
    assert_eq!(status.seconds_to_next_sync, Some(4));
    assert!(status.sync_in_progress);
}

#[test]
fn status_needs_one_of_the_three_values() {
    assert_eq!(
        sync_status_from(&None, &None, &None, &some("sync in progress"), &None).err(),
        some("sync metadata files are unavailable")
    );
    assert_eq!(
        sync_status_from(&some("  "), &some(""), &some("soon"), &None, &None).err(),
        some("sync metadata files are unavailable")
    );
    let only_seconds = sync_status_from(&None, &None, &some(" 12 "), &None, &None).expect("ok");
    assert_eq!(only_seconds.seconds_to_next_sync, Some(12));
    assert_eq!(only_seconds.last_sync, None);
    assert!(!only_seconds.sync_in_progress);
    let full = sync_status_from(&None, &some("never"), &some("x"), &None, &some("... sync in progress ..."))
        .expect("ok");
    assert_eq!(full.seconds_to_next_sync, None);
    assert!(full.sync_in_progress);
}

#[test]
fn file_contents_are_trimmed_and_blank_ones_dropped() {
    assert_eq!(optional_trimmed(&some(" a \n")), some("a"));
    assert_eq!(optional_trimmed(&some(" \n")), None);
    assert_eq!(optional_trimmed(&some("")), None);
    assert_eq!(optional_trimmed(&None), None);
    let empty = empty_sync_status();
    assert!(empty.last_sync.is_none() && empty.last_full_sync.is_none());
    assert!(empty.seconds_to_next_sync.is_none() && !empty.sync_in_progress);
}

#[test]
fn trigger_kinds_and_their_files() {
    assert_eq!(parse_trigger_kind("resync"), Some(SyncTriggerKind::Resync));
    assert_eq!(parse_trigger_kind("full_resync"), Some(SyncTriggerKind::FullResync));
    assert_eq!(parse_trigger_kind("Resync"), None);
    assert_eq!(parse_trigger_kind(""), None);
    assert_eq!(trigger_file_name(SyncTriggerKind::Resync), "manual_refresh");
    assert_eq!(trigger_file_name(SyncTriggerKind::FullResync), "full_refresh");
}

fn probe(running: bool, config: Option<&str>, mountpoint: Option<&str>) -> ServiceProbe {
    ServiceProbe {
        installed: true,
        running,
        config_path: config.map(str::to_string),
        mountpoint: mountpoint.map(str::to_string),
    }
}

#[test]
fn paths_come_from_the_service_then_defaults_then_the_resolver() {
    let s = probed_status(Ok(probe(true, Some("/c.toml"), Some("/mnt"))), some("/home/jirafs"), some("/r.toml"));
    assert_eq!(s.path_source, PathSource::ServiceArgs);
    assert_eq!(s.config_path, some("/c.toml"));
    assert_eq!(s.mountpoint, some("/mnt"));
    assert!(s.errors.is_empty());
    let s = probed_status(Ok(probe(true, Some("/c.toml"), None)), some("/home/jirafs"), some("/r.toml"));
    assert_eq!(s.path_source, PathSource::KnownDefaults);
    assert_eq!(s.mountpoint, some("/home/jirafs"));
    let s = probed_status(Ok(probe(false, None, Some("/mnt"))), None, some("/r.toml"));
    assert_eq!(s.path_source, PathSource::ConfigResolver);
    assert_eq!(s.config_path, some("/r.toml"));
    let s = probed_status(Ok(probe(false, None, None)), None, None);
    assert_eq!(s.path_source, PathSource::ConfigResolver);
    assert_eq!(s.config_path, None);
    assert_eq!(s.mountpoint, None);
}

#[test]
fn a_failed_probe_leaves_an_error_line() {
    let failed = |kind| {
        probed_status(
            Err(ServiceProbeError { kind, message: "no bus".to_string() }),
            some("/d"),
            some("/r"),
        )
    };
    let s = failed(ServiceProbeErrorKind::Unreachable);
    assert!(s.installed);
    assert!(!s.running);
    assert_eq!(s.errors, vec!["service probe failed (unreachable): no bus"]);
    assert_eq!(s.path_source, PathSource::ConfigResolver);
    assert_eq!(s.mountpoint, some("/d"));
    assert_eq!(s.config_path, some("/r"));
    assert!(!failed(ServiceProbeErrorKind::NotInstalled).installed);
    assert!(failed(ServiceProbeErrorKind::Permission).installed);
    assert!(failed(ServiceProbeErrorKind::ParseError).installed);
}

#[test]
fn state_follows_running_syncing_and_errors() {
    let status = |running: bool, read| {
        assemble_status(
            "linux".to_string(),
            probed_status(Ok(probe(running, Some("/c"), Some("/m"))), None, None),
            read,
        )
    };
    let mut syncing = empty_sync_status();
    syncing.sync_in_progress = true;
    let mut idle = empty_sync_status();
    idle.last_sync = some("1 seconds ago");

    let s = status(false, None);
    assert_eq!(s.sync_state, SyncStateValue::Stopped);
    assert!(s.errors.is_empty());
    assert_eq!(s.platform, "linux");
    assert!(s.service_installed && !s.service_running);
    let s = status(false, Some(Ok(syncing.clone())));
    assert_eq!(s.sync_state, SyncStateValue::Stopped);
    assert!(!s.sync.sync_in_progress);
    let s = status(true, Some(Ok(syncing)));
    assert_eq!(s.sync_state, SyncStateValue::Syncing);
    let s = status(true, Some(Ok(idle)));
    assert_eq!(s.sync_state, SyncStateValue::Running);
    assert_eq!(s.sync.last_sync, some("1 seconds ago"));
    let s = status(true, Some(Err("sync metadata files are unavailable".to_string())));
    assert_eq!(s.sync_state, SyncStateValue::Degraded);
    assert_eq!(s.errors, vec!["sync metadata files are unavailable"]);
    let s = status(true, None);
    assert_eq!(s.sync_state, SyncStateValue::Degraded);
    assert_eq!(s.errors, vec!["mountpoint is unresolved"]);
}

#[test]
fn refresh_requests_are_turned_down_in_order() {
    let status = |running: bool, mountpoint: Option<&str>, in_progress: bool| {
        let mut sync = empty_sync_status();
        sync.sync_in_progress = in_progress;
        sync.last_sync = some("x");
        assemble_status(
            "linux".to_string(),
            probed_status(Ok(probe(running, Some("/c"), mountpoint)), None, None),
            Some(Ok(sync)),
        )
    };
    let reason = |s, exists| trigger_refusal(&s, exists).map(|r| (r.accepted, r.reason));
    assert_eq!(
        reason(status(false, None, true), false),
        Some((false, TriggerReason::ServiceNotRunning))
    );
    assert_eq!(
        reason(status(true, None, true), true),
        Some((false, TriggerReason::MountpointUnavailable))
    );
    assert_eq!(
        reason(status(true, Some("/m"), true), false),
        Some((false, TriggerReason::AlreadySyncing))
    );
    assert_eq!(
        reason(status(true, Some("/m"), false), false),
        Some((false, TriggerReason::MountpointUnavailable))
    );
    assert_eq!(reason(status(true, Some("/m"), false), true), None);
    let ok = trigger_outcome(true);
    assert!(ok.accepted);
    assert_eq!(ok.reason, TriggerReason::Accepted);
    let failed = trigger_outcome(false);
    assert!(!failed.accepted);
    assert_eq!(failed.reason, TriggerReason::TriggerWriteFailed);
}
