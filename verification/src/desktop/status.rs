//! The status the desktop companion shows: what the sync meta files say, and what
//! follows from a probe of the service.

use vstd::prelude::*;
use crate::decimal::{parse_u64, parse_unsigned};
use crate::desktop::{
    ServiceProbeError, ServiceProbeErrorKind, format_probe_error, probe_error_text,
};
use crate::lines::texts;
use crate::text::{
    chars_of, has_substring, opt_text, owned, str_contains, str_eq, string_of, trim, trimmed,
};

verus! {

/// What the sync meta files say.
#[derive(Debug, Clone)]
pub struct SyncStatusDto {
    pub last_sync: Option<String>,
    pub last_full_sync: Option<String>,
    pub seconds_to_next_sync: Option<u64>,
    pub sync_in_progress: bool,
}

/// Which refresh a user asks for.
#[derive(Debug, Clone, Copy, PartialEq, Eq, Structural)]
pub enum SyncTriggerKind {
    Resync,
    FullResync,
}

/// The trimmed content of a file that could be read and is not blank.
pub open spec fn trimmed_content(raw: Option<Seq<char>>) -> Option<Seq<char>> {
    match raw {
        Some(text) => if trim(text).len() == 0 {
            None
        } else {
            Some(trim(text))
        },
        None => None,
    }
}

/// The trimmed content of a file: `None` for a file that could not be read and for a
/// blank one.
pub fn optional_trimmed(raw: &Option<String>) -> (r: Option<String>)
    ensures
        opt_text(r) == trimmed_content(opt_text(*raw)),
{
    match raw {
        Some(text) => {
            let t = trimmed(&chars_of(text.as_str()));
            if t.len() == 0 {
                None
            } else {
                Some(string_of(&t))
            }
        },
        None => None,
    }
}

/// The number that the content of `seconds_to_next_sync` denotes.
pub open spec fn seconds_of(content: Option<Seq<char>>) -> Option<u64> {
    match content {
        Some(text) => match parse_unsigned(text, u64::MAX as nat) {
            Some(n) => Some(n as u64),
            None => None,
        },
        None => None,
    }
}

/// Whether the content of a trigger file says that a sync is running.
pub open spec fn says_in_progress(content: Option<Seq<char>>) -> bool {
    match content {
        Some(text) => has_substring(text, "sync in progress"@),
        None => false,
    }
}

fn mentions_progress(content: &Option<String>) -> (r: bool)
    ensures
        r == says_in_progress(opt_text(*content)),
{
    match content {
        Some(text) => str_contains(&chars_of(text.as_str()), "sync in progress"),
        None => false,
    }
}

/// The status that the five sync meta files give, each handed in as its content or
/// `None` where it could not be read. Fails exactly when none of `last_sync`,
/// `last_full_sync` and `seconds_to_next_sync` gives a value.
pub fn sync_status_from(
    last_sync: &Option<String>,
    last_full_sync: &Option<String>,
    seconds_to_next_sync: &Option<String>,
    manual_refresh: &Option<String>,
    full_refresh: &Option<String>,
) -> (r: Result<SyncStatusDto, String>)
    ensures
        ({
            let last = trimmed_content(opt_text(*last_sync));
            let last_full = trimmed_content(opt_text(*last_full_sync));
            let seconds = seconds_of(trimmed_content(opt_text(*seconds_to_next_sync)));
            match r {
                Ok(status) => {
                    &&& !(last is None && last_full is None && seconds is None)
                    &&& opt_text(status.last_sync) == last
                    &&& opt_text(status.last_full_sync) == last_full
                    &&& status.seconds_to_next_sync == seconds
                    &&& status.sync_in_progress == (says_in_progress(
                        trimmed_content(opt_text(*manual_refresh)),
                    ) || says_in_progress(trimmed_content(opt_text(*full_refresh))))
                },
                Err(message) => last is None && last_full is None && seconds is None && message@
                    == "sync metadata files are unavailable"@,
            }
        }),
{
    let last = optional_trimmed(last_sync);
    let last_full = optional_trimmed(last_full_sync);
    let seconds = match optional_trimmed(seconds_to_next_sync) {
        Some(text) => parse_u64(&chars_of(text.as_str())),
        None => None,
    };
    let manual = optional_trimmed(manual_refresh);
    let full = optional_trimmed(full_refresh);
    let sync_in_progress = mentions_progress(&manual) || mentions_progress(&full);
    if last.is_none() && last_full.is_none() && seconds.is_none() {
        return Err(owned("sync metadata files are unavailable"));
    }
    Ok(
        SyncStatusDto {
            last_sync: last,
            last_full_sync: last_full,
            seconds_to_next_sync: seconds,
            sync_in_progress,
        },
    )
}

/// The status of a service that does not run: nothing known, no sync.
pub fn empty_sync_status() -> (s: SyncStatusDto)
    ensures
        s.last_sync is None,
        s.last_full_sync is None,
        s.seconds_to_next_sync is None,
        !s.sync_in_progress,
{
    SyncStatusDto {
        last_sync: None,
        last_full_sync: None,
        seconds_to_next_sync: None,
        sync_in_progress: false,
    }
}

/// The name of the meta file that asks for a refresh of this kind.
pub open spec fn trigger_name(kind: SyncTriggerKind) -> Seq<char> {
    match kind {
        SyncTriggerKind::Resync => "manual_refresh"@,
        SyncTriggerKind::FullResync => "full_refresh"@,
    }
}

/// The name of the meta file that asks for a refresh of this kind.
pub fn trigger_file_name(kind: SyncTriggerKind) -> (name: &'static str)
    ensures
        name@ == trigger_name(kind),
{
    match kind {
        SyncTriggerKind::Resync => "manual_refresh",
        SyncTriggerKind::FullResync => "full_refresh",
    }
}

/// The kind of refresh that a word asks for: `resync` or `full_resync`.
pub fn parse_trigger_kind(kind: &str) -> (r: Option<SyncTriggerKind>)
    ensures
        r == (if kind@ == "resync"@ {
            Some(SyncTriggerKind::Resync)
        } else if kind@ == "full_resync"@ {
            Some(SyncTriggerKind::FullResync)
        } else {
            None
        }),
{
    if str_eq(kind, "resync") {
        Some(SyncTriggerKind::Resync)
    } else if str_eq(kind, "full_resync") {
        Some(SyncTriggerKind::FullResync)
    } else {
        None
    }
}

/// What a probe of the service found.
#[derive(Debug, Clone)]
pub struct ServiceProbe {
    pub installed: bool,
    pub running: bool,
    pub config_path: Option<String>,
    pub mountpoint: Option<String>,
}

/// How the service is doing.
#[derive(Debug, Clone, Copy, PartialEq, Eq, Structural)]
pub enum SyncStateValue {
    Stopped,
    Running,
    Syncing,
    Degraded,
}

/// Where the paths of the status come from.
#[derive(Debug, Clone, Copy, PartialEq, Eq, Structural)]
pub enum PathSource {
    ServiceArgs,
    KnownDefaults,
    ConfigResolver,
}

/// The status shown to the user.
#[derive(Debug)]
pub struct AppStatusDto {
    pub platform: String,
    pub service_installed: bool,
    pub service_running: bool,
    pub sync_state: SyncStateValue,
    pub config_path: Option<String>,
    pub mountpoint: Option<String>,
    pub path_source: PathSource,
    pub sync: SyncStatusDto,
    pub errors: Vec<String>,
}

/// What is known after the probe, before the sync meta files are read.
#[derive(Debug)]
pub struct ProbedStatus {
    pub installed: bool,
    pub running: bool,
    pub config_path: Option<String>,
    pub mountpoint: Option<String>,
    pub path_source: PathSource,
    pub errors: Vec<String>,
}

/// Where the paths come from: the resolver where the probe gave no configuration
/// path; else the defaults where it gave no mount point; else the service's own
/// arguments.
pub open spec fn path_source_of(config_path: Option<Seq<char>>, mountpoint: Option<Seq<char>>) -> PathSource {
    if config_path is None {
        PathSource::ConfigResolver
    } else if mountpoint is None {
        PathSource::KnownDefaults
    } else {
        PathSource::ServiceArgs
    }
}

/// What follows from a probe. A failed probe leaves one error line, and a service
/// that does not run and counts as installed unless the failure says it is not. A
/// missing mount point is taken from `default_mountpoint`, a missing configuration
/// path from `resolved_config_path`.
pub fn probed_status(
    probe: Result<ServiceProbe, ServiceProbeError>,
    default_mountpoint: Option<String>,
    resolved_config_path: Option<String>,
) -> (s: ProbedStatus)
    ensures
        match probe {
            Ok(p) => {
                &&& s.installed == p.installed
                &&& s.running == p.running
                &&& s.errors@.len() == 0
                &&& opt_text(s.config_path) == (if p.config_path is Some {
                    opt_text(p.config_path)
                } else {
                    opt_text(resolved_config_path)
                })
                &&& opt_text(s.mountpoint) == (if p.mountpoint is Some {
                    opt_text(p.mountpoint)
                } else {
                    opt_text(default_mountpoint)
                })
                &&& s.path_source == path_source_of(
                    opt_text(p.config_path),
                    opt_text(p.mountpoint),
                )
            },
            Err(e) => {
                &&& s.installed == (e.kind != ServiceProbeErrorKind::NotInstalled)
                &&& !s.running
                &&& texts(s.errors@) == seq![probe_error_text(e.kind, e.message@)]
                &&& opt_text(s.config_path) == opt_text(resolved_config_path)
                &&& opt_text(s.mountpoint) == opt_text(default_mountpoint)
                &&& s.path_source == PathSource::ConfigResolver
            },
        },
{
    let mut errors: Vec<String> = Vec::new();
    let probe = match probe {
        Ok(value) => value,
        Err(error) => {
            errors.push(format_probe_error(&error));
            assert(texts(errors@) =~= seq![probe_error_text(error.kind, error.message@)]);
            let installed = match error.kind {
                ServiceProbeErrorKind::NotInstalled => false,
                _ => true,
            };
            ServiceProbe { installed, running: false, config_path: None, mountpoint: None }
        },
    };
    let mut path_source = PathSource::ServiceArgs;
    let mut config_path = probe.config_path;
    let mut mountpoint = probe.mountpoint;
    if mountpoint.is_none() {
        mountpoint = default_mountpoint;
        path_source = PathSource::KnownDefaults;
    }
    if config_path.is_none() {
        config_path = resolved_config_path;
        path_source = PathSource::ConfigResolver;
    }
    ProbedStatus {
        installed: probe.installed,
        running: probe.running,
        config_path,
        mountpoint,
        path_source,
        errors,
    }
}

/// How the service is doing: stopped where it does not run; else syncing where a sync
/// is in progress; else running where nothing went wrong, and degraded where
/// something did.
pub open spec fn sync_state_of(running: bool, in_progress: bool, errors: nat) -> SyncStateValue {
    if !running {
        SyncStateValue::Stopped
    } else if in_progress {
        SyncStateValue::Syncing
    } else if errors == 0 {
        SyncStateValue::Running
    } else {
        SyncStateValue::Degraded
    }
}

/// The status shown to the user, from what the probe gave and what reading the sync
/// meta files gave. `sync_read` is `None` where they were not read: the service does
/// not run, or has no mount point, which is an error of its own for a running service.
pub fn assemble_status(
    platform: String,
    probed: ProbedStatus,
    sync_read: Option<Result<SyncStatusDto, String>>,
) -> (status: AppStatusDto)
    ensures
        status.platform == platform,
        status.service_installed == probed.installed,
        status.service_running == probed.running,
        status.config_path == probed.config_path,
        status.mountpoint == probed.mountpoint,
        status.path_source == probed.path_source,
        status.sync_state == sync_state_of(
            probed.running,
            status.sync.sync_in_progress,
            status.errors@.len(),
        ),
        texts(status.errors@) == (if !probed.running {
            texts(probed.errors@)
        } else {
            match sync_read {
                Some(Ok(_)) => texts(probed.errors@),
                Some(Err(message)) => texts(probed.errors@).push(message@),
                None => texts(probed.errors@).push("mountpoint is unresolved"@),
            }
        }),
        match sync_read {
            Some(Ok(sync)) => if probed.running {
                status.sync == sync
            } else {
                status.sync.last_sync is None && !status.sync.sync_in_progress
            },
            _ => status.sync.last_sync is None && status.sync.last_full_sync is None
                && status.sync.seconds_to_next_sync is None && !status.sync.sync_in_progress,
        },
{
    let mut errors = probed.errors;
    let ghost before = texts(errors@);
    let sync = if probed.running {
        match sync_read {
            Some(Ok(value)) => value,
            Some(Err(message)) => {
                errors.push(message);
                assert(texts(errors@) =~= before.push(message@));
                empty_sync_status()
            },
            None => {
                errors.push(owned("mountpoint is unresolved"));
                assert(texts(errors@) =~= before.push("mountpoint is unresolved"@));
                empty_sync_status()
            },
        }
    } else {
        empty_sync_status()
    };
    let sync_state = if !probed.running {
        SyncStateValue::Stopped
    } else if sync.sync_in_progress {
        SyncStateValue::Syncing
    } else if errors.len() == 0 {
        SyncStateValue::Running
    } else {
        SyncStateValue::Degraded
    };
    AppStatusDto {
        platform,
        service_installed: probed.installed,
        service_running: probed.running,
        sync_state,
        config_path: probed.config_path,
        mountpoint: probed.mountpoint,
        path_source: probed.path_source,
        sync,
        errors,
    }
}

/// Why a request for a refresh was or was not passed on.
#[derive(Debug, Clone, Copy, PartialEq, Eq, Structural)]
pub enum TriggerReason {
    Accepted,
    AlreadySyncing,
    ServiceNotRunning,
    MountpointUnavailable,
    TriggerWriteFailed,
}

/// The answer to a request for a refresh.
#[derive(Debug, Clone, Copy, PartialEq, Eq, Structural)]
pub struct TriggerSyncResultDto {
    pub accepted: bool,
    pub reason: TriggerReason,
}

/// Why a request for a refresh is turned down before anything is written, if it is:
/// the service does not run; or it has no mount point; or a sync is in progress; or
/// the mount point does not exist. These are looked at in this order.
pub open spec fn refusal(
    running: bool,
    has_mountpoint: bool,
    in_progress: bool,
    mountpoint_exists: bool,
) -> Option<TriggerReason> {
    if !running {
        Some(TriggerReason::ServiceNotRunning)
    } else if !has_mountpoint {
        Some(TriggerReason::MountpointUnavailable)
    } else if in_progress {
        Some(TriggerReason::AlreadySyncing)
    } else if !mountpoint_exists {
        Some(TriggerReason::MountpointUnavailable)
    } else {
        None
    }
}

/// Why a request for a refresh is turned down before anything is written, if it is.
pub fn trigger_refusal(status: &AppStatusDto, mountpoint_exists: bool) -> (r: Option<
    TriggerSyncResultDto,
>)
    ensures
        match refusal(
            status.service_running,
            status.mountpoint is Some,
            status.sync.sync_in_progress,
            mountpoint_exists,
        ) {
            Some(reason) => r == Some(TriggerSyncResultDto { accepted: false, reason }),
            None => r is None,
        },
{
    if !status.service_running {
        return Some(
            TriggerSyncResultDto { accepted: false, reason: TriggerReason::ServiceNotRunning },
        );
    }
    if status.mountpoint.is_none() {
        return Some(
            TriggerSyncResultDto { accepted: false, reason: TriggerReason::MountpointUnavailable },
        );
    }
    if status.sync.sync_in_progress {
        return Some(TriggerSyncResultDto { accepted: false, reason: TriggerReason::AlreadySyncing });
    }
    if !mountpoint_exists {
        return Some(
            TriggerSyncResultDto { accepted: false, reason: TriggerReason::MountpointUnavailable },
        );
    }
    None
}

/// The answer once the trigger file was written, or could not be.
pub fn trigger_outcome(written: bool) -> (r: TriggerSyncResultDto)
    ensures
        r == (if written {
            TriggerSyncResultDto { accepted: true, reason: TriggerReason::Accepted }
        } else {
            TriggerSyncResultDto { accepted: false, reason: TriggerReason::TriggerWriteFailed }
        }),
{
    if written {
        TriggerSyncResultDto { accepted: true, reason: TriggerReason::Accepted }
    } else {
        TriggerSyncResultDto { accepted: false, reason: TriggerReason::TriggerWriteFailed }
    }
}

} // verus!
