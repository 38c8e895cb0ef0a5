//! What the desktop companion decides: how a service probe failed, what the service
//! was started with, what the sync status says, and which workspaces a user may save.

pub mod service;
pub mod status;

use vstd::prelude::*;
use crate::text::{
    chars_of, has_substring, lower_ascii, lowered, opt_text, owned, push_str, str_contains, str_eq,
    string_of, trim, trimmed,
};

verus! {

/// Why a probe of the service failed.
#[derive(Debug, Clone, Copy, PartialEq, Eq, Structural)]
pub enum ServiceProbeErrorKind {
    Permission,
    NotInstalled,
    Unreachable,
    ParseError,
}

/// A failed probe: its kind and a message.
#[derive(Debug, Clone)]
pub struct ServiceProbeError {
    pub kind: ServiceProbeErrorKind,
    pub message: String,
}

/// What a command printed and whether it succeeded.
#[derive(Debug)]
pub struct CommandOutput {
    pub status_ok: bool,
    pub stdout: String,
    pub stderr: String,
}

/// The kind of failure that an error output speaks of, without regard to case:
/// `Permission` where it mentions permission or denied access; else `NotInstalled`
/// where it says that something was not found; else `Unreachable`.
pub open spec fn probe_failure_kind(stderr: Seq<char>) -> ServiceProbeErrorKind {
    let lowered = lower_ascii(stderr);
    if has_substring(lowered, "permission"@) || has_substring(lowered, "access denied"@) {
        ServiceProbeErrorKind::Permission
    } else if has_substring(lowered, "not found"@) || has_substring(lowered, "could not be found"@)
        || has_substring(lowered, "no such file"@) {
        ServiceProbeErrorKind::NotInstalled
    } else {
        ServiceProbeErrorKind::Unreachable
    }
}

/// The kind of failure that an error output speaks of.
pub fn classify_probe_failure(stderr: &str) -> (kind: ServiceProbeErrorKind)
    ensures
        kind == probe_failure_kind(stderr@),
{
    let lowered = lowered(&chars_of(stderr));
    if str_contains(&lowered, "permission") || str_contains(&lowered, "access denied") {
        ServiceProbeErrorKind::Permission
    } else if str_contains(&lowered, "not found") || str_contains(&lowered, "could not be found")
        || str_contains(&lowered, "no such file") {
        ServiceProbeErrorKind::NotInstalled
    } else {
        ServiceProbeErrorKind::Unreachable
    }
}

/// The word for a kind of probe failure.
pub open spec fn kind_word(kind: ServiceProbeErrorKind) -> Seq<char> {
    match kind {
        ServiceProbeErrorKind::Permission => "permission"@,
        ServiceProbeErrorKind::NotInstalled => "not_installed"@,
        ServiceProbeErrorKind::Unreachable => "unreachable"@,
        ServiceProbeErrorKind::ParseError => "parse_error"@,
    }
}

/// The line shown for a failed probe.
pub open spec fn probe_error_text(kind: ServiceProbeErrorKind, message: Seq<char>) -> Seq<char> {
    "service probe failed ("@ + kind_word(kind) + "): "@ + message
}

/// The line shown for a failed probe.
pub fn format_probe_error(error: &ServiceProbeError) -> (r: String)
    ensures
        r@ == probe_error_text(error.kind, error.message@),
{
    let kind = match error.kind {
        ServiceProbeErrorKind::Permission => "permission",
        ServiceProbeErrorKind::NotInstalled => "not_installed",
        ServiceProbeErrorKind::Unreachable => "unreachable",
        ServiceProbeErrorKind::ParseError => "parse_error",
    };
    let mut out: Vec<char> = Vec::new();
    push_str(&mut out, "service probe failed (");
    push_str(&mut out, kind);
    push_str(&mut out, "): ");
    push_str(&mut out, error.message.as_str());
    assert(out@ =~= probe_error_text(error.kind, error.message@));
    string_of(&out)
}

/// A workspace as a user enters it.
#[derive(Debug, Clone)]
pub struct WorkspaceJqlInputDto {
    pub name: String,
    pub jql: String,
}

/// The message for a workspace without a query.
pub open spec fn missing_jql_message(name: Seq<char>) -> Seq<char> {
    "workspace '"@ + name + "' jql must not be empty"@
}

/// The message for a workspace name that was entered twice.
pub open spec fn duplicated_message(name: Seq<char>) -> Seq<char> {
    "workspace '"@ + name + "' is duplicated"@
}

/// Whether the trimmed name at index `j` is that of an earlier entry too.
pub open spec fn entered_before(workspaces: Seq<WorkspaceJqlInputDto>, j: int) -> bool {
    exists|i: int| 0 <= i < j && trim((#[trigger] workspaces[i]).name@) == trim(workspaces[j].name@)
}

/// What is wrong with the first entry of `workspaces[from..]` that has a blank name,
/// a blank query, or the name of an earlier entry.
pub open spec fn input_error(workspaces: Seq<WorkspaceJqlInputDto>, from: int) -> Option<
    Seq<char>,
>
    decreases workspaces.len() - from,
{
    if from < 0 || from >= workspaces.len() {
        None
    } else if trim(workspaces[from].name@).len() == 0 {
        Some("workspace name must not be empty"@)
    } else if trim(workspaces[from].jql@).len() == 0 {
        Some(missing_jql_message(trim(workspaces[from].name@)))
    } else if entered_before(workspaces, from) {
        Some(duplicated_message(trim(workspaces[from].name@)))
    } else {
        input_error(workspaces, from + 1)
    }
}

/// What is wrong with a list of entered workspaces, if anything: it is empty, or one
/// of its entries is wrong.
pub open spec fn inputs_error(workspaces: Seq<WorkspaceJqlInputDto>) -> Option<Seq<char>> {
    if workspaces.len() == 0 {
        Some("at least one workspace is required"@)
    } else {
        input_error(workspaces, 0)
    }
}

/// The entered workspaces with names and queries trimmed, or what is wrong with them.
pub fn normalize_workspace_inputs(workspaces: &Vec<WorkspaceJqlInputDto>) -> (r: Result<
    Vec<WorkspaceJqlInputDto>,
    String,
>)
    ensures
        match r {
            Ok(normalized) => {
                &&& inputs_error(workspaces@) is None
                &&& normalized.len() == workspaces.len()
                &&& forall|i: int|
                    0 <= i < normalized.len() ==> (#[trigger] normalized[i]).name@ == trim(
                        workspaces[i].name@,
                    ) && normalized[i].jql@ == trim(workspaces[i].jql@)
            },
            Err(message) => inputs_error(workspaces@) == Some(message@),
        },
{
    if workspaces.len() == 0 {
        return Err(owned("at least one workspace is required"));
    }
    let mut normalized: Vec<WorkspaceJqlInputDto> = Vec::new();
    let mut j: usize = 0;
    while j < workspaces.len()
        invariant
            j <= workspaces.len(),
            workspaces.len() > 0,
            normalized.len() == j,
            input_error(workspaces@, 0) == input_error(workspaces@, j as int),
            forall|i: int|
                0 <= i < j ==> (#[trigger] normalized[i]).name@ == trim(workspaces[i].name@)
                    && normalized[i].jql@ == trim(workspaces[i].jql@),
        decreases workspaces.len() - j,
    {
        let name = trimmed(&chars_of(workspaces[j].name.as_str()));
        let jql = trimmed(&chars_of(workspaces[j].jql.as_str()));
        if name.len() == 0 {
            return Err(owned("workspace name must not be empty"));
        }
        if jql.len() == 0 {
            let mut out: Vec<char> = Vec::new();
            push_str(&mut out, "workspace '");
            crate::text::push_all(&mut out, &name);
            push_str(&mut out, "' jql must not be empty");
            assert(out@ =~= missing_jql_message(name@));
            return Err(string_of(&out));
        }
        let name = string_of(&name);
        let mut i: usize = 0;
        while i < j
            invariant
                i <= j < workspaces.len(),
                normalized.len() == j,
                name@ == trim(workspaces[j as int].name@),
                name@.len() > 0,
                trim(workspaces[j as int].jql@).len() > 0,
                input_error(workspaces@, 0) == input_error(workspaces@, j as int),
                forall|k: int|
                    0 <= k < j ==> (#[trigger] normalized[k]).name@ == trim(workspaces[k].name@),
                forall|k: int| 0 <= k < i ==> trim((#[trigger] workspaces[k]).name@) != name@,
            decreases j - i,
        {
            if str_eq(normalized[i].name.as_str(), name.as_str()) {
                assert(trim(workspaces[i as int].name@) == trim(workspaces[j as int].name@));
                assert(entered_before(workspaces@, j as int));
                let mut out: Vec<char> = Vec::new();
                push_str(&mut out, "workspace '");
                push_str(&mut out, name.as_str());
                push_str(&mut out, "' is duplicated");
                assert(out@ =~= duplicated_message(name@));
                assert(input_error(workspaces@, j as int) == Some(duplicated_message(name@)));
                return Err(string_of(&out));
            }
            i += 1;
        }
        assert(!entered_before(workspaces@, j as int));
        normalized.push(WorkspaceJqlInputDto { name, jql: string_of(&jql) });
        j += 1;
    }
    Ok(normalized)
}

/// One line of the session log.
#[derive(Debug, Clone)]
pub struct LogLineDto {
    pub ts: Option<String>,
    pub source: String,
    pub line: String,
}

/// One line of the session log as plain values: time stamp, source and text.
pub type LogLineView = (Option<Seq<char>>, Seq<char>, Seq<char>);

/// The lines of a log as plain values.
pub open spec fn log_views(lines: Seq<LogLineDto>) -> Seq<LogLineView> {
    lines.map_values(|l: LogLineDto| l@)
}

/// The most recent lines of the session log, at most `capacity` of them.
#[derive(Debug)]
pub struct LogBufferState {
    pub capacity: usize,
    pub lines: Vec<LogLineDto>,
}

/// The last `capacity` lines of `lines`, or all of them where there are fewer.
pub open spec fn most_recent(lines: Seq<LogLineView>, capacity: usize) -> Seq<LogLineView> {
    if lines.len() > capacity {
        lines.skip(lines.len() - capacity)
    } else {
        lines
    }
}

impl LogBufferState {
    /// An empty log that keeps `capacity` lines.
    pub fn new(capacity: usize) -> (s: Self)
        ensures
            s.capacity == capacity,
            s.lines@.len() == 0,
    {
        LogBufferState { capacity, lines: Vec::new() }
    }

    /// Adds a line without a time stamp; the oldest lines leave so that at most
    /// `capacity` stay.
    pub fn push_line(&mut self, source: &str, line: String)
        ensures
            final(self).capacity == old(self).capacity,
            log_views(final(self).lines@) == most_recent(
                log_views(old(self).lines@).push((None, source@, line@)),
                old(self).capacity,
            ),
    {
        let ghost before = log_views(self.lines@);
        self.lines.push(LogLineDto { ts: None, source: owned(source), line });
        assert(log_views(self.lines@) =~= before.push((None, source@, line@)));
        if self.lines.len() > self.capacity {
            let excess = self.lines.len() - self.capacity;
            let ghost full = self.lines@;
            let mut kept: Vec<LogLineDto> = Vec::new();
            let mut i: usize = excess;
            while i < self.lines.len()
                invariant
                    excess <= i <= self.lines.len(),
                    self.lines@ == full,
                    kept.len() == i - excess,
                    forall|k: int| 0 <= k < kept.len() ==> (#[trigger] kept[k])@ == (full[excess + k])@,
                decreases self.lines.len() - i,
            {
                let l = &self.lines[i];
                kept.push(
                    LogLineDto {
                        ts: crate::text::copy_opt(&l.ts),
                        source: l.source.clone(),
                        line: l.line.clone(),
                    },
                );
                i += 1;
            }
            assert(log_views(kept@) =~= log_views(full).skip(excess as int));
            self.lines = kept;
        }
    }

    /// A copy of the lines, oldest first.
    pub fn snapshot(&self) -> (lines: Vec<LogLineDto>)
        ensures
            log_views(lines@) == log_views(self.lines@),
    {
        let mut lines: Vec<LogLineDto> = Vec::new();
        let mut i: usize = 0;
        while i < self.lines.len()
            invariant
                i <= self.lines.len(),
                lines.len() == i,
                forall|k: int| 0 <= k < i ==> (#[trigger] lines[k])@ == (self.lines[k])@,
            decreases self.lines.len() - i,
        {
            let l = &self.lines[i];
            lines.push(
                LogLineDto {
                    ts: crate::text::copy_opt(&l.ts),
                    source: l.source.clone(),
                    line: l.line.clone(),
                },
            );
            i += 1;
        }
        assert(log_views(lines@) =~= log_views(self.lines@));
        lines
    }
}

impl View for LogLineDto {
    type V = LogLineView;

    open spec fn view(&self) -> LogLineView {
        (opt_text(self.ts), self.source@, self.line@)
    }
}

} // verus!
