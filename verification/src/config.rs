//! The configuration the core runs with, and the rules it must meet.

use vstd::prelude::*;
use crate::text::{chars_of, opt_text, owned, push_str, str_eq, string_of, trim, trimmed};

verus! {

/// The whole configuration.
#[derive(Debug)]
pub struct AppConfig {
    pub jira: JiraConfig,
    pub cache: CacheConfig,
    pub sync: SyncConfig,
    pub metrics: MetricsConfig,
    pub logging: LoggingConfig,
}

/// Where the tracker is, who asks, and the workspaces: each a name and its query, in
/// the order of their names.
#[derive(Debug)]
pub struct JiraConfig {
    pub base_url: String,
    pub email: String,
    pub api_token: String,
    pub workspaces: Vec<(String, WorkspaceConfig)>,
}

/// The saved query of a workspace.
#[derive(Debug, Clone)]
pub struct WorkspaceConfig {
    pub jql: String,
}

/// Where the durable store is and how long entries stay fresh.
#[derive(Debug)]
pub struct CacheConfig {
    pub db_path: String,
    pub ttl_secs: u64,
}

/// How many issues a pass may store and how often passes run.
#[derive(Debug)]
pub struct SyncConfig {
    pub budget: usize,
    pub interval_secs: u64,
}

/// How often the counters are logged.
#[derive(Debug)]
pub struct MetricsConfig {
    pub interval_secs: u64,
}

/// Whether debug lines are logged.
#[derive(Debug)]
pub struct LoggingConfig {
    pub debug: bool,
}

/// Values that replace those of the configuration file.
#[derive(Debug)]
pub struct AppConfigOverrides {
    pub jira_base_url: Option<String>,
    pub jira_email: Option<String>,
    pub jira_api_token: Option<String>,
    pub jira_workspaces: Option<Vec<(String, WorkspaceConfig)>>,
    pub cache_db_path: Option<String>,
    pub cache_ttl_secs: Option<u64>,
    pub sync_budget: Option<usize>,
    pub sync_interval_secs: Option<u64>,
    pub metrics_interval_secs: Option<u64>,
    pub logging_debug: Option<bool>,
}

/// What can be wrong with the configuration.
#[derive(Debug)]
pub enum ConfigError {
    /// There is no file at the path.
    MissingConfigFile { path: String },
    /// Neither `XDG_CONFIG_HOME` nor `HOME` says where the file is.
    MissingHomeDirectory,
    /// The file could not be read.
    ReadFailed { path: String, source: String },
    /// The file is no valid TOML for a configuration.
    ParseFailed { path: String, source: String },
    /// A value breaks a rule; the text names it.
    Invalid(String),
}

/// The time entries stay fresh where the file does not say: 30 seconds.
pub fn default_cache_ttl_secs() -> (secs: u64)
    ensures
        secs == 30,
{
    30
}

/// The budget of a pass where the file does not say: 1000 issues.
pub fn default_sync_budget() -> (budget: usize)
    ensures
        budget == 1000,
{
    1000
}

/// The time between passes where the file does not say: 60 seconds.
pub fn default_sync_interval_secs() -> (secs: u64)
    ensures
        secs == 60,
{
    60
}

/// The time between two log lines of the counters where the file does not say: 60
/// seconds.
pub fn default_metrics_interval_secs() -> (secs: u64)
    ensures
        secs == 60,
{
    60
}

impl Default for CacheConfig {
    fn default() -> (c: Self)
        ensures
            c.db_path@.len() == 0,
            c.ttl_secs == 30,
    {
        CacheConfig { db_path: String::new(), ttl_secs: default_cache_ttl_secs() }
    }
}

impl Default for SyncConfig {
    fn default() -> (c: Self)
        ensures
            c.budget == 1000,
            c.interval_secs == 60,
    {
        SyncConfig { budget: default_sync_budget(), interval_secs: default_sync_interval_secs() }
    }
}

impl Default for MetricsConfig {
    fn default() -> (c: Self)
        ensures
            c.interval_secs == 60,
    {
        MetricsConfig { interval_secs: default_metrics_interval_secs() }
    }
}

impl Default for LoggingConfig {
    fn default() -> (c: Self)
        ensures
            !c.debug,
    {
        LoggingConfig { debug: false }
    }
}

impl Default for AppConfigOverrides {
    fn default() -> (o: Self)
        ensures
            o.jira_base_url is None,
            o.jira_email is None,
            o.jira_api_token is None,
            o.jira_workspaces is None,
            o.cache_db_path is None,
            o.cache_ttl_secs is None,
            o.sync_budget is None,
            o.sync_interval_secs is None,
            o.metrics_interval_secs is None,
            o.logging_debug is None,
    {
        AppConfigOverrides {
            jira_base_url: None,
            jira_email: None,
            jira_api_token: None,
            jira_workspaces: None,
            cache_db_path: None,
            cache_ttl_secs: None,
            sync_budget: None,
            sync_interval_secs: None,
            metrics_interval_secs: None,
            logging_debug: None,
        }
    }
}

/// Whether a text is empty or white space only.
pub open spec fn blank(s: Seq<char>) -> bool {
    trim(s).len() == 0
}

/// Whether a text is empty or white space only.
pub fn is_blank(s: &str) -> (r: bool)
    ensures
        r == blank(s@),
{
    trimmed(&chars_of(s)).len() == 0
}

/// The message for a workspace without a query.
pub open spec fn empty_jql_message(name: Seq<char>) -> Seq<char> {
    "jira.workspaces."@ + name + ".jql must not be empty"@
}

/// The message for a workspace name that occurs twice.
pub open spec fn duplicate_message(name: Seq<char>) -> Seq<char> {
    "jira.workspaces."@ + name + " must not be defined twice"@
}

/// What is wrong with the first workspace of `workspaces[from..]` that has a blank
/// name or a blank query.
pub open spec fn workspace_error(workspaces: Seq<(String, WorkspaceConfig)>, from: int) -> Option<
    Seq<char>,
>
    decreases workspaces.len() - from,
{
    if from < 0 || from >= workspaces.len() {
        None
    } else if blank(workspaces[from].0@) {
        Some("jira.workspaces must not include empty workspace names"@)
    } else if blank(workspaces[from].1.jql@) {
        Some(empty_jql_message(workspaces[from].0@))
    } else {
        workspace_error(workspaces, from + 1)
    }
}

/// Whether the name at index `j` occurs at an earlier index too.
pub open spec fn repeats(workspaces: Seq<(String, WorkspaceConfig)>, j: int) -> bool {
    exists|i: int| 0 <= i < j && (#[trigger] workspaces[i]).0@ == workspaces[j].0@
}

/// The first name of `workspaces[from..]` that occurs at an earlier index too.
pub open spec fn first_repeated(workspaces: Seq<(String, WorkspaceConfig)>, from: int) -> Option<
    Seq<char>,
>
    decreases workspaces.len() - from,
{
    if from < 0 || from >= workspaces.len() {
        None
    } else if repeats(workspaces, from) {
        Some(workspaces[from].0@)
    } else {
        first_repeated(workspaces, from + 1)
    }
}

/// The first rule that the configuration breaks, as its message; `None` for a valid
/// configuration. The rules, in order: base URL, email and API token are not blank;
/// there is a workspace; no workspace has a blank name or a blank query; no name
/// occurs twice; the store's path is not blank; the four numbers are greater than
/// zero.
pub open spec fn broken_rule(c: AppConfig) -> Option<Seq<char>> {
    if blank(c.jira.base_url@) {
        Some("jira.base_url must not be empty"@)
    } else if blank(c.jira.email@) {
        Some("jira.email must not be empty"@)
    } else if blank(c.jira.api_token@) {
        Some("jira.api_token must not be empty"@)
    } else if c.jira.workspaces@.len() == 0 {
        Some("jira.workspaces must contain at least one workspace"@)
    } else if workspace_error(c.jira.workspaces@, 0) is Some {
        workspace_error(c.jira.workspaces@, 0)
    } else if first_repeated(c.jira.workspaces@, 0) is Some {
        Some(duplicate_message(first_repeated(c.jira.workspaces@, 0).unwrap()))
    } else if blank(c.cache.db_path@) {
        Some("cache.db_path must not be empty"@)
    } else if c.cache.ttl_secs == 0 {
        Some("cache.ttl_secs must be > 0"@)
    } else if c.sync.budget == 0 {
        Some("sync.budget must be > 0"@)
    } else if c.sync.interval_secs == 0 {
        Some("sync.interval_secs must be > 0"@)
    } else if c.metrics.interval_secs == 0 {
        Some("metrics.interval_secs must be > 0"@)
    } else {
        None
    }
}

fn invalid(message: &str) -> (r: Result<(), ConfigError>)
    ensures
        r matches Err(ConfigError::Invalid(m)) && m@ == message@,
{
    Err(ConfigError::Invalid(owned(message)))
}

fn check_workspaces(workspaces: &Vec<(String, WorkspaceConfig)>) -> (r: Option<String>)
    ensures
        opt_text(r) == workspace_error(workspaces@, 0),
{
    let mut i: usize = 0;
    while i < workspaces.len()
        invariant
            i <= workspaces.len(),
            workspace_error(workspaces@, 0) == workspace_error(workspaces@, i as int),
        decreases workspaces.len() - i,
    {
        if is_blank(workspaces[i].0.as_str()) {
            return Some(owned("jira.workspaces must not include empty workspace names"));
        }
        if is_blank(workspaces[i].1.jql.as_str()) {
            let mut out: Vec<char> = Vec::new();
            push_str(&mut out, "jira.workspaces.");
            push_str(&mut out, workspaces[i].0.as_str());
            push_str(&mut out, ".jql must not be empty");
            assert(out@ =~= empty_jql_message(workspaces@[i as int].0@));
            return Some(string_of(&out));
        }
        i += 1;
    }
    None
}

fn check_unique(workspaces: &Vec<(String, WorkspaceConfig)>) -> (r: Option<String>)
    ensures
        opt_text(r) == first_repeated(workspaces@, 0),
{
    let mut j: usize = 0;
    while j < workspaces.len()
        invariant
            j <= workspaces.len(),
            first_repeated(workspaces@, 0) == first_repeated(workspaces@, j as int),
        decreases workspaces.len() - j,
    {
        let mut i: usize = 0;
        while i < j
            invariant
                i <= j < workspaces.len(),
                first_repeated(workspaces@, 0) == first_repeated(workspaces@, j as int),
                forall|k: int| 0 <= k < i ==> (#[trigger] workspaces@[k]).0@ != workspaces@[j as int].0@,
            decreases j - i,
        {
            if str_eq(workspaces[i].0.as_str(), workspaces[j].0.as_str()) {
                assert(repeats(workspaces@, j as int));
                return Some(workspaces[j].0.clone());
            }
            i += 1;
        }
        assert(!repeats(workspaces@, j as int));
        j += 1;
    }
    None
}

impl AppConfig {
    /// Checks the rules of a configuration: `Ok` exactly for a valid one, else
    /// `Invalid` with the message of the first broken rule.
    pub fn validate(&self) -> (r: Result<(), ConfigError>)
        ensures
            match r {
                Ok(()) => broken_rule(*self) is None,
                Err(e) => e matches ConfigError::Invalid(message) && broken_rule(*self) == Some(
                    message@,
                ),
            },
    {
        if is_blank(self.jira.base_url.as_str()) {
            return invalid("jira.base_url must not be empty");
        }
        if is_blank(self.jira.email.as_str()) {
            return invalid("jira.email must not be empty");
        }
        if is_blank(self.jira.api_token.as_str()) {
            return invalid("jira.api_token must not be empty");
        }
        if self.jira.workspaces.len() == 0 {
            return invalid("jira.workspaces must contain at least one workspace");
        }
        match check_workspaces(&self.jira.workspaces) {
            Some(message) => {
                return Err(ConfigError::Invalid(message));
            },
            None => {},
        }
        match check_unique(&self.jira.workspaces) {
            Some(name) => {
                let mut out: Vec<char> = Vec::new();
                push_str(&mut out, "jira.workspaces.");
                push_str(&mut out, name.as_str());
                push_str(&mut out, " must not be defined twice");
                assert(out@ =~= duplicate_message(name@));
                return Err(ConfigError::Invalid(string_of(&out)));
            },
            None => {},
        }
        if is_blank(self.cache.db_path.as_str()) {
            return invalid("cache.db_path must not be empty");
        }
        if self.cache.ttl_secs == 0 {
            return invalid("cache.ttl_secs must be > 0");
        }
        if self.sync.budget == 0 {
            return invalid("sync.budget must be > 0");
        }
        if self.sync.interval_secs == 0 {
            return invalid("sync.interval_secs must be > 0");
        }
        if self.metrics.interval_secs == 0 {
            return invalid("metrics.interval_secs must be > 0");
        }
        Ok(())
    }

    /// Replaces every value for which `overrides` holds one, then checks the rules.
    /// The values are replaced also where a rule is then broken.
    pub fn apply_overrides(&mut self, overrides: &AppConfigOverrides) -> (r: Result<
        (),
        ConfigError,
    >)
        ensures
            final(self).jira.base_url@ == (match overrides.jira_base_url {
                Some(v) => v@,
                None => old(self).jira.base_url@,
            }),
            final(self).jira.email@ == (match overrides.jira_email {
                Some(v) => v@,
                None => old(self).jira.email@,
            }),
            final(self).jira.api_token@ == (match overrides.jira_api_token {
                Some(v) => v@,
                None => old(self).jira.api_token@,
            }),
            workspace_views(final(self).jira.workspaces@) == (match overrides.jira_workspaces {
                Some(v) => workspace_views(v@),
                None => workspace_views(old(self).jira.workspaces@),
            }),
            final(self).cache.db_path@ == (match overrides.cache_db_path {
                Some(v) => v@,
                None => old(self).cache.db_path@,
            }),
            final(self).cache.ttl_secs == (match overrides.cache_ttl_secs {
                Some(v) => v,
                None => old(self).cache.ttl_secs,
            }),
            final(self).sync.budget == (match overrides.sync_budget {
                Some(v) => v,
                None => old(self).sync.budget,
            }),
            final(self).sync.interval_secs == (match overrides.sync_interval_secs {
                Some(v) => v,
                None => old(self).sync.interval_secs,
            }),
            final(self).metrics.interval_secs == (match overrides.metrics_interval_secs {
                Some(v) => v,
                None => old(self).metrics.interval_secs,
            }),
            final(self).logging.debug == (match overrides.logging_debug {
                Some(v) => v,
                None => old(self).logging.debug,
            }),
            match r {
                Ok(()) => broken_rule(*final(self)) is None,
                Err(e) => e matches ConfigError::Invalid(message) && broken_rule(*final(self))
                    == Some(message@),
            },
    {
        match &overrides.jira_base_url {
            Some(value) => {
                self.jira.base_url = value.clone();
            },
            None => {},
        }
        match &overrides.jira_email {
            Some(value) => {
                self.jira.email = value.clone();
            },
            None => {},
        }
        match &overrides.jira_api_token {
            Some(value) => {
                self.jira.api_token = value.clone();
            },
            None => {},
        }
        match &overrides.jira_workspaces {
            Some(value) => {
                self.jira.workspaces = copy_workspaces(value);
            },
            None => {},
        }
        match &overrides.cache_db_path {
            Some(value) => {
                self.cache.db_path = value.clone();
            },
            None => {},
        }
        match overrides.cache_ttl_secs {
            Some(value) => {
                self.cache.ttl_secs = value;
            },
            None => {},
        }
        match overrides.sync_budget {
            Some(value) => {
                self.sync.budget = value;
            },
            None => {},
        }
        match overrides.sync_interval_secs {
            Some(value) => {
                self.sync.interval_secs = value;
            },
            None => {},
        }
        match overrides.metrics_interval_secs {
            Some(value) => {
                self.metrics.interval_secs = value;
            },
            None => {},
        }
        match overrides.logging_debug {
            Some(value) => {
                self.logging.debug = value;
            },
            None => {},
        }
        self.validate()
    }

    /// The workspaces as pairs of name and query, in their order.
    pub fn workspace_pairs(&self) -> (pairs: Vec<(String, String)>)
        ensures
            pairs.len() == self.jira.workspaces.len(),
            forall|i: int|
                0 <= i < pairs.len() ==> (#[trigger] pairs[i]).0@ == self.jira.workspaces[i].0@
                    && pairs[i].1@ == self.jira.workspaces[i].1.jql@,
    {
        let mut pairs: Vec<(String, String)> = Vec::new();
        let mut i: usize = 0;
        while i < self.jira.workspaces.len()
            invariant
                i <= self.jira.workspaces.len(),
                pairs.len() == i,
                forall|k: int|
                    0 <= k < i ==> (#[trigger] pairs[k]).0@ == self.jira.workspaces[k].0@
                        && pairs[k].1@ == self.jira.workspaces[k].1.jql@,
            decreases self.jira.workspaces.len() - i,
        {
            pairs.push(
                (self.jira.workspaces[i].0.clone(), self.jira.workspaces[i].1.jql.clone()),
            );
            i += 1;
        }
        pairs
    }
}

/// The workspaces as pairs of name and query.
pub open spec fn workspace_views(workspaces: Seq<(String, WorkspaceConfig)>) -> Seq<
    (Seq<char>, Seq<char>),
> {
    workspaces.map_values(|w: (String, WorkspaceConfig)| (w.0@, w.1.jql@))
}

/// A copy of a list of workspaces.
pub fn copy_workspaces(workspaces: &Vec<(String, WorkspaceConfig)>) -> (r: Vec<
    (String, WorkspaceConfig),
>)
    ensures
        workspace_views(r@) == workspace_views(workspaces@),
{
    let mut r: Vec<(String, WorkspaceConfig)> = Vec::new();
    let mut i: usize = 0;
    while i < workspaces.len()
        invariant
            i <= workspaces.len(),
            r.len() == i,
            forall|k: int|
                0 <= k < i ==> (#[trigger] r@[k]).0@ == workspaces@[k].0@ && r@[k].1.jql@
                    == workspaces@[k].1.jql@,
        decreases workspaces.len() - i,
    {
        r.push(
            (workspaces[i].0.clone(), WorkspaceConfig { jql: workspaces[i].1.jql.clone() }),
        );
        i += 1;
    }
    assert(workspace_views(r@) =~= workspace_views(workspaces@));
    r
}

/// `std::path::Path::join`: `base` with `part` as a further component, as text.
/// Nothing is claimed of the outcome, which follows the platform's rules for paths.
#[verifier::external_body]
fn join_path(base: &str, part: &str) -> String {
    std::path::Path::new(base).join(part).to_string_lossy().into_owned()
}

/// The directory that the configuration lives under: `XDG_CONFIG_HOME` where it is set
/// and not empty; else `.config` under `HOME` where that is set and not empty.
pub open spec fn has_config_home(xdg_config_home: Option<Seq<char>>, home: Option<Seq<char>>) -> bool {
    (xdg_config_home matches Some(dir) && dir.len() > 0) || (home matches Some(dir) && dir.len()
        > 0)
}

/// The path of the configuration file: `jirafs/config.toml` under `XDG_CONFIG_HOME`,
/// else under `.config` in `HOME`. Fails with `MissingHomeDirectory` exactly when
/// neither is set to something.
pub fn resolve_config_path_from_env(xdg_config_home: Option<String>, home: Option<String>) -> (r:
    Result<String, ConfigError>)
    ensures
        r is Ok == has_config_home(opt_text(xdg_config_home), opt_text(home)),
        r matches Err(e) ==> e is MissingHomeDirectory,
{
    match &xdg_config_home {
        Some(dir) => {
            if chars_of(dir.as_str()).len() > 0 {
                let base = join_path(dir.as_str(), "jirafs");
                return Ok(join_path(base.as_str(), "config.toml"));
            }
        },
        None => {},
    }
    match &home {
        Some(dir) => {
            if chars_of(dir.as_str()).len() > 0 {
                let a = join_path(dir.as_str(), ".config");
                let b = join_path(a.as_str(), "jirafs");
                return Ok(join_path(b.as_str(), "config.toml"));
            }
        },
        None => {},
    }
    Err(ConfigError::MissingHomeDirectory)
}

} // verus!
