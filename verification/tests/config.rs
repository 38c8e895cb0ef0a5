use jirafs::config::{
    default_cache_ttl_secs, default_metrics_interval_secs, default_sync_budget,
    default_sync_interval_secs, is_blank, resolve_config_path_from_env, AppConfig,
    AppConfigOverrides, CacheConfig, ConfigError, JiraConfig, LoggingConfig, MetricsConfig,
    SyncConfig, WorkspaceConfig,
};

fn workspace(name: &str, jql: &str) -> (String, WorkspaceConfig) {
    (name.to_string(), WorkspaceConfig { jql: jql.to_string() })
}

fn example() -> AppConfig {
    AppConfig {
        jira: JiraConfig {
            base_url: "https://example.atlassian.net".to_string(),
            email: "you@example.com".to_string(),
            api_token: "token".to_string(),
            workspaces: vec![workspace("default", "project = PROJ ORDER BY updated DESC")],
        },
        cache: CacheConfig { db_path: "/tmp/jirafs-cache.db".to_string(), ttl_secs: 30 },
        sync: SyncConfig { budget: 1000, interval_secs: 60 },
        metrics: MetricsConfig { interval_secs: 60 },
        logging: LoggingConfig { debug: false },
    }
}

fn message(r: Result<(), ConfigError>) -> String {
    match r {
        Err(ConfigError::Invalid(m)) => m,
        other => panic!("expected an invalid configuration, got {:?}", other),
    }
}

#[test]
fn resolve_path_prefers_xdg_config_home() {
    let path = resolve_config_path_from_env(
        Some("/tmp/xdg-home".to_string()),
        Some("/tmp/home".to_string()),
    )
    .expect("xdg path should resolve");

    assert_eq!(path, "/tmp/xdg-home/jirafs/config.toml");
}

#[test]
fn resolve_path_falls_back_to_home_dot_config() {
    let path = resolve_config_path_from_env(None, Some("/tmp/home".to_string()))
        .expect("home path should resolve");

    assert_eq!(path, "/tmp/home/.config/jirafs/config.toml");
}

#[test]
fn resolve_path_requires_home_when_xdg_missing() {
    let err = resolve_config_path_from_env(None, None).expect_err("resolution should fail");
    assert!(matches!(err, ConfigError::MissingHomeDirectory));
}

#[test]
fn resolve_path_skips_empty_values() {
    assert_eq!(
        resolve_config_path_from_env(Some(String::new()), Some("/h/".to_string())).expect("path"),
        "/h/.config/jirafs/config.toml"
    );
    assert!(matches!(
        resolve_config_path_from_env(Some(String::new()), Some(String::new())),
        Err(ConfigError::MissingHomeDirectory)
    ));
    assert!(matches!(
        resolve_config_path_from_env(Some(String::new()), None),
        Err(ConfigError::MissingHomeDirectory)
    ));
}

#[test]
fn validates_rejects_empty_workspaces() {
    let mut cfg = example();
    cfg.jira.workspaces = vec![];
    let err = cfg.validate().expect_err("empty workspaces should fail");
    assert!(matches!(err, ConfigError::Invalid(_)));
}

#[test]
fn validates_rejects_non_positive_values() {
    let mut cfg = example();
    cfg.cache.ttl_secs = 0;
    cfg.sync.budget = 0;
    cfg.sync.interval_secs = 0;
    cfg.metrics.interval_secs = 0;
    let err = cfg.validate().expect_err("invalid values should fail");
    assert!(matches!(err, ConfigError::Invalid(_)));
}

#[test]
fn apply_overrides_updates_values() {
    let mut cfg = example();

    let overrides = AppConfigOverrides {
        jira_base_url: Some("https://override.atlassian.net".into()),
        jira_email: Some("override@example.com".into()),
        jira_api_token: Some("override-token".into()),
        jira_workspaces: Some(vec![workspace("ops", "project = OPS ORDER BY updated DESC")]),
        cache_db_path: Some("/tmp/override.db".into()),
        cache_ttl_secs: Some(15),
        sync_budget: Some(250),
        sync_interval_secs: Some(30),
        metrics_interval_secs: Some(20),
        logging_debug: Some(true),
    };

    cfg.apply_overrides(&overrides)
        .expect("overrides should validate");

    assert_eq!(cfg.jira.base_url, "https://override.atlassian.net");
    assert_eq!(cfg.jira.email, "override@example.com");
    assert_eq!(cfg.jira.api_token, "override-token");
    assert_eq!(cfg.jira.workspaces.len(), 1);
    assert_eq!(
        cfg.jira
            .workspaces
            .iter()
            .find(|(name, _)| name == "ops")
            .map(|(_, workspace)| workspace.jql.as_str()),
        Some("project = OPS ORDER BY updated DESC")
    );
    assert_eq!(cfg.cache.db_path, "/tmp/override.db");
    assert_eq!(cfg.cache.ttl_secs, 15);
    assert_eq!(cfg.sync.budget, 250);
    assert_eq!(cfg.sync.interval_secs, 30);
    assert_eq!(cfg.metrics.interval_secs, 20);
    assert!(cfg.logging.debug);
}

#[test]
fn the_example_configuration_is_valid() {
    assert!(example().validate().is_ok());
    let mut cfg = example();
    assert!(cfg.apply_overrides(&AppConfigOverrides::default()).is_ok());
    assert_eq!(cfg.jira.base_url, "https://example.atlassian.net");
    assert_eq!(cfg.workspace_pairs(), vec![(
        "default".to_string(),
        "project = PROJ ORDER BY updated DESC".to_string()
    )]);
}

#[test]
fn each_rule_has_its_message_and_the_first_broken_one_is_reported() {
    let mut cfg = example();
    cfg.jira.base_url = "  ".to_string();
    cfg.jira.email = String::new();
    assert_eq!(message(cfg.validate()), "jira.base_url must not be empty");
    cfg.jira.base_url = "x".to_string();
    assert_eq!(message(cfg.validate()), "jira.email must not be empty");
    cfg.jira.email = "e".to_string();
    cfg.jira.api_token = "\t".to_string();
    assert_eq!(message(cfg.validate()), "jira.api_token must not be empty");
    cfg.jira.api_token = "t".to_string();
    cfg.jira.workspaces = vec![];
    assert_eq!(
        message(cfg.validate()),
        "jira.workspaces must contain at least one workspace"
    );
    cfg.jira.workspaces = vec![workspace("ok", "q"), workspace(" ", "q"), workspace("b", "")];
    assert_eq!(
        message(cfg.validate()),
        "jira.workspaces must not include empty workspace names"
    );
    cfg.jira.workspaces = vec![workspace("ok", "q"), workspace("b", " \n")];
    assert_eq!(message(cfg.validate()), "jira.workspaces.b.jql must not be empty");
    cfg.jira.workspaces = vec![workspace("a", "q"), workspace("b", "q"), workspace("a", "r")];
    assert_eq!(message(cfg.validate()), "jira.workspaces.a must not be defined twice");
    cfg.jira.workspaces = vec![workspace("a", "q")];
    cfg.cache.db_path = " ".to_string();
    assert_eq!(message(cfg.validate()), "cache.db_path must not be empty");
    cfg.cache.db_path = "/db".to_string();
    cfg.cache.ttl_secs = 0;
    cfg.sync.budget = 0;
    assert_eq!(message(cfg.validate()), "cache.ttl_secs must be > 0");
    cfg.cache.ttl_secs = 1;
    assert_eq!(message(cfg.validate()), "sync.budget must be > 0");
    cfg.sync.budget = 1;
    cfg.sync.interval_secs = 0;
    cfg.metrics.interval_secs = 0;
    assert_eq!(message(cfg.validate()), "sync.interval_secs must be > 0");
    cfg.sync.interval_secs = 1;
    assert_eq!(message(cfg.validate()), "metrics.interval_secs must be > 0");
    cfg.metrics.interval_secs = 1;
    assert!(cfg.validate().is_ok());
}

#[test]
fn overrides_are_applied_even_when_the_result_is_invalid() {
    let mut cfg = example();
    let overrides = AppConfigOverrides {
        sync_budget: Some(0),
        cache_ttl_secs: Some(5),
        ..AppConfigOverrides::default()
    };
    assert_eq!(message(cfg.apply_overrides(&overrides)), "sync.budget must be > 0");
    assert_eq!(cfg.sync.budget, 0);
    assert_eq!(cfg.cache.ttl_secs, 5);
    assert_eq!(cfg.sync.interval_secs, 60);
}

#[test]
fn defaults() {
    assert_eq!(default_cache_ttl_secs(), 30);
    assert_eq!(default_sync_budget(), 1000);
    assert_eq!(default_sync_interval_secs(), 60);
    assert_eq!(default_metrics_interval_secs(), 60);
    let cache = CacheConfig::default();
    assert_eq!(cache.db_path, "");
    assert_eq!(cache.ttl_secs, 30);
    let sync = SyncConfig::default();
    assert_eq!((sync.budget, sync.interval_secs), (1000, 60));
    assert_eq!(MetricsConfig::default().interval_secs, 60);
    assert!(!LoggingConfig::default().debug);
}

#[test]
fn blank_means_empty_or_white_space_only() {
    assert!(is_blank(""));
    assert!(is_blank(" \t\r\n"));
    assert!(is_blank("\u{00a0}\u{2003}\u{3000}"));
    assert!(!is_blank(" x "));
    assert!(!is_blank("\u{200b}"));
}
