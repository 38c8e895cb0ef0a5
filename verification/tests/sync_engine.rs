use jirafs::cache::InMemoryCache;
use jirafs::fs::inode::{inode_for_workspace, INO_FULL_REFRESH, INO_LAST_FULL_SYNC};
use jirafs::fs::ops::JiraFuseFs;
use jirafs::jira::{IssueData, IssueRef, JiraError};
use jirafs::json::Json;
use jirafs::metrics::Metrics;
use jirafs::render::document::{render_issue_comments_markdown, render_issue_markdown};
use jirafs::sync_state::{SyncReason, SyncState};
use jirafs::warmup::{
    apply_workspace_page, compose_query, merge_page, plan_workspace_sync, seed_workspace_listings,
    sync_issues, SyncResult,
};
use std::cell::RefCell;

fn issue(key: &str, updated: Option<&str>, summary: &str) -> IssueData {
    IssueData {
        key: key.to_string(),
        project: "ST".to_string(),
        issue_type: None,
        summary: Some(summary.to_string()),
        status: None,
        priority: None,
        assignee: None,
        reporter: None,
        labels: vec![],
        created: None,
        updated: updated.map(str::to_string),
        parent: None,
        epic: None,
        blocks: vec![],
        blocked_by: vec![],
        relates_to: vec![],
        due_at: None,
        source_url: format!("https://x.test/browse/{}", key),
        attachments: vec![],
        description: Json::Null,
        comments: vec![],
    }
}

fn store_cache() -> InMemoryCache {
    InMemoryCache::with_persistence(30_000, 30_000, ":memory:").expect("cache")
}

fn workspaces() -> Vec<(String, String)> {
    vec![("default".to_string(), "project = ST".to_string())]
}

fn keys(cache: &InMemoryCache, workspace: &str) -> Vec<String> {
    let mut metrics = Metrics::new();
    cache
        .get_workspace_issues_snapshot(workspace, 0, &mut metrics)
        .map(|s| s.issues.into_iter().map(|r| r.key).collect())
        .unwrap_or_default()
}

fn read(cache: &mut InMemoryCache, key: &str) -> Vec<u8> {
    let mut metrics = Metrics::new();
    cache
        .get_issue_markdown_stale_safe(key, 0, &mut metrics, || {
            Err::<(Vec<u8>, Option<String>), String>("no fetch".to_string())
        })
        .expect("cached")
}

#[test]
fn cold_start_full_sync_then_read() {
    let mut cache = store_cache();
    let mut metrics = Metrics::new();
    let asked: RefCell<Vec<(String, usize)>> = RefCell::new(Vec::new());
    let search = |jql: String, page_size: usize| {
        asked.borrow_mut().push((jql, page_size));
        Ok(vec![
            issue("ST-1", Some("2026-02-20T10:00:00.000+0000"), "one"),
            issue("ST-2", Some("2026-02-21T10:00:00.000+0000"), "two"),
        ])
    };
    let result = sync_issues(&mut cache, &mut metrics, &workspaces(), 2, false, 0, &search);
    assert_eq!(result.issues_cached, 2);
    assert_eq!(result.issues_skipped, 0);
    assert!(result.errors.is_empty());
    assert_eq!(*asked.borrow(), vec![("(project = ST)".to_string(), 2)]);
    assert_eq!(keys(&cache, "default"), vec!["ST-1", "ST-2"]);
    // the cursor echoes the first issue of the page
    assert_eq!(
        cache.get_sync_cursor("default").as_deref(),
        Some("2026-02-20T10:00:00.000+0000")
    );
    let one = issue("ST-1", Some("2026-02-20T10:00:00.000+0000"), "one");
    assert_eq!(read(&mut cache, "ST-1"), render_issue_markdown(&one).into_bytes());
    assert_eq!(
        cache.persistent_comments_md("ST-1"),
        Some(render_issue_comments_markdown(&one).into_bytes())
    );

    // the files exist and are listed in the listing's order
    let mut fs = JiraFuseFs::new(0, 0, workspaces(), cache, 2, SyncState::new(60), Metrics::new());
    let names: Vec<String> = fs
        .readdir(inode_for_workspace("default"), 2, 0)
        .expect("listing")
        .into_iter()
        .map(|e| e.name)
        .collect();
    assert_eq!(
        names,
        vec!["ST-1.md", "ST-1.comments.md", "ST-2.md", "ST-2.comments.md"]
    );
    fs.sync_state.mark_sync_complete(1_000);
    assert_eq!(fs.sync_state.seconds_until_next_sync(1_500), 59);
}

#[test]
fn incremental_refresh_merges_and_moves_the_cursor() {
    let mut cache = store_cache();
    let mut metrics = Metrics::new();
    let first = |_jql: String, _n: usize| {
        Ok(vec![
            issue("ST-2", Some("2026-02-21T10:00:00.000+0000"), "two"),
            issue("ST-1", Some("2026-02-20T10:00:00.000+0000"), "one"),
        ])
    };
    sync_issues(&mut cache, &mut metrics, &workspaces(), 10, false, 0, &first);
    assert_eq!(keys(&cache, "default"), vec!["ST-2", "ST-1"]);
    assert_eq!(
        cache.get_sync_cursor("default").as_deref(),
        Some("2026-02-21T10:00:00.000+0000")
    );
    let one_before = read(&mut cache, "ST-1");

    let asked: RefCell<Vec<String>> = RefCell::new(Vec::new());
    let second = |jql: String, _n: usize| {
        asked.borrow_mut().push(jql);
        Ok(vec![
            issue("ST-2", Some("2026-02-22T10:00:00.000+0000"), "two, changed"),
            issue("ST-3", Some("2026-02-22T09:00:00.000+0000"), "three"),
        ])
    };
    let result = sync_issues(&mut cache, &mut metrics, &workspaces(), 10, false, 5, &second);
    assert_eq!(result.issues_cached, 2);
    assert_eq!(
        *asked.borrow(),
        vec![
            "(project = ST) AND updated > \"2026-02-21T10:00:00.000+0000\" ORDER BY updated DESC"
                .to_string()
        ]
    );
    assert_eq!(keys(&cache, "default"), vec!["ST-1", "ST-2", "ST-3"]);
    let changed = issue("ST-2", Some("2026-02-22T10:00:00.000+0000"), "two, changed");
    assert_eq!(read(&mut cache, "ST-2"), render_issue_markdown(&changed).into_bytes());
    assert_eq!(read(&mut cache, "ST-1"), one_before);
    assert_eq!(
        cache.get_sync_cursor("default").as_deref(),
        Some("2026-02-22T10:00:00.000+0000")
    );
    let mut m = Metrics::new();
    let listing = cache
        .get_workspace_issues_snapshot("default", 5, &mut m)
        .expect("listing")
        .issues;
    assert_eq!(
        listing[1].updated.as_deref(),
        Some("2026-02-22T10:00:00.000+0000")
    );
    assert_eq!(
        listing[0].updated.as_deref(),
        Some("2026-02-20T10:00:00.000+0000")
    );
}

#[test]
fn incremental_pass_keeps_keys_that_the_page_does_not_mention() {
    let mut cache = store_cache();
    let mut metrics = Metrics::new();
    let mut result = SyncResult { issues_cached: 0, issues_skipped: 0, errors: vec![] };
    cache.upsert_workspace_issues(
        "w",
        vec![
            IssueRef { key: "K-9".to_string(), updated: None },
            IssueRef { key: "K-1".to_string(), updated: Some("old".to_string()) },
        ],
        0,
    );
    let outcome = apply_workspace_page(
        &mut cache,
        &mut result,
        &mut metrics,
        "w",
        &Some("cursor".to_string()),
        Ok(vec![issue("K-5", None, "five"), issue("K-1", Some("new"), "one")]),
        10,
        1,
    );
    assert!(!outcome.done);
    assert_eq!(outcome.cursor, None);
    assert_eq!(keys(&cache, "w"), vec!["K-1", "K-5", "K-9"]);
    assert_eq!(result.issues_cached, 2);
    // an empty page keeps everything and counts the workspace as skipped
    let outcome = apply_workspace_page(
        &mut cache,
        &mut result,
        &mut metrics,
        "w",
        &Some("cursor".to_string()),
        Ok(vec![]),
        10,
        2,
    );
    assert!(!outcome.done);
    assert_eq!(keys(&cache, "w"), vec!["K-1", "K-5", "K-9"]);
    assert_eq!(result.issues_skipped, 1);
    assert_eq!(result.issues_cached, 2);
}

#[test]
fn full_pass_replaces_the_listing_by_the_page() {
    let mut cache = store_cache();
    let mut metrics = Metrics::new();
    let mut result = SyncResult { issues_cached: 0, issues_skipped: 0, errors: vec![] };
    cache.upsert_workspace_issues(
        "w",
        vec![IssueRef { key: "GONE-1".to_string(), updated: None }],
        0,
    );
    let outcome = apply_workspace_page(
        &mut cache,
        &mut result,
        &mut metrics,
        "w",
        &None,
        Ok(vec![issue("B-2", Some("u2"), "b"), issue("A-1", None, "a")]),
        10,
        1,
    );
    assert_eq!(keys(&cache, "w"), vec!["B-2", "A-1"]);
    assert_eq!(outcome.cursor.as_deref(), Some("u2"));
    assert_eq!(cache.get_sync_cursor("w").as_deref(), Some("u2"));
    // a full pass with an empty page leaves an empty listing
    apply_workspace_page(&mut cache, &mut result, &mut metrics, "w", &None, Ok(vec![]), 10, 2);
    assert!(keys(&cache, "w").is_empty());
    assert_eq!(result.issues_skipped, 1);
    assert_eq!(metrics.snapshot(), (0, 0, 0, 0, 0));
}

#[test]
fn a_page_whose_first_issue_has_no_timestamp_moves_no_cursor() {
    let mut cache = store_cache();
    let mut metrics = Metrics::new();
    let mut result = SyncResult { issues_cached: 0, issues_skipped: 0, errors: vec![] };
    cache.set_sync_cursor("w", "before");
    let outcome = apply_workspace_page(
        &mut cache,
        &mut result,
        &mut metrics,
        "w",
        &None,
        Ok(vec![issue("A-1", None, "a"), issue("A-2", Some("later"), "b")]),
        10,
        0,
    );
    assert_eq!(outcome.cursor, None);
    assert_eq!(cache.get_sync_cursor("w").as_deref(), Some("before"));
}

#[test]
fn zero_budget_does_nothing() {
    let mut cache = store_cache();
    let mut metrics = Metrics::new();
    let search = |_jql: String, _n: usize| -> Result<Vec<IssueData>, JiraError> {
        panic!("nothing may be asked")
    };
    let result = sync_issues(&mut cache, &mut metrics, &workspaces(), 0, false, 0, &search);
    assert_eq!(result.issues_cached, 0);
    assert_eq!(result.issues_skipped, 0);
    assert!(result.errors.is_empty());
    assert!(keys(&cache, "default").is_empty());
    assert_eq!(cache.get_sync_cursor("default"), None);
    assert_eq!(cache.cached_issue_count("ST"), 0);
    // also without a store
    let mut bare = InMemoryCache::new(1, 1);
    let result = sync_issues(&mut bare, &mut metrics, &workspaces(), 0, true, 0, &search);
    assert!(result.errors.is_empty());
}

#[test]
fn a_pass_without_a_store_leaves_one_message() {
    let mut cache = InMemoryCache::new(1, 1);
    let mut metrics = Metrics::new();
    let search = |_jql: String, _n: usize| -> Result<Vec<IssueData>, JiraError> {
        panic!("nothing may be asked")
    };
    let result = sync_issues(&mut cache, &mut metrics, &workspaces(), 5, false, 0, &search);
    assert_eq!(result.issues_cached, 0);
    assert_eq!(result.issues_skipped, 0);
    assert_eq!(result.errors, vec!["cache.db_path must be configured for sync"]);
}

#[test]
fn remote_failures_are_recorded_and_the_pass_goes_on() {
    let mut cache = store_cache();
    let mut metrics = Metrics::new();
    let two = vec![
        ("bad".to_string(), "project = BAD".to_string()),
        ("good".to_string(), "project = OK".to_string()),
    ];
    let search = |jql: String, _n: usize| {
        if jql.contains("BAD") {
            Err(JiraError::Http { status: 400, body: "bad jql".to_string() })
        } else {
            Ok(vec![issue("OK-1", Some("u"), "fine")])
        }
    };
    let result = sync_issues(&mut cache, &mut metrics, &two, 10, false, 0, &search);
    assert_eq!(
        result.errors,
        vec!["sync failed for workspace bad: jira returned HTTP 400: bad jql"]
    );
    assert_eq!(result.issues_cached, 1);
    assert_eq!(keys(&cache, "good"), vec!["OK-1"]);
    assert!(keys(&cache, "bad").is_empty());
}

#[test]
fn the_budget_caps_the_pass() {
    let mut cache = store_cache();
    let mut metrics = Metrics::new();
    let three = vec![
        ("a".to_string(), "qa".to_string()),
        ("b".to_string(), "qb".to_string()),
        ("c".to_string(), "qc".to_string()),
    ];
    let asked: RefCell<Vec<(String, usize)>> = RefCell::new(Vec::new());
    let search = |jql: String, n: usize| {
        asked.borrow_mut().push((jql.clone(), n));
        let prefix = jql.trim_matches(|c| c == '(' || c == ')').to_uppercase();
        Ok(vec![
            issue(&format!("{}-1", prefix), Some("u"), "1"),
            issue(&format!("{}-2", prefix), Some("u"), "2"),
        ])
    };
    let result = sync_issues(&mut cache, &mut metrics, &three, 3, false, 0, &search);
    assert_eq!(result.issues_cached, 3);
    // the third workspace was not asked
    assert_eq!(
        *asked.borrow(),
        vec![("(qa)".to_string(), 3), ("(qb)".to_string(), 3)]
    );
    // the second page is listed whole and stored as far as the budget allows
    assert_eq!(keys(&cache, "b"), vec!["QB-1", "QB-2"]);
    assert!(cache.cached_issue_len("QB-1").is_some());
    assert_eq!(cache.cached_issue_len("QB-2"), None);
    assert!(keys(&cache, "c").is_empty());
}

#[test]
fn pages_hold_at_most_a_hundred_issues() {
    let cache = store_cache();
    assert_eq!(plan_workspace_sync(&cache, "w", "q", 1000, false).page_size, 100);
    assert_eq!(plan_workspace_sync(&cache, "w", "q", 100, false).page_size, 100);
    assert_eq!(plan_workspace_sync(&cache, "w", "q", 99, false).page_size, 99);
    assert_eq!(plan_workspace_sync(&cache, "w", "q", 1, false).page_size, 1);
}

#[test]
fn a_forced_full_pass_reads_no_cursor() {
    let cache = store_cache();
    cache.set_sync_cursor("w", "T");
    let q = plan_workspace_sync(&cache, "w", "project = ST", 10, false);
    assert_eq!(q.cursor.as_deref(), Some("T"));
    assert_eq!(q.jql, "(project = ST) AND updated > \"T\" ORDER BY updated DESC");
    let q = plan_workspace_sync(&cache, "w", "project = ST", 10, true);
    assert_eq!(q.cursor, None);
    assert_eq!(q.jql, "(project = ST)");
    assert_eq!(compose_query("", &None), "()");
    assert_eq!(
        compose_query("a ORDER BY key", &Some("x".to_string())),
        "(a ORDER BY key) AND updated > \"x\" ORDER BY updated DESC"
    );
}

#[test]
fn merging_a_page_replaces_by_key_and_appends() {
    let existing = vec![
        IssueRef { key: "B".to_string(), updated: Some("b0".to_string()) },
        IssueRef { key: "A".to_string(), updated: None },
    ];
    let page = vec![
        IssueRef { key: "C".to_string(), updated: Some("c1".to_string()) },
        IssueRef { key: "A".to_string(), updated: Some("a1".to_string()) },
        IssueRef { key: "C".to_string(), updated: None },
    ];
    let merged: Vec<(String, Option<String>)> = merge_page(existing, &page)
        .into_iter()
        .map(|r| (r.key, r.updated))
        .collect();
    assert_eq!(
        merged,
        vec![
            ("B".to_string(), Some("b0".to_string())),
            ("A".to_string(), Some("a1".to_string())),
            ("C".to_string(), None),
        ]
    );
    assert!(merge_page(vec![], &vec![]).is_empty());
}

#[test]
fn seeding_fills_the_listings_that_arrive() {
    let mut cache = InMemoryCache::new(10, 10);
    let two = vec![
        ("a".to_string(), "qa".to_string()),
        ("b".to_string(), "qb".to_string()),
    ];
    let list = |jql: String| {
        if jql == "qa" {
            Ok(vec![IssueRef { key: "A-1".to_string(), updated: None }])
        } else {
            Err(JiraError::Request("down".to_string()))
        }
    };
    assert_eq!(seed_workspace_listings(&mut cache, &two, 0, &list), 1);
    assert_eq!(keys(&cache, "a"), vec!["A-1"]);
    assert!(keys(&cache, "b").is_empty());
}

#[test]
fn manual_full_refresh_runs_a_full_pass() {
    let mut cache = store_cache();
    cache.set_sync_cursor("default", "old cursor");
    let mut fs = JiraFuseFs::new(0, 0, workspaces(), cache, 10, SyncState::new(60), Metrics::new());
    fs.sync_state.mark_sync_complete(0);
    assert_eq!(fs.sync_state.poll(1_000), None);

    assert_eq!(fs.write(INO_FULL_REFRESH, 0, &b"1\n".to_vec()), Ok(2));
    let reason = fs.sync_state.poll(2_000).expect("a pass starts");
    assert_eq!(reason, SyncReason::ManualFull);
    assert!(!fs.sync_state.manual_full_pending);
    assert!(fs.sync_state.is_sync_in_progress());
    // the full path clears every cursor first
    for (workspace, _) in fs.workspaces.clone() {
        fs.cache.clear_sync_cursor(&workspace);
    }
    assert_eq!(fs.cache.get_sync_cursor("default"), None);
    let asked: RefCell<Vec<String>> = RefCell::new(Vec::new());
    let search = |jql: String, _n: usize| {
        asked.borrow_mut().push(jql);
        Ok(vec![issue("ST-1", Some("u1"), "one")])
    };
    let spaces = fs.workspaces.clone();
    let result = sync_issues(&mut fs.cache, &mut fs.metrics, &spaces, 10, true, 2_000, &search);
    assert_eq!(result.issues_cached, 1);
    assert_eq!(*asked.borrow(), vec!["(project = ST)".to_string()]);
    fs.sync_state.finish(reason, 3_000);
    assert!(!fs.sync_state.is_sync_in_progress());
    assert_eq!(
        fs.read(INO_LAST_FULL_SYNC, 0, 100, 3_000).expect("read"),
        b"0 seconds ago\n"
    );
}
