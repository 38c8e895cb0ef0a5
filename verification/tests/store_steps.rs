use jirafs::cache::persistent::PersistentIssue;
use jirafs::cache::InMemoryCache;
use jirafs::fs::layout::IssueFileKind;
use jirafs::fs::ops::{comments_from, size_from};
use jirafs::jira::{IssueData, IssueRef};
use jirafs::json::Json;
use jirafs::metrics::Metrics;
use jirafs::render::document::{render_issue_comments_markdown, render_issue_markdown};
use jirafs::warmup::{hydrate_listing, main_rows, plan_from_cursor, sidecar_rows};
use std::cell::Cell;

fn page_issue(key: &str, updated: Option<&str>, summary: &str) -> IssueData {
    IssueData {
        key: key.to_string(),
        project: "ST".to_string(),
        issue_type: None,
        summary: Some(summary.to_string()),
        status: None,
        priority: None,
        assignee: None,
        reporter: None,
        labels: vec![],
        created: None,
        updated: updated.map(str::to_string),
        parent: None,
        epic: None,
        blocks: vec![],
        blocked_by: vec![],
        relates_to: vec![],
        due_at: None,
        source_url: format!("https://x.test/browse/{}", key),
        attachments: vec![],
        description: Json::Null,
        comments: vec![],
    }
}

fn listing_keys(cache: &InMemoryCache, workspace: &str) -> Option<Vec<String>> {
    let mut metrics = Metrics::new();
    cache
        .get_workspace_issues_snapshot(workspace, 0, &mut metrics)
        .map(|s| s.issues.into_iter().map(|r| r.key).collect())
}

#[test]
fn a_stored_row_is_served_without_fetching() {
    let mut cache = InMemoryCache::new(60_000, 60_000);
    let mut metrics = Metrics::new();
    let calls = Cell::new(0usize);
    let row = PersistentIssue { markdown: b"stored".to_vec(), updated: Some("u1".to_string()) };

    let bytes = cache
        .read_past_memory("ST-1", 5, &mut metrics, Some(row), || {
            calls.set(calls.get() + 1);
            Ok::<_, String>((b"fetched".to_vec(), Some("u2".to_string())))
        })
        .expect("served");

    assert_eq!(bytes, b"stored");
    assert_eq!(calls.get(), 0);
    assert_eq!(metrics.cache_hits, 1);
    assert_eq!(metrics.cache_misses, 0);
    assert_eq!(cache.cached_issue_len("ST-1"), Some(6));
    // the row is fresh from the moment it was taken in
    let again = cache.fresh_issue_bytes("ST-1", 60_004, &mut metrics).expect("fresh");
    assert_eq!(again, b"stored");
    assert!(cache.fresh_issue_bytes("ST-1", 60_005, &mut metrics).is_none());
}

#[test]
fn without_a_stored_row_the_fetch_decides() {
    let mut cache = InMemoryCache::new(60_000, 60_000);
    let mut metrics = Metrics::new();
    let calls = Cell::new(0usize);

    let bytes = cache
        .read_past_memory("ST-1", 5, &mut metrics, None, || {
            calls.set(calls.get() + 1);
            Ok::<_, String>((b"fetched".to_vec(), Some("u2".to_string())))
        })
        .expect("served");

    assert_eq!(bytes, b"fetched");
    assert_eq!(calls.get(), 1);
    assert_eq!(metrics.cache_hits, 0);
    assert_eq!(metrics.cache_misses, 1);
    assert_eq!(cache.cached_issue_len("ST-1"), Some(7));
}

#[test]
fn without_a_stored_row_a_failed_fetch_is_the_error() {
    let mut cache = InMemoryCache::new(60_000, 60_000);
    let mut metrics = Metrics::new();

    let err = cache
        .read_past_memory("ST-1", 5, &mut metrics, None, || {
            Err::<(Vec<u8>, Option<String>), String>("offline".to_string())
        })
        .expect_err("nothing to serve");

    assert_eq!(err, "offline");
    assert_eq!(metrics.cache_misses, 1);
    assert_eq!(metrics.stale_served, 0);
    assert_eq!(cache.cached_issue_len("ST-1"), None);
}

#[test]
fn the_stored_issue_is_what_the_store_holds() {
    let bare = InMemoryCache::new(1_000, 1_000);
    assert!(bare.stored_issue("ST-1").is_none());

    let mut cache = InMemoryCache::with_persistence(1_000, 1_000, ":memory:").expect("open");
    assert!(cache.stored_issue("ST-1").is_none());
    cache.upsert_issue_direct("ST-1", &b"body".to_vec(), &Some("u1".to_string()), 0);
    let row = cache.stored_issue("ST-1").expect("row");
    assert_eq!(row.markdown, b"body");
    assert_eq!(row.updated.as_deref(), Some("u1"));
}

#[test]
fn a_plan_starts_from_the_stored_cursor() {
    let q = plan_from_cursor(Some("2026-01-01 00:00".to_string()), "project = ST", 500, false);
    assert_eq!(q.cursor.as_deref(), Some("2026-01-01 00:00"));
    assert_eq!(
        q.jql,
        "(project = ST) AND updated > \"2026-01-01 00:00\" ORDER BY updated DESC"
    );
    assert_eq!(q.page_size, 100);
}

#[test]
fn a_full_plan_ignores_the_stored_cursor() {
    let q = plan_from_cursor(Some("2026-01-01 00:00".to_string()), "project = ST", 7, true);
    assert_eq!(q.cursor, None);
    assert_eq!(q.jql, "(project = ST)");
    assert_eq!(q.page_size, 7);
}

#[test]
fn a_plan_without_a_cursor_asks_for_everything() {
    let q = plan_from_cursor(None, "assignee = me", 100, false);
    assert_eq!(q.cursor, None);
    assert_eq!(q.jql, "(assignee = me)");
    assert_eq!(q.page_size, 100);
}

#[test]
fn a_stored_listing_is_taken_in() {
    let mut cache = InMemoryCache::new(1_000, 1_000);
    let stored = vec![
        IssueRef { key: "ST-1".to_string(), updated: None },
        IssueRef { key: "ST-2".to_string(), updated: Some("u2".to_string()) },
    ];
    assert!(hydrate_listing(&mut cache, "default", Some(stored), 10));
    assert_eq!(
        listing_keys(&cache, "default"),
        Some(vec!["ST-1".to_string(), "ST-2".to_string()])
    );
}

#[test]
fn an_empty_or_missing_stored_listing_changes_nothing() {
    let mut cache = InMemoryCache::new(1_000, 1_000);
    assert!(!hydrate_listing(&mut cache, "default", Some(Vec::new()), 10));
    assert_eq!(listing_keys(&cache, "default"), None);
    assert!(!hydrate_listing(&mut cache, "default", None, 10));
    assert_eq!(listing_keys(&cache, "default"), None);

    cache.upsert_workspace_issues(
        "default",
        vec![IssueRef { key: "ST-9".to_string(), updated: None }],
        0,
    );
    assert!(!hydrate_listing(&mut cache, "default", Some(Vec::new()), 10));
    assert_eq!(listing_keys(&cache, "default"), Some(vec!["ST-9".to_string()]));
}

#[test]
fn the_size_of_a_main_file() {
    assert_eq!(size_from(Some(12), Some(99), IssueFileKind::Main), 12);
    assert_eq!(size_from(Some(0), Some(99), IssueFileKind::Main), 0);
    assert_eq!(size_from(Some(12), None, IssueFileKind::Main), 12);
    assert_eq!(size_from(None, Some(99), IssueFileKind::Main), 99);
    assert_eq!(size_from(None, None, IssueFileKind::Main), 0);
}

#[test]
fn the_size_of_a_comments_file() {
    assert_eq!(size_from(Some(12), Some(99), IssueFileKind::CommentsMarkdown), 99);
    assert_eq!(size_from(None, Some(0), IssueFileKind::CommentsMarkdown), 0);
    assert_eq!(size_from(Some(12), None, IssueFileKind::CommentsMarkdown), 64);
    assert_eq!(size_from(None, None, IssueFileKind::CommentsMarkdown), 64);
}

#[test]
fn the_comments_file_is_the_sidecar_or_the_placeholder() {
    assert_eq!(comments_from("ST-1", Some(b"## talk".to_vec())), b"## talk");
    assert_eq!(comments_from("ST-1", Some(Vec::new())), b"");
    assert_eq!(
        comments_from("ST-1", None),
        b"# ST-1 comments\n\nComments sidecar is only populated during sync.\n"
    );
}

#[test]
fn batch_rows_hold_the_rendered_views() {
    let issues = vec![
        page_issue("ST-1", Some("u1"), "one"),
        page_issue("ST-2", None, "two"),
        page_issue("ST-3", Some("u3"), "three"),
    ];

    let main = main_rows(&issues, 2);
    assert_eq!(main.len(), 2);
    assert_eq!(main[0].0, "ST-1");
    assert_eq!(main[0].1, render_issue_markdown(&issues[0]).into_bytes());
    assert_eq!(main[0].2.as_deref(), Some("u1"));
    assert_eq!(main[1].0, "ST-2");
    assert_eq!(main[1].1, render_issue_markdown(&issues[1]).into_bytes());
    assert_eq!(main[1].2, None);

    let sidecars = sidecar_rows(&issues, 3);
    assert_eq!(sidecars.len(), 3);
    assert_eq!(sidecars[2].0, "ST-3");
    assert_eq!(sidecars[2].1, render_issue_comments_markdown(&issues[2]).into_bytes());
    assert_eq!(sidecars[2].2.as_deref(), Some("u3"));
    assert_ne!(sidecars[0].1, main[0].1);

    assert!(main_rows(&issues, 0).is_empty());
    assert!(sidecar_rows(&issues, 0).is_empty());
}
