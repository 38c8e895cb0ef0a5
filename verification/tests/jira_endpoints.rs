use jirafs::jira::client::{JiraClient, RawIssue};
use jirafs::jira::endpoints::{ask, decode_body, get_body, page_parts, SearchPage};
use jirafs::jira::paging::{
    first_page, next_page, next_page_checked, project_listing_query, ISSUE_FIELDS,
};
use jirafs::jira::retry::{HttpRequest, HttpResponse};
use jirafs::jira::{IssueRef, JiraError, JiraIdentity};
use jirafs::metrics::Metrics;
use serde_json::Value;
use std::cell::{Cell, RefCell};

fn client() -> JiraClient {
    JiraClient::new(
        "http://127.0.0.1:9".to_string(),
        "e".to_string(),
        "t".to_string(),
    )
    .expect("client")
}

fn ok(body: &str) -> Result<HttpResponse, String> {
    Ok(HttpResponse { status: 200, retry_after: None, body: body.to_string() })
}

fn no_wait(_secs: u64) {}

fn text(value: &Value, name: &str) -> Option<String> {
    value.get(name).and_then(Value::as_str).map(str::to_string)
}

fn listed(value: &Value) -> IssueRef {
    IssueRef {
        key: text(value, "key").unwrap_or_default(),
        updated: value.get("fields").and_then(|f| text(f, "updated")),
    }
}

fn raw(value: &Value) -> RawIssue {
    let fields = value.get("fields").cloned().unwrap_or(Value::Null);
    let name = |field: &str, inner: &str| fields.get(field).and_then(|v| text(v, inner));
    RawIssue {
        key: text(value, "key").unwrap_or_default(),
        summary: text(&fields, "summary"),
        status: name("status", "name"),
        issue_type: name("issuetype", "name"),
        priority: name("priority", "name"),
        assignee: name("assignee", "displayName"),
        reporter: name("reporter", "displayName"),
        labels: vec![],
        created: text(&fields, "created"),
        updated: text(&fields, "updated"),
        description: None,
        comments: vec![],
        parent: None,
        attachments: vec![],
        due_date: None,
        issue_links: vec![],
    }
}

fn page_of<T>(body: &String, item: fn(&Value) -> T) -> Result<SearchPage<T>, String> {
    let value: Value = serde_json::from_str(body).map_err(|e| e.to_string())?;
    let items = |name: &str| -> Vec<T> {
        value
            .get(name)
            .and_then(Value::as_array)
            .map(|a| a.iter().map(item).collect())
            .unwrap_or_default()
    };
    Ok(SearchPage {
        issues: items("issues"),
        values: items("values"),
        total: value.get("total").and_then(Value::as_u64).map(|n| n as usize),
        is_last: value.get("isLast").and_then(Value::as_bool),
        next_page_token: text(&value, "nextPageToken"),
    })
}

fn listing_page(body: &String) -> Result<SearchPage<IssueRef>, String> {
    page_of(body, listed)
}

fn issues_page(body: &String) -> Result<SearchPage<RawIssue>, String> {
    page_of(body, raw)
}

fn single_issue(body: &String) -> Result<RawIssue, String> {
    let value: Value = serde_json::from_str(body).map_err(|e| e.to_string())?;
    if value.get("key").is_none() {
        return Err("missing field `key`".to_string());
    }
    Ok(raw(&value))
}

fn param<'a>(request: &'a HttpRequest, name: &str) -> Option<&'a str> {
    request
        .query
        .iter()
        .find(|(n, _)| n == name)
        .map(|(_, v)| v.as_str())
}

#[test]
fn paginates_project_issue_listing() {
    let send = |request: &HttpRequest| {
        assert_eq!(request.url, "http://127.0.0.1:9/rest/api/3/search/jql");
        assert_eq!(param(request, "maxResults"), Some("50"));
        assert_eq!(param(request, "fields"), Some("updated"));
        assert_eq!(param(request, "jql"), Some("project=PROJ ORDER BY key ASC"));
        match param(request, "startAt") {
            Some("0") => ok(r#"{"startAt": 0, "maxResults": 50, "total": 2, "issues": [
                {"key": "PROJ-1", "fields": {"updated": "2026-02-20T00:00:00.000+0000"}}]}"#),
            Some("1") => ok(r#"{"startAt": 1, "maxResults": 50, "total": 2, "issues": [
                {"key": "PROJ-2", "fields": {"updated": "2026-02-21T00:00:00.000+0000"}}]}"#),
            other => panic!("unexpected page {:?}", other),
        }
    };
    let client = client();
    let mut metrics = Metrics::new();
    let jql = project_listing_query("PROJ");

    let mut items: Vec<IssueRef> = Vec::new();
    let mut cursor = first_page();
    loop {
        let (page, meta) = client
            .list_issue_refs_page(&mut metrics, &jql, &cursor, &send, &no_wait, &listing_page)
            .expect("list should succeed");
        items.extend(page);
        match next_page(cursor, &meta) {
            Some(next) => cursor = next,
            None => break,
        }
    }

    assert_eq!(items.len(), 2);
    assert_eq!(items[0].key, "PROJ-1");
    assert_eq!(items[1].key, "PROJ-2");
    assert_eq!(metrics.api_requests, 2);
}

#[test]
fn retries_on_429_then_succeeds() {
    let calls = Cell::new(0usize);
    let waits: RefCell<Vec<u64>> = RefCell::new(Vec::new());
    let send = |request: &HttpRequest| {
        assert_eq!(request.url, "http://127.0.0.1:9/rest/api/3/issue/PROJ-1");
        assert_eq!(request.query, vec![("fields".to_string(), ISSUE_FIELDS.to_string())]);
        calls.set(calls.get() + 1);
        if calls.get() == 1 {
            Ok(HttpResponse {
                status: 429,
                retry_after: Some("0".to_string()),
                body: String::new(),
            })
        } else {
            ok(r#"{"key": "PROJ-1", "fields": {"summary": "S", "status": {"name": "Open"},
                "assignee": {"displayName": "A"}, "updated": "2026-02-21T00:00:00.000+0000",
                "description": null, "comment": {"comments": []}}}"#)
        }
    };
    let wait = |secs: u64| waits.borrow_mut().push(secs);
    let client = client();
    let mut metrics = Metrics::new();

    let issue = client
        .get_issue(&mut metrics, "PROJ-1", &send, &wait, &single_issue)
        .expect("eventually succeeds");
    assert_eq!(issue.key, "PROJ-1");
    assert_eq!(issue.summary.as_deref(), Some("S"));
    assert_eq!(issue.status.as_deref(), Some("Open"));
    assert_eq!(issue.assignee.as_deref(), Some("A"));
    assert_eq!(issue.project, "PROJ");
    assert_eq!(issue.source_url, "http://127.0.0.1:9/browse/PROJ-1");
    assert_eq!(*waits.borrow(), vec![0]);
    assert_eq!(metrics.retries, 1);
    assert_eq!(metrics.api_requests, 2);
}

#[test]
fn the_three_kinds_of_failure() {
    let client = client();
    let mut metrics = Metrics::new();

    let down = |_request: &HttpRequest| Err::<HttpResponse, String>("connection refused".to_string());
    match client.get_issue(&mut metrics, "K-1", &down, &no_wait, &single_issue) {
        Err(JiraError::Request(text)) => assert_eq!(text, "connection refused"),
        other => panic!("expected a transport error, got {:?}", other),
    }

    let forbidden = |_request: &HttpRequest| {
        Ok(HttpResponse { status: 403, retry_after: None, body: "no".to_string() })
    };
    match client.get_issue(&mut metrics, "K-1", &forbidden, &no_wait, &single_issue) {
        Err(JiraError::Http { status, body }) => {
            assert_eq!(status, 403);
            assert_eq!(body, "no");
        }
        other => panic!("expected an http error, got {:?}", other),
    }

    let long = format!("{{\"nokey\": \"{}\"}}", "x".repeat(600));
    let odd = |_request: &HttpRequest| ok(&long);
    match client.get_issue(&mut metrics, "K-1", &odd, &no_wait, &single_issue) {
        Err(JiraError::Decode { source, body }) => {
            assert_eq!(source, "missing field `key`");
            assert_eq!(body.chars().count(), 500);
            assert!(long.starts_with(&body));
        }
        other => panic!("expected a decode error, got {:?}", other),
    }
    assert_eq!(metrics.api_requests, 3);
    assert_eq!(metrics.retries, 0);
}

#[test]
fn a_listing_decode_error_keeps_a_thousand_characters_and_an_ellipsis() {
    let client = client();
    let mut metrics = Metrics::new();
    let garbage = "g".repeat(1500);
    let send = |_request: &HttpRequest| ok(&garbage);
    match client.list_issue_refs_page(
        &mut metrics,
        "q",
        &first_page(),
        &send,
        &no_wait,
        &listing_page,
    ) {
        Err(JiraError::Decode { body, .. }) => {
            assert_eq!(body.len(), 1003);
            assert!(body.ends_with("g..."));
        }
        other => panic!("expected a decode error, got {:?}", other.map(|p| p.0)),
    }
}

#[test]
fn a_search_page_becomes_issues() {
    let send = |request: &HttpRequest| {
        assert_eq!(param(request, "jql"), Some("(project = ST)"));
        assert_eq!(param(request, "maxResults"), Some("2"));
        assert_eq!(param(request, "fields"), Some(ISSUE_FIELDS));
        assert_eq!(param(request, "nextPageToken"), Some("tok"));
        assert_eq!(param(request, "startAt"), None);
        ok(r#"{"isLast": false, "nextPageToken": "more", "values": [
            {"key": "ST-2", "fields": {"summary": "two", "priority": {"name": "High"}}},
            {"key": "ST-1", "fields": {"reporter": {"displayName": "R"}}}]}"#)
    };
    let client = client();
    let mut metrics = Metrics::new();
    let cursor = jirafs::jira::paging::PageCursor {
        start_at: 0,
        next_page_token: Some("tok".to_string()),
    };
    let (issues, meta) = client
        .search_issues_page(&mut metrics, "(project = ST)", 2, &cursor, &send, &no_wait, &issues_page)
        .expect("page");
    assert_eq!(issues.len(), 2);
    assert_eq!(issues[0].key, "ST-2");
    assert_eq!(issues[0].summary.as_deref(), Some("two"));
    assert_eq!(issues[0].priority.as_deref(), Some("High"));
    assert_eq!(issues[0].project, "ST");
    assert_eq!(issues[1].key, "ST-1");
    assert_eq!(issues[1].reporter.as_deref(), Some("R"));
    assert_eq!(issues[1].source_url, "http://127.0.0.1:9/browse/ST-1");
    assert_eq!(meta.page_count, 2);
    assert_eq!(meta.is_last, Some(false));
    assert_eq!(meta.next_page_token.as_deref(), Some("more"));
    assert_eq!(meta.total, None);
}

#[test]
fn identity_and_projects() {
    let client = client();
    let mut metrics = Metrics::new();
    let send = |request: &HttpRequest| {
        if request.url.ends_with("/rest/api/3/myself") {
            assert!(request.query.is_empty());
            ok(r#"{"accountId": "a1", "displayName": "Ada"}"#)
        } else {
            assert_eq!(request.url, "http://127.0.0.1:9/rest/api/3/project/search");
            assert_eq!(request.query, vec![("maxResults".to_string(), "100".to_string())]);
            ok(r#"{"values": [{"key": "ST"}, {"key": "OPS"}]}"#)
        }
    };
    let identity = |body: &String| -> Result<JiraIdentity, String> {
        let value: Value = serde_json::from_str(body).map_err(|e| e.to_string())?;
        Ok(JiraIdentity {
            account_id: text(&value, "accountId"),
            display_name: text(&value, "displayName"),
            email_address: text(&value, "emailAddress"),
        })
    };
    let keys = |body: &String| -> Result<Vec<String>, String> {
        let value: Value = serde_json::from_str(body).map_err(|e| e.to_string())?;
        Ok(value
            .get("values")
            .and_then(Value::as_array)
            .map(|a| a.iter().filter_map(|p| text(p, "key")).collect())
            .unwrap_or_default())
    };
    let me = client.get_myself(&mut metrics, &send, &no_wait, &identity).expect("me");
    assert_eq!(me.account_id.as_deref(), Some("a1"));
    assert_eq!(me.display_name.as_deref(), Some("Ada"));
    assert_eq!(me.email_address, None);
    let projects = client
        .list_visible_projects(&mut metrics, &send, &no_wait, &keys)
        .expect("projects");
    assert_eq!(projects, vec!["ST", "OPS"]);
    let broken = |_body: &String| -> Result<Vec<String>, String> { Err("bad".to_string()) };
    match client.list_visible_projects(&mut metrics, &send, &no_wait, &broken) {
        Err(JiraError::Decode { source, body }) => {
            assert_eq!(source, "bad");
            assert_eq!(body, r#"{"values": [{"key": "ST"}, {"key": "OPS"}]}"#);
        }
        other => panic!("expected a decode error, got {:?}", other),
    }
}

#[test]
fn asking_in_steps() {
    let mut metrics = Metrics::new();
    let request = HttpRequest { url: "u".to_string(), query: vec![] };
    let send = |_request: &HttpRequest| ok("body");
    assert_eq!(
        get_body(&mut metrics, 3, &request, &send, &no_wait).expect("body"),
        "body"
    );
    let upper = |body: &String| -> Result<String, String> { Ok(body.to_uppercase()) };
    assert_eq!(
        decode_body("abc".to_string(), 10, "", &upper).expect("decoded"),
        "ABC"
    );
    assert_eq!(
        ask(&mut metrics, 3, &request, 10, "", &send, &no_wait, &upper).expect("asked"),
        "BODY"
    );
    let page = SearchPage {
        issues: Vec::<u8>::new(),
        values: vec![7, 8],
        total: Some(9),
        is_last: None,
        next_page_token: None,
    };
    let (items, meta) = page_parts(page);
    assert_eq!(items, vec![7, 8]);
    assert_eq!(meta.page_count, 2);
    assert_eq!(meta.total, Some(9));
}

fn bulk_search(send: &dyn Fn(&HttpRequest) -> Result<HttpResponse, String>) -> (Vec<String>, u64) {
    let client = client();
    let mut metrics = Metrics::new();
    let mut keys: Vec<String> = Vec::new();
    let mut cursor = first_page();
    let mut rounds = 0;
    loop {
        rounds += 1;
        assert!(rounds <= 10, "the search does not end");
        let (issues, meta) = client
            .search_issues_page(&mut metrics, "project = ST", 2, &cursor, &send, &no_wait, &issues_page)
            .expect("page");
        keys.extend(issues.into_iter().map(|issue| issue.key));
        match next_page_checked(cursor, &meta) {
            Some(next) => cursor = next,
            None => break,
        }
    }
    (keys, metrics.api_requests)
}

#[test]
fn a_search_ends_after_an_empty_page_below_the_total() {
    let send = |request: &HttpRequest| match param(request, "startAt") {
        Some("0") => ok(r#"{"total": 10, "issues": [{"key": "ST-1"}, {"key": "ST-2"}]}"#),
        Some("2") => ok(r#"{"total": 10, "issues": []}"#),
        other => panic!("unexpected page {:?}", other),
    };
    let (keys, requests) = bulk_search(&send);
    assert_eq!(keys, vec!["ST-1".to_string(), "ST-2".to_string()]);
    assert_eq!(requests, 2);
}

#[test]
fn a_search_ends_after_a_page_marked_last_below_the_total() {
    let send = |request: &HttpRequest| match param(request, "startAt") {
        Some("0") => ok(r#"{"total": 10, "isLast": false, "issues": [{"key": "ST-1"}, {"key": "ST-2"}]}"#),
        Some("2") => ok(r#"{"total": 10, "isLast": true, "issues": [{"key": "ST-3"}]}"#),
        other => panic!("unexpected page {:?}", other),
    };
    let (keys, requests) = bulk_search(&send);
    assert_eq!(keys, vec!["ST-1".to_string(), "ST-2".to_string(), "ST-3".to_string()]);
    assert_eq!(requests, 2);
}

#[test]
fn a_search_whose_first_page_is_empty_asks_once() {
    let send = |request: &HttpRequest| match param(request, "startAt") {
        Some("0") => ok(r#"{"total": 10, "issues": []}"#),
        other => panic!("unexpected page {:?}", other),
    };
    let (keys, requests) = bulk_search(&send);
    assert!(keys.is_empty());
    assert_eq!(requests, 1);
}

#[test]
fn a_search_reaches_the_total_page_by_page() {
    let send = |request: &HttpRequest| match param(request, "startAt") {
        Some("0") => ok(r#"{"total": 3, "issues": [{"key": "ST-1"}, {"key": "ST-2"}]}"#),
        Some("2") => ok(r#"{"total": 3, "issues": [{"key": "ST-3"}]}"#),
        other => panic!("unexpected page {:?}", other),
    };
    let (keys, requests) = bulk_search(&send);
    assert_eq!(keys, vec!["ST-1".to_string(), "ST-2".to_string(), "ST-3".to_string()]);
    assert_eq!(requests, 2);
}
