use jirafs::jira::{IssueAttachment, IssueComment, IssueData};
use jirafs::json::Json;
use jirafs::redact::redact_secrets;
use jirafs::render::document::{render_issue_comments_markdown, render_issue_markdown};
use jirafs::render::rich_text::{adf_to_markdown, adf_to_markdown_inner, extract_mark_link};
use jirafs::render::{
    canonical_priority, canonical_status, canonical_type, normalize_iso_utc,
    split_acceptance_criteria, yaml_array, yaml_opt, yaml_quote,
};

fn obj(members: Vec<(&str, Json)>) -> Json {
    Json::Object(members.into_iter().map(|(k, v)| (k.to_string(), v)).collect())
}

fn text(s: &str) -> Json {
    Json::Text(s.to_string())
}

fn text_node(s: &str) -> Json {
    obj(vec![("type", text("text")), ("text", text(s))])
}

fn paragraph(content: Vec<Json>) -> Json {
    obj(vec![("type", text("paragraph")), ("content", Json::Array(content))])
}

fn doc(content: Vec<Json>) -> Json {
    obj(vec![("type", text("doc")), ("content", Json::Array(content))])
}

fn md(value: &Json) -> String {
    adf_to_markdown(value).into_iter().collect()
}

fn md_inner(value: &Json) -> String {
    adf_to_markdown_inner(value).into_iter().collect()
}

fn some(s: &str) -> Option<String> {
    Some(s.to_string())
}

fn sample_issue() -> IssueData {
    IssueData {
        key: "ST-100".to_string(),
        project: "ST".to_string(),
        issue_type: Some("Story".to_string()),
        summary: Some("Sync now on mount".to_string()),
        status: Some("In Progress".to_string()),
        priority: Some("High".to_string()),
        assignee: Some("Ada".to_string()),
        reporter: Some("Bob".to_string()),
        labels: vec!["sync".to_string()],
        created: Some("2026-02-21T00:00:00.000+0000".to_string()),
        updated: Some("2026-02-21T01:00:00.000+0000".to_string()),
        parent: None,
        epic: None,
        blocks: vec![],
        blocked_by: vec![],
        relates_to: vec![],
        due_at: None,
        source_url: "https://example.atlassian.net/browse/ST-100".to_string(),
        attachments: vec![IssueAttachment {
            id: "1".to_string(),
            filename: "notes.txt".to_string(),
        }],
        description: doc(vec![paragraph(vec![text_node("- [ ] do thing")])]),
        comments: vec![IssueComment {
            id: Some("10".to_string()),
            author_display_name: Some("Chad".to_string()),
            body: doc(vec![paragraph(vec![text_node("Looks good")])]),
            created: Some("2026-02-21T02:00:00.000+0000".to_string()),
        }],
    }
}

fn bare_issue() -> IssueData {
    IssueData {
        key: "X-1".to_string(),
        project: "X".to_string(),
        issue_type: None,
        summary: None,
        status: None,
        priority: None,
        assignee: None,
        reporter: None,
        labels: vec![],
        created: None,
        updated: None,
        parent: None,
        epic: None,
        blocks: vec![],
        blocked_by: vec![],
        relates_to: vec![],
        due_at: None,
        source_url: "https://x.test/browse/X-1".to_string(),
        attachments: vec![],
        description: Json::Null,
        comments: vec![],
    }
}

#[test]
fn renders_schema_v2_layout() {
    let issue = sample_issue();

    let rendered = render_issue_markdown(&issue);
    assert!(rendered.contains("id: ST-100"));
    assert!(rendered.contains("status: in_progress"));
    assert!(rendered.contains("## Acceptance Criteria"));
    assert!(rendered.contains("- [ ] do thing"));
    assert!(rendered.contains("## Comments"));
    assert!(rendered.contains("ST-100.comments.md"));
}

#[test]
fn main_view_character_by_character() {
    let expected = "---\n\
id: ST-100\n\
project: ST\n\
type: story\n\
status: in_progress\n\
priority: p1\n\
assignee: \"Ada\"\n\
reporter: \"Bob\"\n\
labels: [\"sync\"]\n\
created_at: \"2026-02-21T00:00:00Z\"\n\
updated_at: \"2026-02-21T01:00:00Z\"\n\
parent: null\n\
epic: null\n\
blocks: []\n\
blocked_by: []\n\
relates_to: []\n\
due_at: null\n\
version: 2\n\
source_url: \"https://example.atlassian.net/browse/ST-100\"\n\
---\n\
\n\
## Summary\n\
\n\
Sync now on mount\n\
\n\
## Acceptance Criteria\n\
\n\
- [ ] do thing\n\
\n\
## Implementation Notes\n\
\n\
(none)\n\
\n\
- attachment: notes.txt (1)\n\
\n\
## Test Evidence\n\
\n\
(none yet)\n\
\n\
## Comments\n\
\n\
1 comment(s). See `ST-100.comments.md`.\n";
    assert_eq!(render_issue_markdown(&sample_issue()), expected);
}

#[test]
fn main_view_of_an_issue_with_nothing_filled_in() {
    let expected = "---\n\
id: X-1\n\
project: X\n\
type: task\n\
status: todo\n\
priority: p4\n\
assignee: \"unassigned\"\n\
reporter: \"unknown\"\n\
labels: []\n\
created_at: null\n\
updated_at: null\n\
parent: null\n\
epic: null\n\
blocks: []\n\
blocked_by: []\n\
relates_to: []\n\
due_at: null\n\
version: 2\n\
source_url: \"https://x.test/browse/X-1\"\n\
---\n\
\n\
## Summary\n\
\n\
(no summary)\n\
\n\
## Acceptance Criteria\n\
\n\
- [ ] TBD\n\
\n\
## Implementation Notes\n\
\n\
(none)\n\
\n\
## Test Evidence\n\
\n\
(none yet)\n\
\n\
## Comments\n\
\n\
0 comment(s). See `X-1.comments.md`.\n";
    assert_eq!(render_issue_markdown(&bare_issue()), expected);
}

#[test]
fn main_view_with_links_notes_and_parent() {
    let mut issue = bare_issue();
    issue.parent = some("X-0");
    issue.epic = some("E \"1\"");
    issue.blocks = vec!["B-1".to_string(), "B-2".to_string()];
    issue.blocked_by = vec!["A-1".to_string()];
    issue.relates_to = vec!["R-1".to_string()];
    issue.due_at = some("2026-03-01T12:00:00+02:00");
    issue.description = doc(vec![
        paragraph(vec![text_node("First note")]),
        paragraph(vec![text_node("- [X] shipped  ")]),
        paragraph(vec![text_node("second note")]),
        paragraph(vec![text_node("- [ ] docs")]),
    ]);
    let rendered = render_issue_markdown(&issue);
    assert!(rendered.contains("parent: \"X-0\"\n"));
    assert!(rendered.contains("epic: \"E \\\"1\\\"\"\n"));
    assert!(rendered.contains("blocks: [\"B-1\", \"B-2\"]\n"));
    assert!(rendered.contains("blocked_by: [\"A-1\"]\n"));
    assert!(rendered.contains("relates_to: [\"R-1\"]\n"));
    assert!(rendered.contains("due_at: \"2026-03-01T10:00:00Z\"\n"));
    assert!(rendered.contains(
        "## Acceptance Criteria\n\n- [X] shipped\n- [ ] docs\n\n## Implementation Notes\n\nFirst note\n\n\nsecond note\n\n## Test Evidence\n"
    ));
}

#[test]
fn rendering_twice_gives_the_same_bytes() {
    let issue = sample_issue();
    assert_eq!(
        render_issue_markdown(&issue).into_bytes(),
        render_issue_markdown(&issue).into_bytes()
    );
    assert_eq!(
        render_issue_comments_markdown(&issue).into_bytes(),
        render_issue_comments_markdown(&sample_issue()).into_bytes()
    );
}

#[test]
fn comments_view_character_by_character() {
    assert_eq!(
        render_issue_comments_markdown(&sample_issue()),
        "# ST-100 comments\n\n## 1\n\n- id: 10\n- author: Chad\n- created_at: 2026-02-21T02:00:00Z\n\nLooks good\n\n"
    );
    assert_eq!(
        render_issue_comments_markdown(&bare_issue()),
        "# X-1 comments\n\n(no comments)\n"
    );
    let mut issue = bare_issue();
    issue.comments = vec![
        IssueComment { id: None, author_display_name: None, body: Json::Null, created: None },
        IssueComment {
            id: some("7"),
            author_display_name: some("Eve"),
            body: text("  hi  "),
            created: some("not a time"),
        },
    ];
    assert_eq!(
        render_issue_comments_markdown(&issue),
        "# X-1 comments\n\n## 1\n\n- id: \n- author: unknown\n- created_at: unknown\n\n(empty comment)\n\n## 2\n\n- id: 7\n- author: Eve\n- created_at: unknown\n\nhi\n\n"
    );
}

#[test]
fn credentials_are_replaced_in_both_views() {
    let mut issue = bare_issue();
    issue.summary = some("use Bearer abcdefghijklmnop1234 now");
    issue.description = text("password: hunter2hunter2\nkey 0123456789abcdef0123456789abcdef end");
    issue.comments = vec![IssueComment {
        id: None,
        author_display_name: None,
        body: text("token=abcdefgh"),
        created: None,
    }];
    let main = render_issue_markdown(&issue);
    assert!(main.contains("use Bearer [REDACTED] now"));
    assert!(main.contains("password=[REDACTED]"));
    assert!(main.contains("key [REDACTED] end"));
    assert!(!main.contains("hunter2"));
    assert!(!main.contains("0123456789abcdef"));
    let comments = render_issue_comments_markdown(&issue);
    assert!(comments.contains("token=[REDACTED]"));
    assert!(!comments.contains("abcdefgh"));
}

#[test]
fn redaction_patterns() {
    assert_eq!(
        redact_secrets("Authorization: Bearer abcdefghijklmnop"),
        "Authorization: Bearer [REDACTED]"
    );
    assert_eq!(
        redact_secrets("Authorization: bearer   abc.def-ghi_jklmnop"),
        "Authorization: Bearer [REDACTED]"
    );
    // fifteen token characters are no bearer token
    assert_eq!(
        redact_secrets("Bearer abcdefghijklmno"),
        "Bearer abcdefghijklmno"
    );
    assert_eq!(redact_secrets("api_key = 'abcd1234'"), "api_key=[REDACTED]");
    assert_eq!(redact_secrets("API-KEY:abcd1234"), "API-KEY=[REDACTED]");
    assert_eq!(redact_secrets("apikey=abcd1234!"), "apikey=[REDACTED]!");
    assert_eq!(redact_secrets("secret: \"abcd.1234\""), "secret=[REDACTED]");
    assert_eq!(redact_secrets("password=short"), "password=short");
    assert_eq!(
        redact_secrets("id 0123456789012345678901234567890_ ok"),
        "id [REDACTED] ok"
    );
    assert_eq!(
        redact_secrets("id 0123456789012345678901234567890 ok"),
        "id 0123456789012345678901234567890 ok"
    );
    assert_eq!(redact_secrets("plain text"), "plain text");
    assert_eq!(redact_secrets(""), "");
}

#[test]
fn canonical_status_type_and_priority() {
    for (raw, expected) in [
        ("Done", "done"),
        ("CLOSED", "done"),
        ("resolved", "done"),
        ("In Review", "in_review"),
        ("review", "in_review"),
        ("QA", "in_review"),
        ("Blocked", "blocked"),
        ("In Progress", "in_progress"),
        ("doing", "in_progress"),
        ("Active", "in_progress"),
        ("Open", "todo"),
        ("To Do", "todo"),
        (" done", "todo"),
        ("", "todo"),
    ] {
        assert_eq!(canonical_status(&some(raw)), expected, "{:?}", raw);
    }
    assert_eq!(canonical_status(&None), "todo");
    for (raw, expected) in [
        ("Epic", "epic"),
        ("story", "story"),
        ("BUG", "bug"),
        ("Sub-task", "subtask"),
        ("Subtask", "subtask"),
        ("Task", "task"),
        ("Improvement", "task"),
        ("", "task"),
    ] {
        assert_eq!(canonical_type(&some(raw)), expected, "{:?}", raw);
    }
    assert_eq!(canonical_type(&None), "task");
    for (raw, expected) in [
        ("Highest", "p0"),
        ("blocker", "p0"),
        ("High", "p1"),
        ("MEDIUM", "p2"),
        ("low", "p3"),
        ("Lowest", "p4"),
        ("", "p4"),
    ] {
        assert_eq!(canonical_priority(&some(raw)), expected, "{:?}", raw);
    }
    assert_eq!(canonical_priority(&None), "p4");
}

#[test]
fn timestamps_become_utc_with_whole_seconds() {
    for (raw, expected) in [
        ("2026-02-21T00:00:00.000+0000", Some("2026-02-21T00:00:00Z")),
        ("2026-02-21T10:00:00Z", Some("2026-02-21T10:00:00Z")),
        ("2026-02-21T10:00:00+02:00", Some("2026-02-21T08:00:00Z")),
        ("2026-02-21T10:00:00.999999-03:30", Some("2026-02-21T13:30:00Z")),
        ("2026-02-21T10:00:00.123456+0530", Some("2026-02-21T04:30:00Z")),
        ("2026-02-21T10:00:00+0100", Some("2026-02-21T09:00:00Z")),
        ("  2026-02-21T10:00:00Z \n", Some("2026-02-21T10:00:00Z")),
        ("2026-12-31T23:30:00-01:00", Some("2027-01-01T00:30:00Z")),
        ("", None),
        ("   ", None),
        ("yesterday", None),
        ("2026-02-21", None),
        ("2026-02-30T10:00:00Z", None),
        ("2026-02-21T10:00:00", None),
    ] {
        assert_eq!(
            normalize_iso_utc(&some(raw)).as_deref(),
            expected,
            "{:?}",
            raw
        );
    }
    assert_eq!(normalize_iso_utc(&None), None);
}

#[test]
fn yaml_values() {
    assert_eq!(yaml_quote("plain"), "\"plain\"");
    assert_eq!(yaml_quote(""), "\"\"");
    assert_eq!(yaml_quote("say \"hi\""), "\"say \\\"hi\\\"\"");
    assert_eq!(yaml_quote("back\\slash"), "\"back\\slash\"");
    assert_eq!(yaml_opt(&None), "null");
    assert_eq!(yaml_opt(&some("x")), "\"x\"");
    assert_eq!(yaml_opt(&some("")), "\"\"");
    assert_eq!(yaml_array(&vec![]), "[]");
    assert_eq!(yaml_array(&vec!["a".to_string()]), "[\"a\"]");
    assert_eq!(
        yaml_array(&vec!["a".to_string(), "b \"c\"".to_string(), "".to_string()]),
        "[\"a\", \"b \\\"c\\\"\", \"\"]"
    );
}

fn split(markdown: &str) -> (Vec<String>, String) {
    let (criteria, notes) = split_acceptance_criteria(markdown);
    (
        criteria.into_iter().map(|l| l.into_iter().collect()).collect(),
        notes.into_iter().collect(),
    )
}

#[test]
fn check_list_items_become_acceptance_criteria() {
    assert_eq!(
        split("intro\n- [ ] one  \n- [X] two\n\nbody\n  - [ ] indented\n- [] not one\n"),
        (
            vec!["- [ ] one".to_string(), "- [X] two".to_string()],
            "intro\n\nbody\n  - [ ] indented\n- [] not one".to_string()
        )
    );
    assert_eq!(split(""), (vec![], String::new()));
    assert_eq!(split("\n\n"), (vec![], String::new()));
    assert_eq!(split("- [x]"), (vec!["- [x]".to_string()], String::new()));
    assert_eq!(
        split("a\r\n- [ ] b\r\nc"),
        (vec!["- [ ] b".to_string()], "a\nc".to_string())
    );
}

#[test]
fn rich_text_nodes() {
    assert_eq!(md_inner(&text("as is ")), "as is ");
    assert_eq!(md_inner(&Json::Null), "");
    assert_eq!(md_inner(&Json::Bool(true)), "");
    assert_eq!(md_inner(&Json::Number("3".to_string())), "");
    assert_eq!(md_inner(&text_node("hello")), "hello");
    assert_eq!(md_inner(&obj(vec![("type", text("text"))])), "");
    assert_eq!(md_inner(&obj(vec![("type", text("hardBreak"))])), "\n");
    assert_eq!(
        md_inner(&paragraph(vec![text_node("  a "), text_node("b  ")])),
        "a \nb\n"
    );
    assert_eq!(md_inner(&obj(vec![("type", text("paragraph"))])), "\n");
    assert_eq!(
        md_inner(&obj(vec![
            ("type", text("heading")),
            ("content", Json::Array(vec![text_node("Title")]))
        ])),
        "Title\n"
    );
    assert_eq!(md_inner(&obj(vec![("type", text("media"))])), "");
    assert_eq!(
        md_inner(&obj(vec![("type", text("file")), ("text", text("x"))])),
        ""
    );
    // an unknown node gives its content, else its text
    assert_eq!(
        md_inner(&obj(vec![
            ("type", text("panel")),
            ("text", text("t")),
            ("content", Json::Array(vec![text_node("c")]))
        ])),
        "c"
    );
    assert_eq!(md_inner(&obj(vec![("type", text("panel")), ("text", text("t"))])), "t");
    assert_eq!(md_inner(&obj(vec![("text", text("untyped"))])), "untyped");
    assert_eq!(md_inner(&obj(vec![])), "");
    // blank items of an array are left out
    assert_eq!(
        md_inner(&Json::Array(vec![text("a"), text("  "), Json::Null, text("b")])),
        "a\nb"
    );
    assert_eq!(md_inner(&Json::Array(vec![])), "");
}

#[test]
fn rich_text_links_mentions_emoji_and_cards() {
    let link_mark = obj(vec![
        ("type", text("link")),
        ("attrs", obj(vec![("href", text("https://x.test"))])),
    ]);
    let bold = obj(vec![("type", text("strong"))]);
    let linked = obj(vec![
        ("type", text("text")),
        ("text", text("site")),
        ("marks", Json::Array(vec![bold, link_mark])),
    ]);
    assert_eq!(md_inner(&linked), "[site](https://x.test)");
    let empty_linked = obj(vec![
        ("type", text("text")),
        ("text", text("")),
        (
            "marks",
            Json::Array(vec![obj(vec![
                ("type", text("link")),
                ("attrs", obj(vec![("href", text("https://x.test"))])),
            ])]),
        ),
    ]);
    assert_eq!(md_inner(&empty_linked), "");
    let no_href = obj(vec![
        ("type", text("text")),
        ("text", text("plain")),
        ("marks", Json::Array(vec![obj(vec![("type", text("link"))])])),
    ]);
    assert_eq!(md_inner(&no_href), "plain");

    let mention = |attrs: Vec<(&str, Json)>| obj(vec![("type", text("mention")), ("attrs", obj(attrs))]);
    assert_eq!(md_inner(&mention(vec![("text", text("@ada"))])), "@ada");
    assert_eq!(md_inner(&mention(vec![("text", text("ada"))])), "@ada");
    assert_eq!(md_inner(&mention(vec![("displayName", text("Bob"))])), "@Bob");
    assert_eq!(md_inner(&mention(vec![])), "@unknown");
    assert_eq!(md_inner(&obj(vec![("type", text("mention"))])), "@unknown");

    let emoji = |attrs: Vec<(&str, Json)>| obj(vec![("type", text("emoji")), ("attrs", obj(attrs))]);
    assert_eq!(
        md_inner(&emoji(vec![("shortName", text(":smile:")), ("text", text("x"))])),
        ":smile:"
    );
    assert_eq!(md_inner(&emoji(vec![("text", text("x"))])), "x");
    assert_eq!(md_inner(&emoji(vec![])), ":emoji:");

    for kind in ["inlineCard", "blockCard"] {
        let card = obj(vec![
            ("type", text(kind)),
            ("attrs", obj(vec![("url", text("https://c.test/1"))])),
        ]);
        assert_eq!(md_inner(&card), "[https://c.test/1](https://c.test/1)");
        assert_eq!(md_inner(&obj(vec![("type", text(kind))])), "");
    }
}

#[test]
fn rich_text_documents_are_trimmed() {
    let d = doc(vec![
        paragraph(vec![text_node("one")]),
        paragraph(vec![]),
        paragraph(vec![text_node("two"), obj(vec![("type", text("hardBreak"))]), text_node("three")]),
    ]);
    assert_eq!(md(&d), "one\n\ntwo\nthree");
    assert_eq!(md(&Json::Null), "");
    assert_eq!(md(&text("  x  ")), "x");
}

#[test]
fn first_link_mark_with_a_target_wins() {
    let marks = Json::Array(vec![
        obj(vec![("type", text("em"))]),
        obj(vec![("type", text("link")), ("attrs", obj(vec![]))]),
        obj(vec![("type", text("link")), ("attrs", obj(vec![("href", text("first"))]))]),
        obj(vec![("type", text("link")), ("attrs", obj(vec![("href", text("second"))]))]),
    ]);
    assert_eq!(extract_mark_link(Some(&marks)), Some("first"));
    assert_eq!(extract_mark_link(Some(&Json::Array(vec![]))), None);
    assert_eq!(extract_mark_link(Some(&text("link"))), None);
    assert_eq!(extract_mark_link(None), None);
}
