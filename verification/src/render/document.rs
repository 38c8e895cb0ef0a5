//! The two documents of an issue: the main view and the comments view.

use vstd::prelude::*;
use crate::decimal::{decimal, push_decimal};
use crate::jira::{IssueAttachment, IssueComment, IssueData};
use crate::lines::seqs;
use crate::redact::{redact_secrets, secrets_redacted};
use crate::render::{
    acceptance_criteria, canonical_priority, canonical_priority_of, canonical_status,
    canonical_status_of, canonical_type, canonical_type_of, implementation_notes, iso_utc,
    normalize_iso_utc, push_yaml_array, push_yaml_opt, push_yaml_quote, split_acceptance_criteria,
    yaml_optional, yaml_quoted, yaml_sequence,
};
use crate::render::rich_text::{adf_markdown, adf_to_markdown};
use crate::text::{chars_of, opt_text, push_all, push_str, string_of};

verus! {

/// An optional text, or `default` where it is absent.
pub open spec fn text_or(v: Option<String>, default: Seq<char>) -> Seq<char> {
    match v {
        Some(s) => s@,
        None => default,
    }
}

fn chars_or(v: &Option<String>, default: &str) -> (r: Vec<char>)
    ensures
        r@ == text_or(*v, default@),
{
    match v {
        Some(s) => chars_of(s.as_str()),
        None => chars_of(default),
    }
}

/// The front matter of the main view: the fields in fixed order, between two lines
/// of three hyphens, followed by an empty line.
pub open spec fn front_matter(issue: IssueData) -> Seq<char> {
    Seq::<char>::empty() + "---\n"@ + "id: "@ + issue.key@ + "\n"@ + "project: "@
        + issue.project@ + "\n"@ + "type: "@ + canonical_type_of(opt_text(issue.issue_type))
        + "\n"@ + "status: "@ + canonical_status_of(opt_text(issue.status)) + "\n"@
        + "priority: "@ + canonical_priority_of(opt_text(issue.priority)) + "\n"@ + "assignee: "@
        + yaml_quoted(text_or(issue.assignee, "unassigned"@)) + "\n"@ + "reporter: "@
        + yaml_quoted(text_or(issue.reporter, "unknown"@)) + "\n"@ + "labels: "@ + yaml_sequence(
        issue.labels@,
    ) + "\n"@ + "created_at: "@ + yaml_optional(iso_utc(opt_text(issue.created))) + "\n"@
        + "updated_at: "@ + yaml_optional(iso_utc(opt_text(issue.updated))) + "\n"@ + "parent: "@
        + yaml_optional(opt_text(issue.parent)) + "\n"@ + "epic: "@ + yaml_optional(
        opt_text(issue.epic),
    ) + "\n"@ + "blocks: "@ + yaml_sequence(issue.blocks@) + "\n"@ + "blocked_by: "@
        + yaml_sequence(issue.blocked_by@) + "\n"@ + "relates_to: "@ + yaml_sequence(
        issue.relates_to@,
    ) + "\n"@ + "due_at: "@ + yaml_optional(iso_utc(opt_text(issue.due_at))) + "\n"@
        + "version: 2\n"@ + "source_url: "@ + yaml_quoted(issue.source_url@) + "\n"@ + "---\n\n"@
}

fn push_front_matter(out: &mut Vec<char>, issue: &IssueData)
    requires
        old(out)@.len() == 0,
    ensures
        final(out)@ == front_matter(*issue),
{
    assert(out@ == Seq::<char>::empty());
    push_str(out, "---\n");
    push_str(out, "id: ");
    push_str(out, issue.key.as_str());
    push_str(out, "\n");
    push_str(out, "project: ");
    push_str(out, issue.project.as_str());
    push_str(out, "\n");
    push_str(out, "type: ");
    push_str(out, canonical_type(&issue.issue_type));
    push_str(out, "\n");
    push_str(out, "status: ");
    push_str(out, canonical_status(&issue.status));
    push_str(out, "\n");
    push_str(out, "priority: ");
    push_str(out, canonical_priority(&issue.priority));
    push_str(out, "\n");
    push_str(out, "assignee: ");
    push_yaml_quote(out, &chars_or(&issue.assignee, "unassigned"));
    push_str(out, "\n");
    push_str(out, "reporter: ");
    push_yaml_quote(out, &chars_or(&issue.reporter, "unknown"));
    push_str(out, "\n");
    push_str(out, "labels: ");
    push_yaml_array(out, &issue.labels);
    push_str(out, "\n");
    push_str(out, "created_at: ");
    push_yaml_opt(out, &normalize_iso_utc(&issue.created));
    push_str(out, "\n");
    push_str(out, "updated_at: ");
    push_yaml_opt(out, &normalize_iso_utc(&issue.updated));
    push_str(out, "\n");
    push_str(out, "parent: ");
    push_yaml_opt(out, &issue.parent);
    push_str(out, "\n");
    push_str(out, "epic: ");
    push_yaml_opt(out, &issue.epic);
    push_str(out, "\n");
    push_str(out, "blocks: ");
    push_yaml_array(out, &issue.blocks);
    push_str(out, "\n");
    push_str(out, "blocked_by: ");
    push_yaml_array(out, &issue.blocked_by);
    push_str(out, "\n");
    push_str(out, "relates_to: ");
    push_yaml_array(out, &issue.relates_to);
    push_str(out, "\n");
    push_str(out, "due_at: ");
    push_yaml_opt(out, &normalize_iso_utc(&issue.due_at));
    push_str(out, "\n");
    push_str(out, "version: 2\n");
    push_str(out, "source_url: ");
    push_yaml_quote(out, &chars_of(issue.source_url.as_str()));
    push_str(out, "\n");
    push_str(out, "---\n\n");
}

/// The lines `criteria[..n]`, each followed by a line feed.
pub open spec fn criteria_lines(criteria: Seq<Seq<char>>, n: int) -> Seq<char>
    decreases n,
{
    if n <= 0 {
        Seq::empty()
    } else {
        criteria_lines(criteria, n - 1) + criteria[n - 1] + "\n"@
    }
}

/// The acceptance criteria section's body: the check-list items and an empty line, or
/// the line `- [ ] TBD` where there are none.
pub open spec fn criteria_block(criteria: Seq<Seq<char>>) -> Seq<char> {
    if criteria.len() == 0 {
        "- [ ] TBD\n\n"@
    } else {
        criteria_lines(criteria, criteria.len() as int) + "\n"@
    }
}

fn criteria_block_chars(criteria: &Vec<Vec<char>>) -> (r: Vec<char>)
    ensures
        r@ == criteria_block(seqs(criteria@)),
{
    let mut r: Vec<char> = Vec::new();
    if criteria.len() == 0 {
        return chars_of("- [ ] TBD\n\n");
    }
    let mut i: usize = 0;
    while i < criteria.len()
        invariant
            i <= criteria.len(),
            r@ == criteria_lines(seqs(criteria@), i as int),
        decreases criteria.len() - i,
    {
        push_all(&mut r, &criteria[i]);
        push_str(&mut r, "\n");
        i += 1;
    }
    push_str(&mut r, "\n");
    r
}

/// The implementation notes section's body: the notes and a line feed, or `(none)`.
pub open spec fn notes_block(notes: Seq<char>) -> Seq<char> {
    if notes.len() == 0 {
        "(none)\n"@
    } else {
        notes + "\n"@
    }
}

/// One line per attachment of `attachments[..n]`: its file name and, in brackets,
/// its id.
pub open spec fn attachment_lines(attachments: Seq<IssueAttachment>, n: int) -> Seq<char>
    decreases n,
{
    if n <= 0 {
        Seq::empty()
    } else {
        attachment_lines(attachments, n - 1) + "- attachment: "@ + attachments[n - 1].filename@
            + " ("@ + attachments[n - 1].id@ + ")\n"@
    }
}

/// The attachments below the notes: nothing where there are none, else an empty line
/// and one line per attachment.
pub open spec fn attachments_block(attachments: Seq<IssueAttachment>) -> Seq<char> {
    if attachments.len() == 0 {
        Seq::empty()
    } else {
        "\n"@ + attachment_lines(attachments, attachments.len() as int)
    }
}

fn attachments_block_chars(attachments: &Vec<IssueAttachment>) -> (r: Vec<char>)
    ensures
        r@ == attachments_block(attachments@),
{
    let mut lines: Vec<char> = Vec::new();
    if attachments.len() == 0 {
        return lines;
    }
    let mut i: usize = 0;
    while i < attachments.len()
        invariant
            i <= attachments.len(),
            lines@ == attachment_lines(attachments@, i as int),
        decreases attachments.len() - i,
    {
        push_str(&mut lines, "- attachment: ");
        push_str(&mut lines, attachments[i].filename.as_str());
        push_str(&mut lines, " (");
        push_str(&mut lines, attachments[i].id.as_str());
        push_str(&mut lines, ")\n");
        i += 1;
    }
    let mut r = chars_of("\n");
    push_all(&mut r, &lines);
    r
}

/// The sections of the main view, in fixed order: summary, acceptance criteria,
/// implementation notes, test evidence, comments.
pub open spec fn sections(issue: IssueData) -> Seq<char> {
    let description = adf_markdown(issue.description);
    Seq::<char>::empty() + "## Summary\n\n"@ + text_or(issue.summary, "(no summary)"@) + "\n\n"@
        + "## Acceptance Criteria\n\n"@ + criteria_block(acceptance_criteria(description))
        + "## Implementation Notes\n\n"@ + notes_block(implementation_notes(description))
        + attachments_block(issue.attachments@) + "\n"@ + "## Test Evidence\n\n"@
        + "(none yet)\n\n"@ + "## Comments\n\n"@ + decimal(issue.comments@.len()) + " comment(s). See `"@
        + issue.key@ + ".comments.md`.\n"@
}

fn sections_chars(issue: &IssueData) -> (out: Vec<char>)
    ensures
        out@ == sections(*issue),
{
    let description = string_of(&adf_to_markdown(&issue.description));
    let (criteria, notes) = split_acceptance_criteria(description.as_str());
    let mut out: Vec<char> = Vec::new();
    assert(out@ == Seq::<char>::empty());
    push_str(&mut out, "## Summary\n\n");
    push_all(&mut out, &chars_or(&issue.summary, "(no summary)"));
    push_str(&mut out, "\n\n");
    push_str(&mut out, "## Acceptance Criteria\n\n");
    push_all(&mut out, &criteria_block_chars(&criteria));
    push_str(&mut out, "## Implementation Notes\n\n");
    if notes.len() == 0 {
        push_str(&mut out, "(none)\n");
    } else {
        let mut block: Vec<char> = Vec::new();
        push_all(&mut block, &notes);
        push_str(&mut block, "\n");
        assert(block@ =~= notes@ + "\n"@);
        push_all(&mut out, &block);
    }
    push_all(&mut out, &attachments_block_chars(&issue.attachments));
    push_str(&mut out, "\n");
    push_str(&mut out, "## Test Evidence\n\n");
    push_str(&mut out, "(none yet)\n\n");
    push_str(&mut out, "## Comments\n\n");
    push_decimal(&mut out, issue.comments.len() as u64);
    push_str(&mut out, " comment(s). See `");
    push_str(&mut out, issue.key.as_str());
    push_str(&mut out, ".comments.md`.\n");
    out
}

/// The main view before redaction: front matter, then the sections.
pub open spec fn main_document(issue: IssueData) -> Seq<char> {
    front_matter(issue) + sections(issue)
}

/// The main view of an issue: front matter and sections, with what looks like a
/// credential replaced.
pub open spec fn issue_markdown(issue: IssueData) -> Seq<char> {
    secrets_redacted(main_document(issue))
}

/// Renders the main view of `issue`.
pub fn render_issue_markdown(issue: &IssueData) -> (r: String)
    ensures
        r@ == issue_markdown(*issue),
{
    let mut out: Vec<char> = Vec::new();
    push_front_matter(&mut out, issue);
    push_all(&mut out, &sections_chars(issue));
    let document = string_of(&out);
    redact_secrets(document.as_str())
}

/// The subsection of the comment at index `idx`: its number, its id, author and
/// creation time, then its body or `(empty comment)`.
pub open spec fn comment_section(comment: IssueComment, idx: int) -> Seq<char> {
    let body = adf_markdown(comment.body);
    let created = match iso_utc(opt_text(comment.created)) {
        Some(t) => t,
        None => "unknown"@,
    };
    Seq::<char>::empty() + "## "@ + decimal((idx + 1) as nat) + "\n\n"@ + "- id: "@ + text_or(
        comment.id,
        Seq::empty(),
    ) + "\n"@ + "- author: "@ + text_or(comment.author_display_name, "unknown"@) + "\n"@
        + "- created_at: "@ + created + "\n\n"@ + (if body.len() == 0 {
        "(empty comment)\n\n"@
    } else {
        body + "\n\n"@
    })
}

fn comment_section_chars(comment: &IssueComment, idx: usize) -> (out: Vec<char>)
    requires
        idx < usize::MAX,
    ensures
        out@ == comment_section(*comment, idx as int),
{
    let body = adf_to_markdown(&comment.body);
    let created = match normalize_iso_utc(&comment.created) {
        Some(t) => chars_of(t.as_str()),
        None => chars_of("unknown"),
    };
    let mut out: Vec<char> = Vec::new();
    assert(out@ == Seq::<char>::empty());
    push_str(&mut out, "## ");
    push_decimal(&mut out, (idx + 1) as u64);
    push_str(&mut out, "\n\n");
    push_str(&mut out, "- id: ");
    let id: Vec<char> = match &comment.id {
        Some(s) => chars_of(s.as_str()),
        None => Vec::new(),
    };
    push_all(&mut out, &id);
    push_str(&mut out, "\n");
    push_str(&mut out, "- author: ");
    push_all(&mut out, &chars_or(&comment.author_display_name, "unknown"));
    push_str(&mut out, "\n");
    push_str(&mut out, "- created_at: ");
    push_all(&mut out, &created);
    push_str(&mut out, "\n\n");
    if body.len() == 0 {
        push_str(&mut out, "(empty comment)\n\n");
    } else {
        let mut block: Vec<char> = Vec::new();
        push_all(&mut block, &body);
        push_str(&mut block, "\n\n");
        assert(block@ =~= body@ + "\n\n"@);
        push_all(&mut out, &block);
    }
    out
}

/// The subsections of the comments `comments[..n]`.
pub open spec fn comment_sections(comments: Seq<IssueComment>, n: int) -> Seq<char>
    decreases n,
{
    if n <= 0 {
        Seq::empty()
    } else {
        comment_sections(comments, n - 1) + comment_section(comments[n - 1], n - 1)
    }
}

/// The comments view before redaction: a heading, then one numbered subsection per
/// comment, or `(no comments)`.
pub open spec fn comments_document(issue: IssueData) -> Seq<char> {
    Seq::<char>::empty() + "# "@ + issue.key@ + " comments\n\n"@ + (if issue.comments@.len() == 0 {
        "(no comments)\n"@
    } else {
        comment_sections(issue.comments@, issue.comments@.len() as int)
    })
}

/// The comments view of an issue, with what looks like a credential replaced.
pub open spec fn comments_markdown(issue: IssueData) -> Seq<char> {
    secrets_redacted(comments_document(issue))
}

/// Renders the comments view of `issue`.
pub fn render_issue_comments_markdown(issue: &IssueData) -> (r: String)
    ensures
        r@ == comments_markdown(*issue),
{
    let mut out: Vec<char> = Vec::new();
    assert(out@ == Seq::<char>::empty());
    push_str(&mut out, "# ");
    push_str(&mut out, issue.key.as_str());
    push_str(&mut out, " comments\n\n");
    if issue.comments.len() == 0 {
        push_str(&mut out, "(no comments)\n");
    } else {
        let mut all: Vec<char> = Vec::new();
        let mut i: usize = 0;
        while i < issue.comments.len()
            invariant
                i <= issue.comments.len(),
                all@ == comment_sections(issue.comments@, i as int),
            decreases issue.comments.len() - i,
        {
            push_all(&mut all, &comment_section_chars(&issue.comments[i], i));
            i += 1;
        }
        push_all(&mut out, &all);
    }
    let document = string_of(&out);
    redact_secrets(document.as_str())
}

} // verus!
