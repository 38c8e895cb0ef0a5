//! Rendering depends on the text of an issue alone: two issues that hold the same
//! characters in every field render to the same characters.

use vstd::prelude::*;
use crate::jira::{IssueAttachment, IssueComment, IssueData};
use crate::json::{Json, member, member_index, lemma_member_index};
use crate::lines::texts;
use crate::render::document::{
    attachment_lines, attachments_block, comment_sections, comments_document, comments_markdown,
    front_matter, issue_markdown, main_document, sections,
};
use crate::render::rich_text::{
    adf_text, array_parts, card_url, emoji_text, first_link, link_of_mark, mark_link,
    mention_display, node_text, object_member, str_member,
};
use crate::render::{yaml_items, yaml_sequence};
use crate::text::opt_text;

verus! {

/// Two member lists hold the same names and, under each, the same documents.
pub open spec fn same_members(a: Seq<(String, Json)>, b: Seq<(String, Json)>) -> bool {
    &&& a.len() == b.len()
    &&& forall|i: int| 0 <= i < a.len() ==> (#[trigger] a[i]).0@ == b[i].0@
    &&& forall|i: int| 0 <= i < a.len() ==> same_json(#[trigger] a[i].1, b[i].1)
}

/// Two JSON documents hold the same values: the same shape, and the same characters
/// in every string, number and member name.
pub open spec fn same_json(a: Json, b: Json) -> bool
    decreases a,
{
    match a {
        Json::Null => b is Null,
        Json::Bool(x) => b matches Json::Bool(y) && x == y,
        Json::Number(x) => b matches Json::Number(y) && x@ == y@,
        Json::Text(x) => b matches Json::Text(y) && x@ == y@,
        Json::Array(x) => b matches Json::Array(y) && x@.len() == y@.len() && forall|i: int|
            0 <= i < x@.len() ==> same_json(#[trigger] x@[i], y@[i]),
        Json::Object(x) => b matches Json::Object(y) && x@.len() == y@.len() && (forall|i: int|
            0 <= i < x@.len() ==> (#[trigger] x@[i]).0@ == y@[i].0@) && (forall|i: int|
            0 <= i < x@.len() ==> same_json(#[trigger] x@[i].1, y@[i].1)),
    }
}

/// The same name is found at the same place in two member lists with the same names.
pub proof fn lemma_same_member_index(a: Seq<(String, Json)>, b: Seq<(String, Json)>, name: Seq<char>)
    requires
        a.len() == b.len(),
        forall|i: int| 0 <= i < a.len() ==> (#[trigger] a[i]).0@ == b[i].0@,
    ensures
        member_index(a, name) == member_index(b, name),
    decreases a.len(),
{
    if a.len() > 0 {
        assert(a[0].0@ == b[0].0@);
        if a[0].0@ != name {
            assert forall|i: int| 0 <= i < a.drop_first().len() implies (#[trigger] a.drop_first()[i]).0@
                == b.drop_first()[i].0@ by {
                assert(a[i + 1].0@ == b[i + 1].0@);
            }
            lemma_same_member_index(a.drop_first(), b.drop_first(), name);
        }
    }
}

/// The members found under a name in two member lists that hold the same hold the
/// same.
pub proof fn lemma_same_member(a: Seq<(String, Json)>, b: Seq<(String, Json)>, name: Seq<char>)
    requires
        same_members(a, b),
    ensures
        match member(a, name) {
            Some(x) => member(b, name) matches Some(y) && same_json(x, y),
            None => member(b, name) is None,
        },
        str_member(a, name) == str_member(b, name),
        match object_member(a, name) {
            Some(x) => object_member(b, name) matches Some(y) && same_members(x, y),
            None => object_member(b, name) is None,
        },
{
    lemma_same_member_index(a, b, name);
    lemma_member_index(a, name);
    lemma_member_index(b, name);
    match member_index(a, name) {
        Some(i) => {
            assert(same_json(a[i].1, b[i].1));
        },
        None => {},
    }
}

/// The link target of two marks that hold the same is the same.
pub proof fn lemma_same_link_of_mark(a: Json, b: Json)
    requires
        same_json(a, b),
    ensures
        link_of_mark(a) == link_of_mark(b),
{
    match a {
        Json::Object(x) => {
            let y = b->Object_0;
            assert(same_members(x@, y@));
            lemma_same_member(x@, y@, "type"@);
            lemma_same_member(x@, y@, "attrs"@);
            match object_member(x@, "attrs"@) {
                Some(attrs) => {
                    lemma_same_member(attrs, object_member(y@, "attrs"@).unwrap(), "href"@);
                },
                None => {},
            }
        },
        _ => {},
    }
}

/// The first link target among two lists of marks that hold the same is the same.
pub proof fn lemma_same_first_link(a: Seq<Json>, b: Seq<Json>)
    requires
        a.len() == b.len(),
        forall|i: int| 0 <= i < a.len() ==> same_json(#[trigger] a[i], b[i]),
    ensures
        first_link(a) == first_link(b),
    decreases a.len(),
{
    if a.len() > 0 {
        lemma_same_link_of_mark(a[0], b[0]);
        assert forall|i: int| 0 <= i < a.drop_first().len() implies same_json(
            #[trigger] a.drop_first()[i],
            b.drop_first()[i],
        ) by {
            assert(same_json(a[i + 1], b[i + 1]));
        }
        lemma_same_first_link(a.drop_first(), b.drop_first());
    }
}

/// An object node renders the same from two member lists that hold the same, given
/// the same rendered content and text.
pub proof fn lemma_same_node_text(
    a: Seq<(String, Json)>,
    b: Seq<(String, Json)>,
    content: Option<Seq<char>>,
    text: Option<Seq<char>>,
)
    requires
        same_members(a, b),
    ensures
        node_text(a, content, text) == node_text(b, content, text),
{
    lemma_same_member(a, b, "type"@);
    lemma_same_member(a, b, "text"@);
    lemma_same_member(a, b, "marks"@);
    lemma_same_member(a, b, "attrs"@);
    match member(a, "marks"@) {
        Some(Json::Array(x)) => {
            let y = member(b, "marks"@).unwrap()->Array_0;
            lemma_same_first_link(x@, y@);
        },
        _ => {},
    }
    assert(mark_link(member(a, "marks"@)) == mark_link(member(b, "marks"@)));
    match object_member(a, "attrs"@) {
        Some(attrs) => {
            let other = object_member(b, "attrs"@).unwrap();
            lemma_same_member(attrs, other, "text"@);
            lemma_same_member(attrs, other, "displayName"@);
            lemma_same_member(attrs, other, "shortName"@);
            lemma_same_member(attrs, other, "url"@);
        },
        None => {},
    }
    assert(mention_display(a) == mention_display(b));
    assert(emoji_text(a) == emoji_text(b));
    assert(card_url(a) == card_url(b));
}

/// The parts of two arrays render the same if their items do.
pub proof fn lemma_same_parts(a: Seq<Json>, b: Seq<Json>, n: int)
    requires
        a.len() == b.len(),
        forall|i: int| 0 <= i < a.len() ==> adf_text(#[trigger] a[i]) == adf_text(b[i]),
    ensures
        array_parts(a, n) == array_parts(b, n),
    decreases n,
{
    if 0 < n && n <= a.len() {
        lemma_same_parts(a, b, n - 1);
        assert(adf_text(a[n - 1]) == adf_text(b[n - 1]));
    }
}

/// The rendered text of the member `name`, where the list has one.
spec fn rendered_member(members: Seq<(String, Json)>, name: Seq<char>) -> Option<Seq<char>> {
    match member_index(members, name) {
        Some(i) => if 0 <= i < members.len() {
            Some(adf_text(members[i].1))
        } else {
            None
        },
        None => None,
    }
}

/// Two rich-text documents that hold the same render to the same text.
pub proof fn lemma_same_adf(a: Json, b: Json)
    requires
        same_json(a, b),
    ensures
        adf_text(a) == adf_text(b),
    decreases a,
{
    match a {
        Json::Array(x) => {
            let y = b->Array_0;
            assert forall|i: int| 0 <= i < x@.len() implies adf_text(#[trigger] x@[i]) == adf_text(
                y@[i],
            ) by {
                assert(decreases_to!(a => a->Array_0));
                assert(decreases_to!(a->Array_0 => a->Array_0@));
                assert(decreases_to!(a->Array_0@ => a->Array_0@[i]));
                lemma_same_adf(x@[i], y@[i]);
            }
            lemma_same_parts(x@, y@, x@.len() as int);
        },
        Json::Object(x) => {
            let y = b->Object_0;
            assert(same_members(x@, y@));
            lemma_same_member_index(x@, y@, "content"@);
            lemma_same_member_index(x@, y@, "text"@);
            lemma_member_index(x@, "content"@);
            lemma_member_index(x@, "text"@);
            match member_index(x@, "content"@) {
                Some(i) => {
                    assert(decreases_to!(a => a->Object_0));
                    assert(decreases_to!(a->Object_0 => a->Object_0@));
                    assert(decreases_to!(a->Object_0@ => a->Object_0@[i]));
                    assert(decreases_to!(a->Object_0@[i] => a->Object_0@[i].1));
                    lemma_same_adf(x@[i].1, y@[i].1);
                },
                None => {},
            }
            match member_index(x@, "text"@) {
                Some(i) => {
                    assert(decreases_to!(a => a->Object_0));
                    assert(decreases_to!(a->Object_0 => a->Object_0@));
                    assert(decreases_to!(a->Object_0@ => a->Object_0@[i]));
                    assert(decreases_to!(a->Object_0@[i] => a->Object_0@[i].1));
                    lemma_same_adf(x@[i].1, y@[i].1);
                },
                None => {},
            }
            assert(rendered_member(x@, "content"@) == rendered_member(y@, "content"@));
            assert(rendered_member(x@, "text"@) == rendered_member(y@, "text"@));
            lemma_same_node_text(
                x@,
                y@,
                rendered_member(x@, "content"@),
                rendered_member(x@, "text"@),
            );
            assert(adf_text(a) == node_text(
                x@,
                rendered_member(x@, "content"@),
                rendered_member(x@, "text"@),
            ));
            assert(adf_text(b) == node_text(
                y@,
                rendered_member(y@, "content"@),
                rendered_member(y@, "text"@),
            ));
        },
        _ => {},
    }
}

/// Two lists of attachments hold the same ids and file names.
pub open spec fn same_attachments(a: Seq<IssueAttachment>, b: Seq<IssueAttachment>) -> bool {
    &&& a.len() == b.len()
    &&& forall|i: int|
        0 <= i < a.len() ==> (#[trigger] a[i]).id@ == b[i].id@ && a[i].filename@ == b[i].filename@
}

/// Two comments hold the same text in every field.
pub open spec fn same_comment(a: IssueComment, b: IssueComment) -> bool {
    &&& opt_text(a.id) == opt_text(b.id)
    &&& opt_text(a.author_display_name) == opt_text(b.author_display_name)
    &&& opt_text(a.created) == opt_text(b.created)
    &&& same_json(a.body, b.body)
}

/// Two lists of comments hold the same comments.
pub open spec fn same_comments(a: Seq<IssueComment>, b: Seq<IssueComment>) -> bool {
    &&& a.len() == b.len()
    &&& forall|i: int| 0 <= i < a.len() ==> same_comment(#[trigger] a[i], b[i])
}

/// Two issues hold the same text in every field.
pub open spec fn same_issue(a: IssueData, b: IssueData) -> bool {
    &&& a.key@ == b.key@
    &&& a.project@ == b.project@
    &&& opt_text(a.issue_type) == opt_text(b.issue_type)
    &&& opt_text(a.summary) == opt_text(b.summary)
    &&& opt_text(a.status) == opt_text(b.status)
    &&& opt_text(a.priority) == opt_text(b.priority)
    &&& opt_text(a.assignee) == opt_text(b.assignee)
    &&& opt_text(a.reporter) == opt_text(b.reporter)
    &&& texts(a.labels@) == texts(b.labels@)
    &&& opt_text(a.created) == opt_text(b.created)
    &&& opt_text(a.updated) == opt_text(b.updated)
    &&& opt_text(a.parent) == opt_text(b.parent)
    &&& opt_text(a.epic) == opt_text(b.epic)
    &&& texts(a.blocks@) == texts(b.blocks@)
    &&& texts(a.blocked_by@) == texts(b.blocked_by@)
    &&& texts(a.relates_to@) == texts(b.relates_to@)
    &&& opt_text(a.due_at) == opt_text(b.due_at)
    &&& a.source_url@ == b.source_url@
    &&& same_attachments(a.attachments@, b.attachments@)
    &&& same_json(a.description, b.description)
    &&& same_comments(a.comments@, b.comments@)
}

/// Two lists of texts that hold the same are the same YAML sequence.
pub proof fn lemma_same_yaml_sequence(a: Seq<String>, b: Seq<String>)
    requires
        texts(a) == texts(b),
    ensures
        yaml_sequence(a) == yaml_sequence(b),
{
    assert(texts(a).len() == a.len());
    assert(texts(b).len() == b.len());
    lemma_same_yaml_items(a, b, a.len() as int);
}

proof fn lemma_same_yaml_items(a: Seq<String>, b: Seq<String>, n: int)
    requires
        texts(a) == texts(b),
        n <= a.len(),
    ensures
        yaml_items(a, n) == yaml_items(b, n),
    decreases n,
{
    assert(texts(a).len() == a.len());
    assert(texts(b).len() == b.len());
    if n > 0 {
        lemma_same_yaml_items(a, b, n - 1);
        assert(texts(a)[n - 1] == a[n - 1]@);
        assert(texts(b)[n - 1] == b[n - 1]@);
        assert(texts(a)[0] == a[0]@);
        assert(texts(b)[0] == b[0]@);
    }
}

proof fn lemma_same_attachment_lines(a: Seq<IssueAttachment>, b: Seq<IssueAttachment>, n: int)
    requires
        same_attachments(a, b),
        n <= a.len(),
    ensures
        attachment_lines(a, n) == attachment_lines(b, n),
    decreases n,
{
    if n > 0 {
        lemma_same_attachment_lines(a, b, n - 1);
        assert(a[n - 1].id@ == b[n - 1].id@);
    }
}

proof fn lemma_same_comment_sections(a: Seq<IssueComment>, b: Seq<IssueComment>, n: int)
    requires
        same_comments(a, b),
        n <= a.len(),
    ensures
        comment_sections(a, n) == comment_sections(b, n),
    decreases n,
{
    if n > 0 {
        lemma_same_comment_sections(a, b, n - 1);
        assert(same_comment(a[n - 1], b[n - 1]));
        lemma_same_adf(a[n - 1].body, b[n - 1].body);
    }
}

/// Rendering is a function of the characters an issue holds: two issues that hold the
/// same text in every field have the same main view and the same comments view,
/// character by character, whenever and wherever they are rendered.
pub proof fn lemma_render_depends_on_text_alone(a: IssueData, b: IssueData)
    requires
        same_issue(a, b),
    ensures
        issue_markdown(a) == issue_markdown(b),
        comments_markdown(a) == comments_markdown(b),
{
    lemma_same_yaml_sequence(a.labels@, b.labels@);
    lemma_same_yaml_sequence(a.blocks@, b.blocks@);
    lemma_same_yaml_sequence(a.blocked_by@, b.blocked_by@);
    lemma_same_yaml_sequence(a.relates_to@, b.relates_to@);
    assert(front_matter(a) == front_matter(b));
    lemma_same_adf(a.description, b.description);
    lemma_same_attachment_lines(a.attachments@, b.attachments@, a.attachments@.len() as int);
    assert(attachments_block(a.attachments@) == attachments_block(b.attachments@));
    assert(sections(a) == sections(b));
    assert(main_document(a) == main_document(b));
    lemma_same_comment_sections(a.comments@, b.comments@, a.comments@.len() as int);
    assert(comments_document(a) == comments_document(b));
}

} // verus!
