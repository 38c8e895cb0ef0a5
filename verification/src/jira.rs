//! The remote tracker's data model and the rules of talking to it: retry, paging,
//! base-URL normalization and link categorization.

pub mod base_url;
pub mod links;
pub mod paging;
pub mod retry;
pub mod client;
pub mod endpoints;

use vstd::prelude::*;
use crate::json::Json;
use crate::text::opt_text;

verus! {

/// A listing entry: an issue key and when the issue last changed.
#[derive(Debug, Clone)]
pub struct IssueRef {
    pub key: String,
    pub updated: Option<String>,
}

impl View for IssueRef {
    type V = (Seq<char>, Option<Seq<char>>);

    open spec fn view(&self) -> (Seq<char>, Option<Seq<char>>) {
        (self.key@, opt_text(self.updated))
    }
}

impl IssueRef {
    /// A copy of this entry.
    pub fn copy(&self) -> (r: IssueRef)
        ensures
            r == *self,
    {
        IssueRef { key: self.key.clone(), updated: crate::text::copy_opt(&self.updated) }
    }
}

/// The views of a sequence of listing entries.
pub open spec fn ref_views(refs: Seq<IssueRef>) -> Seq<(Seq<char>, Option<Seq<char>>)> {
    refs.map_values(|r: IssueRef| r@)
}

/// A copy of a listing.
pub fn copy_refs(refs: &Vec<IssueRef>) -> (r: Vec<IssueRef>)
    ensures
        r@ == refs@,
{
    let mut r: Vec<IssueRef> = Vec::new();
    let mut i: usize = 0;
    while i < refs.len()
        invariant
            i <= refs.len(),
            r@ == refs@.take(i as int),
        decreases refs.len() - i,
    {
        r.push(refs[i].copy());
        i += 1;
    }
    r
}

/// Who the credentials belong to.
#[derive(Debug, Clone)]
pub struct JiraIdentity {
    pub account_id: Option<String>,
    pub display_name: Option<String>,
    pub email_address: Option<String>,
}

/// One comment of an issue.
#[derive(Debug)]
pub struct IssueComment {
    pub id: Option<String>,
    pub author_display_name: Option<String>,
    pub body: Json,
    pub created: Option<String>,
}

/// One attachment of an issue.
#[derive(Debug, Clone)]
pub struct IssueAttachment {
    pub id: String,
    pub filename: String,
}

/// An issue as the renderer and the sync engine read it.
#[derive(Debug)]
pub struct IssueData {
    pub key: String,
    pub project: String,
    pub issue_type: Option<String>,
    pub summary: Option<String>,
    pub status: Option<String>,
    pub priority: Option<String>,
    pub assignee: Option<String>,
    pub reporter: Option<String>,
    pub labels: Vec<String>,
    pub created: Option<String>,
    pub updated: Option<String>,
    pub parent: Option<String>,
    pub epic: Option<String>,
    pub blocks: Vec<String>,
    pub blocked_by: Vec<String>,
    pub relates_to: Vec<String>,
    pub due_at: Option<String>,
    pub source_url: String,
    pub attachments: Vec<IssueAttachment>,
    pub description: Json,
    pub comments: Vec<IssueComment>,
}

/// What can go wrong when talking to the tracker.
#[derive(Debug)]
pub enum JiraError {
    /// The request did not get through; the text describes the transport failure.
    Request(String),
    /// The tracker answered with a status outside 200 to 299.
    Http { status: u16, body: String },
    /// The answer could not be decoded; `body` is its beginning.
    Decode { source: String, body: String },
    /// The configured base URL is empty or no URL.
    InvalidBaseUrl(String),
}

/// The message of an error.
pub open spec fn error_text(e: JiraError) -> Seq<char> {
    match e {
        JiraError::Request(detail) => "jira request failed: "@ + detail@,
        JiraError::Http { status, body } => "jira returned HTTP "@ + crate::decimal::decimal(
            status as nat,
        ) + ": "@ + body@,
        JiraError::Decode { source, body } => "failed to decode jira response: "@ + source@
            + "; body: "@ + body@,
        JiraError::InvalidBaseUrl(raw) => "invalid jira.base_url '"@ + raw@ + "'"@,
    }
}

impl JiraError {
    /// The message of this error.
    pub fn describe(&self) -> (r: String)
        ensures
            r@ == error_text(*self),
    {
        let mut out: Vec<char> = Vec::new();
        match self {
            JiraError::Request(detail) => {
                crate::text::push_str(&mut out, "jira request failed: ");
                crate::text::push_str(&mut out, detail.as_str());
                assert(out@ =~= error_text(*self));
            },
            JiraError::Http { status, body } => {
                crate::text::push_str(&mut out, "jira returned HTTP ");
                crate::decimal::push_decimal(&mut out, *status as u64);
                crate::text::push_str(&mut out, ": ");
                crate::text::push_str(&mut out, body.as_str());
                assert(out@ =~= error_text(*self));
            },
            JiraError::Decode { source, body } => {
                crate::text::push_str(&mut out, "failed to decode jira response: ");
                crate::text::push_str(&mut out, source.as_str());
                crate::text::push_str(&mut out, "; body: ");
                crate::text::push_str(&mut out, body.as_str());
                assert(out@ =~= error_text(*self));
            },
            JiraError::InvalidBaseUrl(raw) => {
                crate::text::push_str(&mut out, "invalid jira.base_url '");
                crate::text::push_str(&mut out, raw.as_str());
                crate::text::push_str(&mut out, "'");
                assert(out@ =~= error_text(*self));
            },
        }
        crate::text::string_of(&out)
    }
}

/// The listing entries of a page of issues: key and source timestamp of each.
pub open spec fn refs_of(issues: Seq<IssueData>) -> Seq<(Seq<char>, Option<Seq<char>>)> {
    issues.map_values(|i: IssueData| (i.key@, opt_text(i.updated)))
}

/// The listing entries of a page of issues.
pub fn issue_refs(issues: &Vec<IssueData>) -> (refs: Vec<IssueRef>)
    ensures
        ref_views(refs@) == refs_of(issues@),
{
    let mut refs: Vec<IssueRef> = Vec::new();
    let mut i: usize = 0;
    while i < issues.len()
        invariant
            i <= issues.len(),
            refs.len() == i,
            forall|k: int| 0 <= k < i ==> (#[trigger] refs@[k])@ == refs_of(issues@)[k],
        decreases issues.len() - i,
    {
        refs.push(
            IssueRef { key: issues[i].key.clone(), updated: crate::text::copy_opt(&issues[i].updated) },
        );
        i += 1;
    }
    assert(ref_views(refs@) =~= refs_of(issues@));
    refs
}

} // verus!
