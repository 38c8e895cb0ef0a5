//! The client's settings, the addresses it asks, and how answers become issues.

use vstd::prelude::*;
use crate::jira::base_url::{normalize_base_url, normalized_base_url};
use crate::jira::links::{IssueLink, blocked_by_of, blocks_of, categorize_links, relates_to_of};
use crate::jira::retry::{
    DEFAULT_MAX_IN_FLIGHT, HttpResponse, Limiter, MAX_RETRIES, is_success, success,
};
use crate::jira::{IssueAttachment, IssueComment, IssueData, JiraError};
use crate::json::Json;
use crate::lexical::strictly_sorted;
use crate::lines::{first_index_of, find_char, texts};
use crate::text::{chars_of, owned, push_str, string_of, subvec};

verus! {

/// The settings of the client: where the tracker is, who asks, how often a request
/// is retried and how many may be in flight.
#[derive(Debug)]
pub struct JiraClient {
    pub base_url: String,
    pub email: String,
    pub api_token: String,
    pub max_retries: usize,
    pub limiter: Limiter,
}

/// The address of an endpoint: the base URL followed by the endpoint's path.
pub open spec fn endpoint(base_url: Seq<char>, path: Seq<char>) -> Seq<char> {
    base_url + path
}

impl JiraClient {
    /// A client for the tracker at `base_url`, which is normalized. Fails exactly when
    /// the base URL has no normal form.
    pub fn new(base_url: String, email: String, api_token: String) -> (r: Result<Self, JiraError>)
        ensures
            match r {
                Ok(c) => {
                    &&& normalized_base_url(base_url@) == Some(c.base_url@)
                    &&& c.email@ == email@
                    &&& c.api_token@ == api_token@
                    &&& c.max_retries == MAX_RETRIES
                    &&& c.limiter.wf()
                    &&& c.limiter.max == DEFAULT_MAX_IN_FLIGHT
                    &&& c.limiter.in_flight == 0
                },
                Err(e) => normalized_base_url(base_url@) is None && (e matches JiraError::InvalidBaseUrl(
                    text,
                ) && text@ == base_url@),
            },
    {
        match normalize_base_url(base_url.as_str()) {
            Ok(normalized) => Ok(
                JiraClient {
                    base_url: normalized,
                    email,
                    api_token,
                    max_retries: MAX_RETRIES,
                    limiter: Limiter::new(DEFAULT_MAX_IN_FLIGHT),
                },
            ),
            Err(e) => Err(e),
        }
    }

    fn url(&self, path: &str, tail: &str) -> (r: String)
        ensures
            r@ == self.base_url@ + path@ + tail@,
    {
        let mut out = chars_of(self.base_url.as_str());
        push_str(&mut out, path);
        push_str(&mut out, tail);
        string_of(&out)
    }

    /// The address of the search endpoint.
    pub fn search_url(&self) -> (r: String)
        ensures
            r@ == endpoint(self.base_url@, "/rest/api/3/search/jql"@),
    {
        let r = self.url("/rest/api/3/search/jql", "");
        proof {
            reveal_strlit("");
            assert(r@ =~= endpoint(self.base_url@, "/rest/api/3/search/jql"@));
        }
        r
    }

    /// The address of the issue `issue_key`.
    pub fn issue_url(&self, issue_key: &str) -> (r: String)
        ensures
            r@ == endpoint(self.base_url@, "/rest/api/3/issue/"@) + issue_key@,
    {
        self.url("/rest/api/3/issue/", issue_key)
    }

    /// The address that tells who the credentials belong to.
    pub fn myself_url(&self) -> (r: String)
        ensures
            r@ == endpoint(self.base_url@, "/rest/api/3/myself"@),
    {
        let r = self.url("/rest/api/3/myself", "");
        proof {
            reveal_strlit("");
            assert(r@ =~= endpoint(self.base_url@, "/rest/api/3/myself"@));
        }
        r
    }

    /// The address of the project search.
    pub fn projects_url(&self) -> (r: String)
        ensures
            r@ == endpoint(self.base_url@, "/rest/api/3/project/search"@),
    {
        let r = self.url("/rest/api/3/project/search", "");
        proof {
            reveal_strlit("");
            assert(r@ =~= endpoint(self.base_url@, "/rest/api/3/project/search"@));
        }
        r
    }

    /// The address at which a person reads the issue `issue_key`.
    pub fn browse_url(&self, issue_key: &str) -> (r: String)
        ensures
            r@ == endpoint(self.base_url@, "/browse/"@) + issue_key@,
    {
        self.url("/browse/", issue_key)
    }
}

/// The body of an answer with a status of success; any other answer as an error with
/// its status and body.
pub fn check_status(response: HttpResponse) -> (r: Result<String, JiraError>)
    ensures
        match r {
            Ok(body) => success(response.status) && body@ == response.body@,
            Err(e) => !success(response.status) && (e matches JiraError::Http { status, body }
                && status == response.status && body@ == response.body@),
        },
{
    if is_success(response.status) {
        Ok(response.body)
    } else {
        Err(JiraError::Http { status: response.status, body: response.body })
    }
}

/// How much of the body a decode error of a listing keeps, in characters.
pub const LISTING_EXCERPT: usize = 1000;

/// How much of the body a decode error of a search keeps, in characters.
pub const SEARCH_EXCERPT: usize = 500;

/// The beginning of `body`: all of it where it has at most `limit` characters, else
/// its first `limit` characters followed by `ellipsis`.
pub open spec fn excerpt(body: Seq<char>, limit: usize, ellipsis: Seq<char>) -> Seq<char> {
    if body.len() > limit {
        body.take(limit as int) + ellipsis
    } else {
        body
    }
}

/// The error for an answer that could not be decoded: the decoder's message and the
/// beginning of the body.
pub fn decode_failure(source: String, body: &str, limit: usize, ellipsis: &str) -> (e: JiraError)
    ensures
        e matches JiraError::Decode { source: s, body: b } && s@ == source@ && b@ == excerpt(
            body@,
            limit,
            ellipsis@,
        ),
{
    let v = chars_of(body);
    let short = if v.len() > limit {
        let mut out = subvec(&v, 0, limit);
        push_str(&mut out, ellipsis);
        string_of(&out)
    } else {
        owned(body)
    };
    JiraError::Decode { source, body: short }
}

/// The project of an issue key: what stands before its first hyphen, or `UNKNOWN`
/// for a key without one.
pub open spec fn project_of(issue_key: Seq<char>) -> Seq<char> {
    let i = first_index_of(issue_key, '-');
    if i < issue_key.len() {
        issue_key.take(i as int)
    } else {
        "UNKNOWN"@
    }
}

/// The project of an issue key.
pub fn project_of_key(issue_key: &str) -> (r: String)
    ensures
        r@ == project_of(issue_key@),
{
    let v = chars_of(issue_key);
    assert(v@.skip(0) == v@);
    let i = find_char(&v, '-', 0);
    if i < v.len() {
        string_of(&subvec(&v, 0, i))
    } else {
        owned("UNKNOWN")
    }
}

/// An issue as the tracker answers it, with nested names already picked out.
#[derive(Debug)]
pub struct RawIssue {
    pub key: String,
    pub summary: Option<String>,
    pub status: Option<String>,
    pub issue_type: Option<String>,
    pub priority: Option<String>,
    pub assignee: Option<String>,
    pub reporter: Option<String>,
    pub labels: Vec<String>,
    pub created: Option<String>,
    pub updated: Option<String>,
    pub description: Option<Json>,
    pub comments: Vec<IssueComment>,
    pub parent: Option<String>,
    pub attachments: Vec<IssueAttachment>,
    pub due_date: Option<String>,
    pub issue_links: Vec<IssueLink>,
}

/// Whether `issue` is the issue that the answer `raw` stands for, named by `named_key`
/// under the base URL `base_url`.
pub open spec fn stands_for(
    issue: IssueData,
    raw: RawIssue,
    base_url: Seq<char>,
    named_key: Seq<char>,
) -> bool {
    &&& issue.key@ == raw.key@
    &&& issue.project@ == project_of(named_key)
    &&& issue.source_url@ == endpoint(base_url, "/browse/"@) + named_key
    &&& issue.issue_type == raw.issue_type
    &&& issue.summary == raw.summary
    &&& issue.status == raw.status
    &&& issue.priority == raw.priority
    &&& issue.assignee == raw.assignee
    &&& issue.reporter == raw.reporter
    &&& issue.labels == raw.labels
    &&& issue.created == raw.created
    &&& issue.updated == raw.updated
    &&& issue.parent == raw.parent
    &&& issue.epic is None
    &&& issue.due_at == raw.due_date
    &&& issue.attachments == raw.attachments
    &&& issue.comments == raw.comments
    &&& issue.description == (match raw.description {
        Some(d) => d,
        None => Json::Null,
    })
    &&& strictly_sorted(texts(issue.blocks@))
    &&& texts(issue.blocks@).to_set() == blocks_of(
        raw.issue_links@,
        raw.issue_links.len() as int,
    ).to_set()
    &&& strictly_sorted(texts(issue.blocked_by@))
    &&& texts(issue.blocked_by@).to_set() == blocked_by_of(
        raw.issue_links@,
        raw.issue_links.len() as int,
    ).to_set()
    &&& strictly_sorted(texts(issue.relates_to@))
    &&& texts(issue.relates_to@).to_set() == relates_to_of(
        raw.issue_links@,
        raw.issue_links.len() as int,
    ).to_set()
}

/// The issue that an answer stands for. `named_key` is the key by which project and
/// address are named: the answer's own key for a search, the key asked for where a
/// single issue was asked for.
///
/// The fields are taken over as they are; the project is read off the key; the links
/// are sorted into three lists; a missing description is `null`; the epic is unknown.
pub fn issue_from_raw(raw: RawIssue, client: &JiraClient, named_key: &str) -> (issue: IssueData)
    ensures
        stands_for(issue, raw, client.base_url@, named_key@),
{
    let project = project_of_key(named_key);
    let (blocks, blocked_by, relates_to) = categorize_links(&raw.issue_links);
    let source_url = client.browse_url(named_key);
    IssueData {
        key: raw.key,
        project,
        issue_type: raw.issue_type,
        summary: raw.summary,
        status: raw.status,
        priority: raw.priority,
        assignee: raw.assignee,
        reporter: raw.reporter,
        labels: raw.labels,
        created: raw.created,
        updated: raw.updated,
        parent: raw.parent,
        epic: None,
        blocks,
        blocked_by,
        relates_to,
        due_at: raw.due_date,
        source_url,
        attachments: raw.attachments,
        description: match raw.description {
            Some(d) => d,
            None => Json::Null,
        },
        comments: raw.comments,
    }
}

/// The issues that the answers of a search page stand for, in order, each named by
/// its own key.
pub fn issues_from_page(page: Vec<RawIssue>, client: &JiraClient) -> (issues: Vec<IssueData>)
    ensures
        issues.len() == page.len(),
        forall|i: int|
            0 <= i < page.len() ==> stands_for(
                #[trigger] issues[i],
                page[i],
                client.base_url@,
                page[i].key@,
            ),
{
    let mut page = page;
    let ghost whole = page@;
    let mut reversed: Vec<IssueData> = Vec::new();
    while page.len() > 0
        invariant
            page.len() + reversed.len() == whole.len(),
            page@ == whole.take(page.len() as int),
            forall|k: int|
                0 <= k < reversed.len() ==> stands_for(
                    #[trigger] reversed[k],
                    whole[whole.len() - 1 - k],
                    client.base_url@,
                    whole[whole.len() - 1 - k].key@,
                ),
        decreases page.len(),
    {
        let raw = page.pop().unwrap();
        let key = raw.key.clone();
        reversed.push(issue_from_raw(raw, client, key.as_str()));
    }
    let mut issues: Vec<IssueData> = Vec::new();
    while reversed.len() > 0
        invariant
            issues.len() + reversed.len() == whole.len(),
            forall|k: int|
                0 <= k < reversed.len() ==> stands_for(
                    #[trigger] reversed[k],
                    whole[whole.len() - 1 - k],
                    client.base_url@,
                    whole[whole.len() - 1 - k].key@,
                ),
            forall|i: int|
                0 <= i < issues.len() ==> stands_for(
                    #[trigger] issues[i],
                    whole[i],
                    client.base_url@,
                    whole[i].key@,
                ),
        decreases reversed.len(),
    {
        let issue = reversed.pop().unwrap();
        issues.push(issue);
    }
    issues
}

} // verus!
