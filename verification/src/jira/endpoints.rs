//! The endpoints of the tracker: what each asks, and what becomes of the answer.
//!
//! Sending a request and decoding a body are given as functions: `send` makes one
//! attempt to get a request answered, `wait` lets seconds pass, `decode` reads a body.
//! Everything between them is decided here: the address and the parameters, the
//! retries, which status is an error, what a decode error keeps of the body, and how
//! an answer becomes issues.

use vstd::prelude::*;
use crate::jira::client::{
    JiraClient, LISTING_EXCERPT, RawIssue, SEARCH_EXCERPT, check_status, decode_failure, endpoint,
    excerpt, issue_from_raw, issues_from_page, stands_for,
};
use crate::jira::paging::{
    ISSUE_FIELDS, LISTING_FIELDS, LISTING_PAGE_SIZE, PageCursor, PageMeta, issue_query_params,
    param_views, project_search_params, search_params, search_query_params, take_issues,
};
use crate::jira::retry::{HttpRequest, HttpResponse, after_attempts, request_with_retry, success};
use crate::jira::{IssueData, IssueRef, JiraError, JiraIdentity};
use crate::metrics::Metrics;
use crate::text::{opt_text, owned};

verus! {

/// A page of a search as the tracker answers it: the items under `issues` or under
/// `values`, and what the answer says about paging.
#[derive(Debug)]
pub struct SearchPage<T> {
    pub issues: Vec<T>,
    pub values: Vec<T>,
    pub total: Option<usize>,
    pub is_last: Option<bool>,
    pub next_page_token: Option<String>,
}

/// Whether `r` is what becomes of the request `request` sent with `send`: the body of
/// an answer with a status of success; an answer with any other status as an `Http`
/// error with its status and body; a failure of the transport as a `Request` error
/// with its text.
pub open spec fn answered<S: Fn(&HttpRequest) -> Result<HttpResponse, String>>(
    send: S,
    request: HttpRequest,
    r: Result<String, JiraError>,
) -> bool {
    match r {
        Ok(body) => exists|response: HttpResponse| #[trigger]
            send.ensures((&request,), Ok(response)) && success(response.status) && body@
                == response.body@,
        Err(JiraError::Request(text)) => send.ensures((&request,), Err(text)),
        Err(JiraError::Http { status, body }) => exists|response: HttpResponse| #[trigger]
            send.ensures((&request,), Ok(response)) && !success(response.status) && status
                == response.status && body@ == response.body@,
        Err(_) => false,
    }
}

/// Whether `r` is what becomes of the body `body` read with `decode`: the decoded
/// value, or a `Decode` error with the decoder's message and the beginning of the
/// body.
pub open spec fn decoded<T, D: Fn(&String) -> Result<T, String>>(
    decode: D,
    body: String,
    limit: usize,
    ellipsis: Seq<char>,
    r: Result<T, JiraError>,
) -> bool {
    match r {
        Ok(value) => decode.ensures((&body,), Ok(value)),
        Err(JiraError::Decode { source, body: kept }) => exists|message: String| #[trigger]
            decode.ensures((&body,), Err(message)) && source@ == message@ && kept@
                == excerpt(body@, limit, ellipsis),
        Err(_) => false,
    }
}

/// Whether `r` is the outcome of asking `request` and decoding the answer: an error of
/// asking, or what decoding makes of the body.
pub open spec fn asked<T, S: Fn(&HttpRequest) -> Result<HttpResponse, String>, D: Fn(&String) -> Result<
    T,
    String,
>>(
    send: S,
    decode: D,
    request: HttpRequest,
    limit: usize,
    ellipsis: Seq<char>,
    r: Result<T, JiraError>,
) -> bool {
    ||| exists|e: JiraError|
        r == Err::<T, JiraError>(e) && #[trigger] answered(send, request, Err::<String, JiraError>(e))
    ||| exists|body: String|
        #[trigger] answered(send, request, Ok::<String, JiraError>(body)) && decoded(
            decode,
            body,
            limit,
            ellipsis,
            r,
        )
}

/// Asks for `request` and hands out the body of an answer with a status of success.
pub fn get_body<S, W>(
    metrics: &mut Metrics,
    max_retries: usize,
    request: &HttpRequest,
    send: &S,
    wait: &W,
) -> (r: Result<String, JiraError>) where
    S: Fn(&HttpRequest) -> Result<HttpResponse, String>,
    W: Fn(u64) -> (),

    requires
        send.requires((request,)),
        forall|secs: u64| #[trigger] wait.requires((secs,)),
    ensures
        answered(*send, *request, r),
        exists|attempts: nat|
            1 <= attempts <= max_retries + 1 && *final(metrics) == #[trigger] after_attempts(
                *old(metrics),
                attempts,
            ),
{
    match request_with_retry(metrics, max_retries, request, send, wait) {
        Ok(response) => {
            let ghost answer = response;
            let r = check_status(response);
            assert(send.ensures((request,), Ok(answer)));
            r
        },
        Err(e) => Err(e),
    }
}

/// Reads `body` with `decode`; a failure keeps the beginning of the body.
pub fn decode_body<T, D>(body: String, limit: usize, ellipsis: &str, decode: &D) -> (r: Result<
    T,
    JiraError,
>) where D: Fn(&String) -> Result<T, String>
    requires
        decode.requires((&body,)),
    ensures
        decoded(*decode, body, limit, ellipsis@, r),
{
    match decode(&body) {
        Ok(value) => Ok(value),
        Err(message) => {
            let ghost said = message;
            let e = decode_failure(message, body.as_str(), limit, ellipsis);
            assert(decode.ensures((&body,), Err(said)));
            Err(e)
        },
    }
}

/// Asks for `request` and decodes the answer.
pub fn ask<T, S, W, D>(
    metrics: &mut Metrics,
    max_retries: usize,
    request: &HttpRequest,
    limit: usize,
    ellipsis: &str,
    send: &S,
    wait: &W,
    decode: &D,
) -> (r: Result<T, JiraError>) where
    S: Fn(&HttpRequest) -> Result<HttpResponse, String>,
    W: Fn(u64) -> (),
    D: Fn(&String) -> Result<T, String>,

    requires
        send.requires((request,)),
        forall|secs: u64| #[trigger] wait.requires((secs,)),
        forall|body: &String| #[trigger] decode.requires((body,)),
    ensures
        asked(*send, *decode, *request, limit, ellipsis@, r),
        exists|attempts: nat|
            1 <= attempts <= max_retries + 1 && *final(metrics) == #[trigger] after_attempts(
                *old(metrics),
                attempts,
            ),
{
    match get_body(metrics, max_retries, request, send, wait) {
        Ok(body) => {
            let ghost text = body;
            let r = decode_body(body, limit, ellipsis, decode);
            assert(answered(*send, *request, Ok::<String, JiraError>(text)));
            r
        },
        Err(e) => {
            assert(answered(*send, *request, Err::<String, JiraError>(e)));
            Err(e)
        },
    }
}

/// Whether `request` asks the address `url` with the parameters `params`.
pub open spec fn is_request(request: HttpRequest, url: Seq<char>, params: Seq<(Seq<char>, Seq<char>)>) -> bool {
    request.url@ == url && param_views(request.query@) == params
}

/// The items of a page: those under `issues`, or those under `values` where that list
/// is empty.
pub open spec fn items_of<T>(page: SearchPage<T>) -> Vec<T> {
    if page.issues.len() > 0 {
        page.issues
    } else {
        page.values
    }
}

/// What a page says about paging.
pub open spec fn meta_of<T>(page: SearchPage<T>) -> PageMeta {
    PageMeta {
        total: page.total,
        is_last: page.is_last,
        next_page_token: page.next_page_token,
        page_count: items_of(page).len(),
    }
}

/// The items of a page and what it says about paging.
pub fn page_parts<T>(page: SearchPage<T>) -> (r: (Vec<T>, PageMeta))
    ensures
        r.0 == items_of(page),
        r.1 == meta_of(page),
{
    let items = take_issues(page.issues, page.values);
    let meta = PageMeta {
        total: page.total,
        is_last: page.is_last,
        next_page_token: page.next_page_token,
        page_count: items.len(),
    };
    (items, meta)
}

/// Whether `issues` are the issues that the answers `page` stand for, each named by its
/// own key.
pub open spec fn page_stands_for(issues: Vec<IssueData>, page: Vec<RawIssue>, base_url: Seq<char>) -> bool {
    &&& issues.len() == page.len()
    &&& forall|i: int|
        0 <= i < page.len() ==> stands_for(#[trigger] issues[i], page[i], base_url, page[i].key@)
}

impl JiraClient {
    /// One page of a listing: the entries and what the answer says about paging.
    ///
    /// Asks the search endpoint for the query `jql` with the field `updated`, a page
    /// size of 50 and the position `cursor`.
    pub fn list_issue_refs_page<S, W, D>(
        &self,
        metrics: &mut Metrics,
        jql: &str,
        cursor: &PageCursor,
        send: &S,
        wait: &W,
        decode: &D,
    ) -> (r: Result<(Vec<IssueRef>, PageMeta), JiraError>) where
        S: Fn(&HttpRequest) -> Result<HttpResponse, String>,
        W: Fn(u64) -> (),
        D: Fn(&String) -> Result<SearchPage<IssueRef>, String>,

        requires
            forall|request: &HttpRequest| #[trigger] send.requires((request,)),
            forall|secs: u64| #[trigger] wait.requires((secs,)),
            forall|body: &String| #[trigger] decode.requires((body,)),
        ensures
            exists|request: HttpRequest, page: Result<SearchPage<IssueRef>, JiraError>|
                {
                    &&& is_request(
                        request,
                        endpoint(self.base_url@, "/rest/api/3/search/jql"@),
                        search_params(
                            jql@,
                            LISTING_FIELDS@,
                            LISTING_PAGE_SIZE,
                            cursor.start_at,
                            opt_text(cursor.next_page_token),
                        ),
                    )
                    &&& #[trigger] asked(*send, *decode, request, LISTING_EXCERPT, "..."@, page)
                    &&& match page {
                        Ok(p) => r == Ok::<(Vec<IssueRef>, PageMeta), JiraError>(
                            (items_of(p), meta_of(p)),
                        ),
                        Err(e) => r == Err::<(Vec<IssueRef>, PageMeta), JiraError>(e),
                    }
                },
    {
        let request = HttpRequest {
            url: self.search_url(),
            query: search_query_params(jql, LISTING_FIELDS, LISTING_PAGE_SIZE, cursor),
        };
        let page = ask(
            metrics,
            self.max_retries,
            &request,
            LISTING_EXCERPT,
            "...",
            send,
            wait,
            decode,
        );
        let ghost answer = page;
        let r = match page {
            Ok(p) => Ok(page_parts(p)),
            Err(e) => Err(e),
        };
        assert(asked(*send, *decode, request, LISTING_EXCERPT, "..."@, answer));
        r
    }

    /// One page of a search with full issues: the issues and what the answer says about
    /// paging.
    ///
    /// Asks the search endpoint for the query `jql` with all issue fields, a page size
    /// of `max_results` and the position `cursor`.
    pub fn search_issues_page<S, W, D>(
        &self,
        metrics: &mut Metrics,
        jql: &str,
        max_results: usize,
        cursor: &PageCursor,
        send: &S,
        wait: &W,
        decode: &D,
    ) -> (r: Result<(Vec<IssueData>, PageMeta), JiraError>) where
        S: Fn(&HttpRequest) -> Result<HttpResponse, String>,
        W: Fn(u64) -> (),
        D: Fn(&String) -> Result<SearchPage<RawIssue>, String>,

        requires
            forall|request: &HttpRequest| #[trigger] send.requires((request,)),
            forall|secs: u64| #[trigger] wait.requires((secs,)),
            forall|body: &String| #[trigger] decode.requires((body,)),
        ensures
            exists|request: HttpRequest, page: Result<SearchPage<RawIssue>, JiraError>|
                {
                    &&& is_request(
                        request,
                        endpoint(self.base_url@, "/rest/api/3/search/jql"@),
                        search_params(
                            jql@,
                            ISSUE_FIELDS@,
                            max_results,
                            cursor.start_at,
                            opt_text(cursor.next_page_token),
                        ),
                    )
                    &&& #[trigger] asked(*send, *decode, request, SEARCH_EXCERPT, ""@, page)
                    &&& match page {
                        Ok(p) => r matches Ok((issues, meta)) && meta == meta_of(p)
                            && page_stands_for(issues, items_of(p), self.base_url@),
                        Err(e) => r == Err::<(Vec<IssueData>, PageMeta), JiraError>(e),
                    }
                },
    {
        let request = HttpRequest {
            url: self.search_url(),
            query: search_query_params(jql, ISSUE_FIELDS, max_results, cursor),
        };
        let page = ask(metrics, self.max_retries, &request, SEARCH_EXCERPT, "", send, wait, decode);
        let ghost answer = page;
        let r = match page {
            Ok(p) => {
                let (items, meta) = page_parts(p);
                Ok((issues_from_page(items, self), meta))
            },
            Err(e) => Err(e),
        };
        assert(asked(*send, *decode, request, SEARCH_EXCERPT, ""@, answer));
        r
    }

    /// One issue by key.
    ///
    /// Asks the issue endpoint for `issue_key` with all issue fields. Project and
    /// address of the issue are named by `issue_key`, whatever key the answer holds.
    pub fn get_issue<S, W, D>(
        &self,
        metrics: &mut Metrics,
        issue_key: &str,
        send: &S,
        wait: &W,
        decode: &D,
    ) -> (r: Result<IssueData, JiraError>) where
        S: Fn(&HttpRequest) -> Result<HttpResponse, String>,
        W: Fn(u64) -> (),
        D: Fn(&String) -> Result<RawIssue, String>,

        requires
            forall|request: &HttpRequest| #[trigger] send.requires((request,)),
            forall|secs: u64| #[trigger] wait.requires((secs,)),
            forall|body: &String| #[trigger] decode.requires((body,)),
        ensures
            exists|request: HttpRequest, answer: Result<RawIssue, JiraError>|
                {
                    &&& is_request(
                        request,
                        endpoint(self.base_url@, "/rest/api/3/issue/"@) + issue_key@,
                        seq![("fields"@, ISSUE_FIELDS@)],
                    )
                    &&& #[trigger] asked(*send, *decode, request, SEARCH_EXCERPT, ""@, answer)
                    &&& match answer {
                        Ok(raw) => r matches Ok(issue) && stands_for(
                            issue,
                            raw,
                            self.base_url@,
                            issue_key@,
                        ),
                        Err(e) => r == Err::<IssueData, JiraError>(e),
                    }
                },
    {
        let request = HttpRequest { url: self.issue_url(issue_key), query: issue_query_params() };
        let answer = ask(metrics, self.max_retries, &request, SEARCH_EXCERPT, "", send, wait, decode);
        let ghost got = answer;
        let r = match answer {
            Ok(raw) => Ok(issue_from_raw(raw, self, issue_key)),
            Err(e) => Err(e),
        };
        assert(asked(*send, *decode, request, SEARCH_EXCERPT, ""@, got));
        r
    }

    /// Who the credentials belong to. A decode error keeps the whole body.
    pub fn get_myself<S, W, D>(&self, metrics: &mut Metrics, send: &S, wait: &W, decode: &D) -> (r:
        Result<JiraIdentity, JiraError>) where
        S: Fn(&HttpRequest) -> Result<HttpResponse, String>,
        W: Fn(u64) -> (),
        D: Fn(&String) -> Result<JiraIdentity, String>,

        requires
            forall|request: &HttpRequest| #[trigger] send.requires((request,)),
            forall|secs: u64| #[trigger] wait.requires((secs,)),
            forall|body: &String| #[trigger] decode.requires((body,)),
        ensures
            exists|request: HttpRequest|
                {
                    &&& is_request(
                        request,
                        endpoint(self.base_url@, "/rest/api/3/myself"@),
                        Seq::empty(),
                    )
                    &&& #[trigger] asked(*send, *decode, request, usize::MAX, ""@, r)
                },
    {
        let request = HttpRequest { url: self.myself_url(), query: Vec::new() };
        assert(param_views(request.query@) =~= Seq::empty());
        let r = ask(metrics, self.max_retries, &request, usize::MAX, "", send, wait, decode);
        assert(asked(*send, *decode, request, usize::MAX, ""@, r));
        r
    }

    /// The keys of the projects that the credentials can see, at most 100. A decode
    /// error keeps the whole body.
    pub fn list_visible_projects<S, W, D>(
        &self,
        metrics: &mut Metrics,
        send: &S,
        wait: &W,
        decode: &D,
    ) -> (r: Result<Vec<String>, JiraError>) where
        S: Fn(&HttpRequest) -> Result<HttpResponse, String>,
        W: Fn(u64) -> (),
        D: Fn(&String) -> Result<Vec<String>, String>,

        requires
            forall|request: &HttpRequest| #[trigger] send.requires((request,)),
            forall|secs: u64| #[trigger] wait.requires((secs,)),
            forall|body: &String| #[trigger] decode.requires((body,)),
        ensures
            exists|request: HttpRequest|
                {
                    &&& is_request(
                        request,
                        endpoint(self.base_url@, "/rest/api/3/project/search"@),
                        seq![("maxResults"@, crate::decimal::decimal(100))],
                    )
                    &&& #[trigger] asked(*send, *decode, request, usize::MAX, ""@, r)
                },
    {
        let request = HttpRequest { url: self.projects_url(), query: project_search_params() };
        let r = ask(metrics, self.max_retries, &request, usize::MAX, "", send, wait, decode);
        assert(asked(*send, *decode, request, usize::MAX, ""@, r));
        r
    }
}

} // verus!
