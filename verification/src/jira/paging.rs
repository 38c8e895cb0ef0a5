//! Paging through search results: what each request asks for, and whether another
//! page follows an answer.

use vstd::prelude::*;
use crate::decimal::{decimal, decimal_chars};
use crate::text::{
    chars_of, has_substring, lower_ascii, lowered, opt_text, owned, push_str, str_contains,
    string_of,
};

verus! {

/// The fields asked for with every full issue.
pub const ISSUE_FIELDS: &'static str =
    "summary,status,issuetype,priority,assignee,reporter,labels,created,updated,description,comment,parent,attachment,duedate,issuelinks";

/// The field asked for with a listing.
pub const LISTING_FIELDS: &'static str = "updated";

/// The page size of listings.
pub const LISTING_PAGE_SIZE: usize = 50;

/// Where a search stands: the offset of the next page and, once the service has
/// handed one out, the token to follow.
#[derive(Debug)]
pub struct PageCursor {
    pub start_at: usize,
    pub next_page_token: Option<String>,
}

/// What an answer says about paging.
#[derive(Debug)]
pub struct PageMeta {
    /// The total of matching issues, where the service gives it.
    pub total: Option<usize>,
    /// Whether this is the last page, where the service says.
    pub is_last: Option<bool>,
    /// The token of the next page, where the service hands one out.
    pub next_page_token: Option<String>,
    /// The number of issues on this page.
    pub page_count: usize,
}

/// The cursor of the first page.
pub fn first_page() -> (c: PageCursor)
    ensures
        c.start_at == 0,
        c.next_page_token is None,
{
    PageCursor { start_at: 0, next_page_token: None }
}

/// A query parameter: name and value.
pub type Param = (Seq<char>, Seq<char>);

/// The parameters of one search request: the query, the fields, the page size, and
/// the token where the cursor has one, else the offset.
pub open spec fn search_params(
    jql: Seq<char>,
    fields: Seq<char>,
    max_results: usize,
    start_at: usize,
    token: Option<Seq<char>>,
) -> Seq<Param> {
    seq![
        ("jql"@, jql),
        ("fields"@, fields),
        ("maxResults"@, decimal(max_results as nat)),
        match token {
            Some(t) => ("nextPageToken"@, t),
            None => ("startAt"@, decimal(start_at as nat)),
        },
    ]
}

/// The parameters held by a vector of pairs of strings.
pub open spec fn param_views(params: Seq<(String, String)>) -> Seq<Param> {
    params.map_values(|p: (String, String)| (p.0@, p.1@))
}

/// The parameters of the search request for the page at `cursor`.
pub fn search_query_params(jql: &str, fields: &str, max_results: usize, cursor: &PageCursor) -> (params:
    Vec<(String, String)>)
    ensures
        param_views(params@) == search_params(
            jql@,
            fields@,
            max_results,
            cursor.start_at,
            opt_text(cursor.next_page_token),
        ),
{
    let mut params: Vec<(String, String)> = Vec::new();
    params.push((owned("jql"), owned(jql)));
    params.push((owned("fields"), owned(fields)));
    params.push((owned("maxResults"), string_of(&decimal_chars(max_results as u64))));
    match &cursor.next_page_token {
        Some(token) => {
            params.push((owned("nextPageToken"), token.clone()));
        },
        None => {
            params.push((owned("startAt"), string_of(&decimal_chars(cursor.start_at as u64))));
        },
    }
    assert(param_views(params@) =~= search_params(
        jql@,
        fields@,
        max_results,
        cursor.start_at,
        opt_text(cursor.next_page_token),
    ));
    params
}

/// Where the search continues after a page, or `None` where it ends.
///
/// A token in the answer is followed, unless it is empty or the answer says it is the
/// last page. Without a token the search ends after an empty page and after a page
/// that the answer calls the last. Otherwise the offset moves on by the size of the
/// page, and the search ends where the offset has reached the total. Where the answer
/// gives no total, only an answer that says more is to come is followed: one that
/// gives neither a total nor says whether it is the last page ends the search.
pub open spec fn following_page(
    start_at: usize,
    token: Option<Seq<char>>,
    total: Option<usize>,
    is_last: Option<bool>,
    next_token: Option<Seq<char>>,
    page_count: usize,
) -> Option<(int, Option<Seq<char>>)> {
    match next_token {
        Some(t) => if t.len() == 0 || is_last == Some(true) {
            None
        } else {
            Some((start_at as int, Some(t)))
        },
        None => {
            let next = start_at + page_count;
            if page_count == 0 || is_last == Some(true) {
                None
            } else {
                match total {
                    Some(n) => if next >= n {
                        None
                    } else {
                        Some((next, token))
                    },
                    None => if is_last == Some(false) {
                        Some((next, token))
                    } else {
                        None
                    },
                }
            }
        },
    }
}

/// Where the search continues after the page that `meta` describes.
pub fn next_page(cursor: PageCursor, meta: &PageMeta) -> (next: Option<PageCursor>)
    requires
        cursor.start_at + meta.page_count <= usize::MAX,
    ensures
        match next {
            Some(c) => following_page(
                cursor.start_at,
                opt_text(cursor.next_page_token),
                meta.total,
                meta.is_last,
                opt_text(meta.next_page_token),
                meta.page_count,
            ) == Some((c.start_at as int, opt_text(c.next_page_token))),
            None => following_page(
                cursor.start_at,
                opt_text(cursor.next_page_token),
                meta.total,
                meta.is_last,
                opt_text(meta.next_page_token),
                meta.page_count,
            ) is None,
        },
{
    match &meta.next_page_token {
        Some(token) => {
            let last = match meta.is_last {
                Some(true) => true,
                _ => false,
            };
            if chars_of(token.as_str()).len() == 0 || last {
                return None;
            }
            return Some(PageCursor { start_at: cursor.start_at, next_page_token: Some(token.clone()) });
        },
        None => {},
    }
    let last = match meta.is_last {
        Some(true) => true,
        _ => false,
    };
    if meta.page_count == 0 || last {
        return None;
    }
    let start_at = cursor.start_at + meta.page_count;
    match meta.total {
        Some(total) => {
            if start_at >= total {
                None
            } else {
                Some(PageCursor { start_at, next_page_token: cursor.next_page_token })
            }
        },
        None => {
            match meta.is_last {
                Some(false) => Some(
                    PageCursor { start_at, next_page_token: cursor.next_page_token },
                ),
                _ => None,
            }
        },
    }
}

/// Paging by offset makes progress: where an answer without a token is followed, the
/// next offset lies beyond the present one, and below the total where one is given.
/// So a search by offset with a fixed total asks for fewer pages than the total.
pub proof fn lemma_offset_paging_advances(
    start_at: usize,
    token: Option<Seq<char>>,
    total: Option<usize>,
    is_last: Option<bool>,
    page_count: usize,
)
    ensures
        match following_page(start_at, token, total, is_last, None, page_count) {
            Some((next, kept)) => {
                &&& next == start_at + page_count
                &&& next > start_at
                &&& kept == token
                &&& is_last != Some(true)
                &&& total matches Some(n) ==> next < n
            },
            None => true,
        },
{
}

/// An empty page, and a page that the answer calls the last, end a search that has
/// no token to follow, whatever total the answer gives.
pub proof fn lemma_empty_or_last_page_ends(
    start_at: usize,
    token: Option<Seq<char>>,
    total: Option<usize>,
    is_last: Option<bool>,
    page_count: usize,
)
    requires
        page_count == 0 || is_last == Some(true),
    ensures
        following_page(start_at, token, total, is_last, None, page_count) is None,
{
}

/// Checks that adding a page to the offset stays in range, then says where the search
/// continues; the search ends where it does not.
pub fn next_page_checked(cursor: PageCursor, meta: &PageMeta) -> (next: Option<PageCursor>)
    ensures
        cursor.start_at + meta.page_count > usize::MAX ==> next is None,
        cursor.start_at + meta.page_count <= usize::MAX ==> match next {
            Some(c) => following_page(
                cursor.start_at,
                opt_text(cursor.next_page_token),
                meta.total,
                meta.is_last,
                opt_text(meta.next_page_token),
                meta.page_count,
            ) == Some((c.start_at as int, opt_text(c.next_page_token))),
            None => following_page(
                cursor.start_at,
                opt_text(cursor.next_page_token),
                meta.total,
                meta.is_last,
                opt_text(meta.next_page_token),
                meta.page_count,
            ) is None,
        },
{
    if meta.page_count > usize::MAX - cursor.start_at {
        None
    } else {
        next_page(cursor, meta)
    }
}

/// The listing query of a project: its issues in key order.
pub open spec fn project_query(project: Seq<char>) -> Seq<char> {
    "project="@ + project + " ORDER BY key ASC"@
}

/// The listing query of a project.
pub fn project_listing_query(project: &str) -> (jql: String)
    ensures
        jql@ == project_query(project@),
{
    let mut out: Vec<char> = Vec::new();
    push_str(&mut out, "project=");
    push_str(&mut out, project);
    push_str(&mut out, " ORDER BY key ASC");
    assert(out@ =~= project_query(project@));
    string_of(&out)
}

/// The listing query for a saved query: the query itself where it orders its result,
/// else the query ordered by key.
pub open spec fn ordered_query(jql: Seq<char>) -> Seq<char> {
    if has_substring(lower_ascii(jql), "order by"@) {
        jql
    } else {
        jql + " ORDER BY key ASC"@
    }
}

/// The listing query for a saved query.
pub fn listing_query(jql: &str) -> (r: String)
    ensures
        r@ == ordered_query(jql@),
{
    let v = chars_of(jql);
    if str_contains(&lowered(&v), "order by") {
        owned(jql)
    } else {
        let mut out = v;
        push_str(&mut out, " ORDER BY key ASC");
        string_of(&out)
    }
}

/// The issues of a page: those under `issues`, or those under `values` where that
/// list is empty.
pub fn take_issues<T>(issues: Vec<T>, values: Vec<T>) -> (page: Vec<T>)
    ensures
        page == (if issues.len() > 0 {
            issues
        } else {
            values
        }),
{
    if issues.len() > 0 {
        issues
    } else {
        values
    }
}

/// The parameters of the request for a single issue: the fields asked for.
pub fn issue_query_params() -> (params: Vec<(String, String)>)
    ensures
        param_views(params@) == seq![("fields"@, ISSUE_FIELDS@)],
{
    let mut params: Vec<(String, String)> = Vec::new();
    params.push((owned("fields"), owned(ISSUE_FIELDS)));
    assert(param_views(params@) =~= seq![("fields"@, ISSUE_FIELDS@)]);
    params
}

/// The most projects that a project search asks for.
pub const PROJECT_PAGE_SIZE: usize = 100;

/// The parameters of the project search: the page size.
pub fn project_search_params() -> (params: Vec<(String, String)>)
    ensures
        param_views(params@) == seq![("maxResults"@, decimal(PROJECT_PAGE_SIZE as nat))],
{
    let mut params: Vec<(String, String)> = Vec::new();
    params.push((owned("maxResults"), string_of(&decimal_chars(PROJECT_PAGE_SIZE as u64))));
    assert(param_views(params@) =~= seq![("maxResults"@, decimal(PROJECT_PAGE_SIZE as nat))]);
    params
}

} // verus!
