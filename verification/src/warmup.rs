//! The sync engine: one pass over the workspaces pulls a page of changed issues per
//! workspace, keeps the listings, renders the issues and moves the cursors.
//!
//! A pass is made of steps. `plan_workspace_sync` says what to ask the remote service
//! for one workspace, `apply_workspace_page` takes the answer and does the rest.
//! `sync_issues` runs the steps over all workspaces, given a function that asks.

use vstd::prelude::*;
use vstd::string::StrSliceExecFns;
use vstd::utf8::encode_utf8;
use crate::cache::{
    CacheModel, InMemoryCache, IssueCacheRow, IssueEntry, ListingEntry, after_rows, fresh_entry,
    listed, listing_of, snapshot_metrics,
};
use crate::jira::{IssueData, IssueRef, JiraError, error_text, issue_refs, ref_views, refs_of};
use crate::lexical::{same_order_per_key, sort_refs_by_key, sorted_by_key};
use crate::metrics::Metrics;
use crate::render::document::{
    comments_markdown, issue_markdown, render_issue_comments_markdown, render_issue_markdown,
};
use crate::text::{copy_opt, opt_text, push_str, str_eq, string_of};

verus! {

/// A listing entry as plain values: key and source timestamp.
pub type RefView = (Seq<char>, Option<Seq<char>>);

/// What a pass did.
#[derive(Debug)]
pub struct SyncResult {
    /// How many issues were rendered and stored.
    pub issues_cached: usize,
    /// How many workspaces had nothing new.
    pub issues_skipped: usize,
    /// One message per workspace whose page could not be fetched.
    pub errors: Vec<String>,
}

/// What to ask the remote service for one workspace.
#[derive(Debug)]
pub struct SyncQuery {
    /// The cursor the query starts from; `None` asks for everything.
    pub cursor: Option<String>,
    /// The query text.
    pub jql: String,
    /// The largest number of issues the page may hold.
    pub page_size: usize,
}

/// The most issues a page may hold.
pub const MAX_PAGE_SIZE: usize = 100;

/// The query for a workspace: the base query in brackets; with a cursor, restricted
/// to what changed after it and ordered so that the newest change comes first.
pub open spec fn effective_query(base: Seq<char>, cursor: Option<Seq<char>>) -> Seq<char> {
    match cursor {
        Some(since) => "("@ + base + ") AND updated > \""@ + since + "\" ORDER BY updated DESC"@,
        None => "("@ + base + ")"@,
    }
}

/// The page size for a budget: the budget, but at most 100.
pub open spec fn page_size_for(budget: usize) -> usize {
    if budget < MAX_PAGE_SIZE {
        budget
    } else {
        MAX_PAGE_SIZE
    }
}

/// The query text for a base query and a cursor.
pub fn compose_query(base_jql: &str, cursor: &Option<String>) -> (jql: String)
    ensures
        jql@ == effective_query(base_jql@, opt_text(*cursor)),
{
    let mut out: Vec<char> = Vec::new();
    push_str(&mut out, "(");
    push_str(&mut out, base_jql);
    match cursor {
        Some(since) => {
            push_str(&mut out, ") AND updated > \"");
            push_str(&mut out, since.as_str());
            push_str(&mut out, "\" ORDER BY updated DESC");
            assert(out@ =~= effective_query(base_jql@, opt_text(*cursor)));
        },
        None => {
            push_str(&mut out, ")");
            assert(out@ =~= effective_query(base_jql@, opt_text(*cursor)));
        },
    }
    string_of(&out)
}

/// The cursor a pass starts from: the stored one, and none on a full pass.
pub open spec fn starting_cursor(stored: Option<Seq<char>>, force_full: bool) -> Option<Seq<char>> {
    if force_full {
        None
    } else {
        stored
    }
}

/// What to ask for a workspace whose stored cursor is `stored`: the cursor is the
/// stored one, or none on a full pass; the query follows from it, and the page holds
/// at most `min(budget, 100)` issues.
pub fn plan_from_cursor(stored: Option<String>, base_jql: &str, budget: usize, force_full: bool) -> (q:
    SyncQuery)
    ensures
        opt_text(q.cursor) == starting_cursor(opt_text(stored), force_full),
        q.jql@ == effective_query(base_jql@, starting_cursor(opt_text(stored), force_full)),
        q.page_size == page_size_for(budget),
{
    let cursor = if force_full {
        None
    } else {
        stored
    };
    let jql = compose_query(base_jql, &cursor);
    let page_size = if budget < MAX_PAGE_SIZE {
        budget
    } else {
        MAX_PAGE_SIZE
    };
    SyncQuery { cursor, jql, page_size }
}

/// What to ask for `workspace`: the plan that follows from the cursor that the
/// durable store holds for it. A full pass does not read the cursor, and a cache
/// without a store has none.
pub fn plan_workspace_sync(
    cache: &InMemoryCache,
    workspace: &str,
    base_jql: &str,
    budget: usize,
    force_full: bool,
) -> (q: SyncQuery)
    ensures
        q.jql@ == effective_query(base_jql@, opt_text(q.cursor)),
        q.page_size == page_size_for(budget),
        force_full || !cache@.has_store ==> q.cursor is None,
{
    let stored = if force_full {
        None
    } else {
        cache.get_sync_cursor(workspace)
    };
    plan_from_cursor(stored, base_jql, budget, force_full)
}

/// The index of the first entry of `refs` with the key `key`, or the length of `refs`
/// where there is none.
pub open spec fn first_key_index(refs: Seq<RefView>, key: Seq<char>) -> nat
    decreases refs.len(),
{
    if refs.len() == 0 || refs[0].0 == key {
        0
    } else {
        1 + first_key_index(refs.drop_first(), key)
    }
}

/// `refs` with the entry `r` taken in: the first entry with its key is replaced, or
/// the entry is added at the end where there is none.
pub open spec fn upsert_ref(refs: Seq<RefView>, r: RefView) -> Seq<RefView> {
    let i = first_key_index(refs, r.0);
    if i < refs.len() {
        refs.update(i as int, r)
    } else {
        refs.push(r)
    }
}

/// `existing` with the entries `page[..n]` taken in, one after the other.
pub open spec fn merge_refs(existing: Seq<RefView>, page: Seq<RefView>, n: int) -> Seq<RefView>
    decreases n,
{
    if n <= 0 {
        existing
    } else {
        upsert_ref(merge_refs(existing, page, n - 1), page[n - 1])
    }
}

/// The first index found is in range only at an entry with the key, and out of range
/// only where no entry has the key.
pub proof fn lemma_first_key_index(refs: Seq<RefView>, key: Seq<char>)
    ensures
        first_key_index(refs, key) <= refs.len(),
        first_key_index(refs, key) < refs.len() ==> refs[first_key_index(refs, key) as int].0
            == key,
        first_key_index(refs, key) == refs.len() ==> !listed(refs, key),
    decreases refs.len(),
{
    if refs.len() == 0 || refs[0].0 == key {
    } else {
        lemma_first_key_index(refs.drop_first(), key);
        if first_key_index(refs, key) == refs.len() {
            assert forall|i: int| 0 <= i < refs.len() implies (#[trigger] refs[i]).0 != key by {
                if i > 0 {
                    assert(refs.drop_first()[i - 1] == refs[i]);
                }
            }
        }
    }
}

/// Taking an entry in keeps every key and adds the entry's key.
pub proof fn lemma_upsert_keeps_keys(refs: Seq<RefView>, r: RefView, key: Seq<char>)
    requires
        listed(refs, key) || key == r.0,
    ensures
        listed(upsert_ref(refs, r), key),
{
    lemma_first_key_index(refs, r.0);
    let i = first_key_index(refs, r.0) as int;
    let after = upsert_ref(refs, r);
    if key == r.0 {
        if i < refs.len() {
            assert(after[i].0 == key);
        } else {
            assert(after[refs.len() as int].0 == key);
        }
    } else {
        let k = choose|k: int| 0 <= k < refs.len() && (#[trigger] refs[k]).0 == key;
        assert(after[k].0 == key);
    }
}

/// Merging a page into a listing keeps every key of the listing and adds every key
/// of the page.
pub proof fn lemma_merge_keeps_keys(
    existing: Seq<RefView>,
    page: Seq<RefView>,
    n: int,
    key: Seq<char>,
)
    requires
        0 <= n <= page.len(),
        listed(existing, key) || listed(page.take(n), key),
    ensures
        listed(merge_refs(existing, page, n), key),
    decreases n,
{
    if n > 0 {
        if page[n - 1].0 == key {
            lemma_upsert_keeps_keys(merge_refs(existing, page, n - 1), page[n - 1], key);
        } else {
            if !listed(existing, key) {
                let k = choose|k: int| 0 <= k < page.take(n).len() && (#[trigger] page.take(n)[k]).0 == key;
                assert(page.take(n - 1)[k].0 == key);
            }
            lemma_merge_keeps_keys(existing, page, n - 1, key);
            lemma_upsert_keeps_keys(merge_refs(existing, page, n - 1), page[n - 1], key);
        }
    } else {
        if !listed(existing, key) {
            let k = choose|k: int| 0 <= k < page.take(n).len() && (#[trigger] page.take(n)[k]).0 == key;
        }
    }
}

/// Two listings with the same entries, in whatever order, list the same keys.
pub proof fn lemma_same_entries_same_keys(a: Seq<RefView>, b: Seq<RefView>, key: Seq<char>)
    requires
        a.to_multiset() == b.to_multiset(),
        listed(a, key),
    ensures
        listed(b, key),
{
    broadcast use vstd::seq_lib::group_to_multiset_ensures;

    let k = choose|k: int| 0 <= k < a.len() && (#[trigger] a[k]).0 == key;
    assert(a.contains(a[k]));
    assert(a.to_multiset().count(a[k]) > 0);
    assert(b.to_multiset().count(a[k]) > 0);
    assert(b.contains(a[k]));
    let j = choose|j: int| 0 <= j < b.len() && b[j] == a[k];
    assert(b[j].0 == key);
}

/// Takes the entries of `page` into `existing`, one after the other.
pub fn merge_page(existing: Vec<IssueRef>, page: &Vec<IssueRef>) -> (merged: Vec<IssueRef>)
    ensures
        ref_views(merged@) == merge_refs(ref_views(existing@), ref_views(page@), page.len() as int),
{
    let mut merged = existing;
    let mut n: usize = 0;
    while n < page.len()
        invariant
            n <= page.len(),
            ref_views(merged@) == merge_refs(ref_views(existing@), ref_views(page@), n as int),
        decreases page.len() - n,
    {
        let new_ref = &page[n];
        let ghost before = ref_views(merged@);
        let mut i: usize = 0;
        assert(before.skip(0) == before);
        while i < merged.len() && !str_eq(merged[i].key.as_str(), new_ref.key.as_str())
            invariant
                i <= merged.len(),
                before == ref_views(merged@),
                first_key_index(before, new_ref.key@) == i + first_key_index(
                    before.skip(i as int),
                    new_ref.key@,
                ),
            decreases merged.len() - i,
        {
            assert(before.skip(i as int).drop_first() == before.skip(i + 1));
            assert(before.skip(i as int)[0] == before[i as int]);
            i += 1;
        }
        if i < merged.len() {
            assert(before.skip(i as int)[0] == before[i as int]);
            merged.set(i, new_ref.copy());
            assert(ref_views(merged@) =~= before.update(i as int, new_ref@));
        } else {
            merged.push(new_ref.copy());
            assert(ref_views(merged@) =~= before.push(new_ref@));
        }
        assert(ref_views(page@)[n as int] == new_ref@);
        n += 1;
    }
    merged
}

/// The issues map after the issues `issues[..n]` were rendered and stored at `now`,
/// later issues over earlier ones.
pub open spec fn issues_after_sync(
    m: Map<Seq<char>, IssueEntry>,
    issues: Seq<IssueData>,
    n: int,
    now: u64,
    ttl: u64,
) -> Map<Seq<char>, IssueEntry>
    decreases n,
{
    if n <= 0 {
        m
    } else {
        issues_after_sync(m, issues, n - 1, now, ttl).insert(
            issues[n - 1].key@,
            fresh_entry(
                encode_utf8(issue_markdown(issues[n - 1])),
                opt_text(issues[n - 1].updated),
                now,
                ttl,
            ),
        )
    }
}

/// The rows of a batch stand for the rendered main views of `issues[..n]`.
pub open spec fn rows_render(rows: Seq<IssueCacheRow>, issues: Seq<IssueData>, n: int) -> bool {
    &&& rows.len() == n
    &&& 0 <= n <= issues.len()
    &&& forall|i: int|
        0 <= i < n ==> {
            &&& (#[trigger] rows[i]).0@ == issues[i].key@
            &&& rows[i].1@ == encode_utf8(issue_markdown(issues[i]))
            &&& opt_text(rows[i].2) == opt_text(issues[i].updated)
        }
}

/// Storing rows that stand for rendered issues is storing the rendered issues.
pub proof fn lemma_rows_are_issues(
    m: Map<Seq<char>, IssueEntry>,
    rows: Seq<IssueCacheRow>,
    issues: Seq<IssueData>,
    n: int,
    k: int,
    now: u64,
    ttl: u64,
)
    requires
        rows_render(rows, issues, n),
        0 <= k <= n,
    ensures
        after_rows(m, rows, k, now, ttl) == issues_after_sync(m, issues, k, now, ttl),
    decreases k,
{
    if k > 0 {
        lemma_rows_are_issues(m, rows, issues, n, k - 1, now, ttl);
        assert(rows[k - 1].0@ == issues[k - 1].key@);
    }
}

/// The batch of main views for the first `count` issues of a page: for each its key,
/// its rendered main view as bytes and its source timestamp, in the page's order.
pub fn main_rows(issues: &Vec<IssueData>, count: usize) -> (rows: Vec<IssueCacheRow>)
    requires
        count <= issues.len(),
    ensures
        rows_render(rows@, issues@, count as int),
{
    let mut rows: Vec<IssueCacheRow> = Vec::new();
    let mut i: usize = 0;
    while i < count
        invariant
            i <= count <= issues.len(),
            rows_render(rows@, issues@, i as int),
        decreases count - i,
    {
        let issue = &issues[i];
        let markdown = render_issue_markdown(issue);
        rows.push((issue.key.clone(), markdown.as_str().as_bytes_vec(), copy_opt(&issue.updated)));
        i += 1;
    }
    rows
}

/// The batch of sidecars for the first `count` issues of a page: for each its key,
/// its rendered comments view as bytes and its source timestamp, in the page's order.
/// These are the rows that a pass hands to the durable store beside the main views.
pub fn sidecar_rows(issues: &Vec<IssueData>, count: usize) -> (rows: Vec<IssueCacheRow>)
    requires
        count <= issues.len(),
    ensures
        rows.len() == count,
        forall|i: int|
            0 <= i < count ==> {
                &&& (#[trigger] rows[i]).0@ == issues[i].key@
                &&& rows[i].1@ == encode_utf8(comments_markdown(issues[i]))
                &&& opt_text(rows[i].2) == opt_text(issues[i].updated)
            },
{
    let mut rows: Vec<IssueCacheRow> = Vec::new();
    let mut i: usize = 0;
    while i < count
        invariant
            i <= count <= issues.len(),
            rows.len() == i,
            forall|k: int|
                0 <= k < i ==> {
                    &&& (#[trigger] rows[k]).0@ == issues[k].key@
                    &&& rows[k].1@ == encode_utf8(comments_markdown(issues[k]))
                    &&& opt_text(rows[k].2) == opt_text(issues[k].updated)
                },
        decreases count - i,
    {
        let issue = &issues[i];
        let markdown = render_issue_comments_markdown(issue);
        rows.push((issue.key.clone(), markdown.as_str().as_bytes_vec(), copy_opt(&issue.updated)));
        i += 1;
    }
    rows
}

/// How many issues of a page of `len` issues are rendered and stored when `already`
/// issues were stored in this pass: as many as the budget still allows.
pub open spec fn cached_count(len: usize, budget: usize, already: usize) -> usize {
    let remaining: usize = if budget > already {
        (budget - already) as usize
    } else {
        0
    };
    if len < remaining {
        len
    } else {
        remaining
    }
}

/// The message recorded for a workspace whose page could not be fetched.
pub open spec fn failure_text(workspace: Seq<char>, err: JiraError) -> Seq<char> {
    "sync failed for workspace "@ + workspace + ": "@ + error_text(err)
}

/// The cursor that a page moves the workspace to: the source timestamp of its first
/// issue, if the page has one and it has a timestamp.
pub open spec fn page_cursor(issues: Seq<IssueData>) -> Option<Seq<char>> {
    if issues.len() == 0 {
        None
    } else {
        opt_text(issues[0].updated)
    }
}

/// Whether `new` is the listing that a page leaves for a workspace. A full pass
/// replaces the listing by the page's entries. An incremental pass merges them into
/// the old listing and sorts by key, entries with the same key keeping their order.
pub open spec fn listing_after_page(
    old_listing: Seq<RefView>,
    page: Seq<RefView>,
    incremental: bool,
    new: Seq<RefView>,
) -> bool {
    if incremental {
        let merged = merge_refs(old_listing, page, page.len() as int);
        &&& sorted_by_key(new)
        &&& new.to_multiset() == merged.to_multiset()
        &&& same_order_per_key(new, merged)
    } else {
        new == page
    }
}

/// What `apply_workspace_page` reports.
#[derive(Debug)]
pub struct PageOutcome {
    /// Whether the budget is used up, so that the pass ends here.
    pub done: bool,
    /// The cursor that was handed to the store for the workspace, if one was.
    pub cursor: Option<String>,
}

/// The texts of a sequence of strings.
pub open spec fn messages(errors: Seq<String>) -> Seq<Seq<char>> {
    errors.map_values(|e: String| e@)
}

/// What `apply_workspace_page` does, as a relation between the cache `c0`, the
/// counters `m0` and the result `r0` before, and `c1`, `m1`, `r1` and the outcome
/// after.
pub open spec fn page_applied(
    c0: CacheModel,
    m0: Metrics,
    r0: SyncResult,
    workspace: Seq<char>,
    cursor: Option<String>,
    fetched: Result<Vec<IssueData>, JiraError>,
    budget: usize,
    now: u64,
    c1: CacheModel,
    m1: Metrics,
    r1: SyncResult,
    outcome: PageOutcome,
) -> bool {
    match fetched {
        Err(err) => {
            &&& !outcome.done && outcome.cursor is None
            &&& c1 == c0
            &&& m1 == m0
            &&& r1.issues_cached == r0.issues_cached
            &&& r1.issues_skipped == r0.issues_skipped
            &&& messages(r1.errors@) == messages(r0.errors@).push(
                failure_text(workspace, err),
            )
        },
        Ok(issues) => {
            let page = refs_of(issues@);
            let count = cached_count(issues.len(), budget, r0.issues_cached);
            &&& messages(r1.errors@) == messages(r0.errors@)
            &&& c1.listings.contains_key(workspace)
            &&& c1.listings[workspace].cached_at == now
            &&& c1.listings[workspace].ttl == c0.workspace_ttl
            &&& listing_after_page(
                listing_of(c0, workspace),
                page,
                cursor is Some,
                c1.listings[workspace].issues,
            )
            &&& c1 == (CacheModel {
                listings: c0.listings.insert(workspace, c1.listings[workspace]),
                issues: issues_after_sync(
                    c0.issues,
                    issues@,
                    if issues.len() == 0 {
                        0
                    } else {
                        count as int
                    },
                    now,
                    c0.issue_ttl,
                ),
                ..c0
            })
            &&& m1 == (if cursor is Some {
                snapshot_metrics(c0, workspace, now, m0)
            } else {
                m0
            })
            &&& if issues.len() == 0 {
                &&& r1.issues_skipped == r0.issues_skipped + 1
                &&& r1.issues_cached == r0.issues_cached
                &&& !outcome.done
                &&& outcome.cursor is None
            } else {
                &&& r1.issues_skipped == r0.issues_skipped
                &&& r1.issues_cached == r0.issues_cached + count
                &&& outcome.done == (r0.issues_cached + count >= budget)
                &&& opt_text(outcome.cursor) == page_cursor(issues@)
            }
            &&& cursor is Some ==> forall|key: Seq<char>|
                listed(listing_of(c0, workspace), key) || listed(page, key) ==> #[trigger] listed(
                    c1.listings[workspace].issues,
                    key,
                )
        },
    }
}

/// Takes the answer `fetched` of the remote service for `workspace`, asked with the
/// cursor `cursor`.
///
/// A failure is recorded as one message and changes nothing else. A page replaces the
/// workspace's listing (no cursor) or is merged into it and sorted by key (cursor).
/// An empty page then counts the workspace as skipped. Of any other page, as many
/// issues as the budget still allows are rendered and stored, main view and comments
/// sidecar; the cursor moves to the source timestamp of the first issue; and the pass
/// is done once the budget is used up.
pub fn apply_workspace_page(
    cache: &mut InMemoryCache,
    result: &mut SyncResult,
    metrics: &mut Metrics,
    workspace: &str,
    cursor: &Option<String>,
    fetched: Result<Vec<IssueData>, JiraError>,
    budget: usize,
    now_ms: u64,
) -> (outcome: PageOutcome)
    requires
        old(result).issues_skipped < usize::MAX,
    ensures
        page_applied(
            old(cache)@,
            *old(metrics),
            *old(result),
            workspace@,
            *cursor,
            fetched,
            budget,
            now_ms,
            final(cache)@,
            *final(metrics),
            *final(result),
            outcome,
        ),
{
    let issues = match fetched {
        Ok(issues) => issues,
        Err(err) => {
            let mut msg: Vec<char> = Vec::new();
            push_str(&mut msg, "sync failed for workspace ");
            push_str(&mut msg, workspace);
            push_str(&mut msg, ": ");
            push_str(&mut msg, err.describe().as_str());
            assert(msg@ =~= failure_text(workspace@, err));
            let ghost before = messages(result.errors@);
            result.errors.push(string_of(&msg));
            assert(messages(result.errors@) =~= before.push(failure_text(workspace@, err)));
            return PageOutcome { done: false, cursor: None };
        },
    };
    let latest_refs = issue_refs(&issues);
    let ghost c0 = cache@;
    let ghost page = refs_of(issues@);
    if cursor.is_none() {
        cache.upsert_workspace_issues(workspace, latest_refs, now_ms);
    } else {
        let existing = match cache.get_workspace_issues_snapshot(workspace, now_ms, metrics) {
            Some(snapshot) => snapshot.issues,
            None => {
                let v: Vec<IssueRef> = Vec::new();
                assert(ref_views(v@) =~= Seq::<RefView>::empty());
                v
            },
        };
        assert(ref_views(existing@) == listing_of(c0, workspace@));
        let merged = merge_page(existing, &latest_refs);
        let sorted = sort_refs_by_key(&merged);
        proof {
            let old_listing = listing_of(c0, workspace@);
            assert forall|key: Seq<char>|
                listed(old_listing, key) || listed(page, key) implies #[trigger] listed(
                ref_views(sorted@),
                key,
            ) by {
                assert(page.take(page.len() as int) == page);
                lemma_merge_keeps_keys(old_listing, page, page.len() as int, key);
                lemma_same_entries_same_keys(ref_views(merged@), ref_views(sorted@), key);
            }
        }
        cache.upsert_workspace_issues(workspace, sorted, now_ms);
    }
    let ghost c1 = cache@;
    assert(c1.listings[workspace@].cached_at == now_ms);
    if issues.len() == 0 {
        result.issues_skipped = result.issues_skipped + 1;
        assert(c1.listings =~= c0.listings.insert(workspace@, c1.listings[workspace@]));
        return PageOutcome { done: false, cursor: None };
    }
    let remaining: usize = if budget > result.issues_cached {
        budget - result.issues_cached
    } else {
        0
    };
    let count: usize = if issues.len() < remaining {
        issues.len()
    } else {
        remaining
    };
    let to_cache = main_rows(&issues, count);
    let sidecars = sidecar_rows(&issues, count);
    let cached = cache.upsert_issues_batch(&to_cache, now_ms);
    let _ = cache.upsert_issue_sidecars_batch(&sidecars);
    proof {
        lemma_rows_are_issues(
            c1.issues,
            to_cache@,
            issues@,
            count as int,
            count as int,
            now_ms,
            c1.issue_ttl,
        );
        assert(cache@.listings =~= c0.listings.insert(workspace@, cache@.listings[workspace@]));
    }
    result.issues_cached = result.issues_cached + cached;
    let new_cursor = copy_opt(&issues[0].updated);
    match &new_cursor {
        Some(latest) => {
            cache.set_sync_cursor(workspace, latest.as_str());
        },
        None => {},
    }
    PageOutcome { done: result.issues_cached >= budget, cursor: new_cursor }
}

/// The message of a pass over a cache without a durable store.
pub const NO_STORE_MESSAGE: &'static str = "cache.db_path must be configured for sync";

/// Whether a pass ends before it asks for anything, and with what: with nothing done
/// for a budget of zero, and with one message for a cache without a durable store.
pub fn pass_precheck(cache: &InMemoryCache, budget: usize) -> (r: Option<SyncResult>)
    ensures
        r is Some == (budget == 0 || !cache@.has_store),
        r matches Some(result) ==> {
            &&& result.issues_cached == 0
            &&& result.issues_skipped == 0
            &&& messages(result.errors@) == (if budget == 0 {
                Seq::<Seq<char>>::empty()
            } else {
                seq![NO_STORE_MESSAGE@]
            })
        },
{
    let mut result = SyncResult { issues_cached: 0, issues_skipped: 0, errors: Vec::new() };
    if budget == 0 {
        assert(messages(result.errors@) =~= Seq::<Seq<char>>::empty());
        return Some(result);
    }
    if !cache.has_persistence() {
        result.errors.push(crate::text::owned(NO_STORE_MESSAGE));
        assert(messages(result.errors@) =~= seq![NO_STORE_MESSAGE@]);
        return Some(result);
    }
    None
}

/// An empty result.
pub open spec fn nothing_done(r: SyncResult) -> bool {
    r.issues_cached == 0 && r.issues_skipped == 0 && r.errors@.len() == 0
}

/// Whether `q` is what `plan_workspace_sync` may ask for a workspace with the base
/// query `base_jql`: the store decides on the cursor.
pub open spec fn planned(
    c: CacheModel,
    base_jql: Seq<char>,
    budget: usize,
    force_full: bool,
    q: SyncQuery,
) -> bool {
    &&& q.jql@ == effective_query(base_jql, opt_text(q.cursor))
    &&& q.page_size == page_size_for(budget)
    &&& force_full || !c.has_store ==> q.cursor is None
}

/// Whether a pass that stands before the workspace at index `i` with the cache `c`,
/// the counters `m` and the result `r` may end with `c_end`, `m_end` and `r_end`.
///
/// The pass ends after the last workspace. Before that, the workspace is planned,
/// `search` is asked with the planned query and page size, and its answer is applied;
/// the pass ends there if the budget is used up, and goes on with the next workspace
/// if it is not.
pub open spec fn pass_from<F: Fn(String, usize) -> Result<Vec<IssueData>, JiraError>>(
    search: F,
    workspaces: Seq<(String, String)>,
    i: int,
    budget: usize,
    force_full: bool,
    now: u64,
    c: CacheModel,
    m: Metrics,
    r: SyncResult,
    c_end: CacheModel,
    m_end: Metrics,
    r_end: SyncResult,
) -> bool
    decreases workspaces.len() - i,
{
    if i < 0 || i >= workspaces.len() {
        c_end == c && m_end == m && r_end == r
    } else {
        exists|
            q: SyncQuery,
            fetched: Result<Vec<IssueData>, JiraError>,
            c1: CacheModel,
            m1: Metrics,
            r1: SyncResult,
            outcome: PageOutcome,
        |
            {
                &&& planned(c, workspaces[i].1@, budget, force_full, q)
                &&& search.ensures((q.jql, q.page_size), fetched)
                &&& #[trigger] page_applied(
                    c,
                    m,
                    r,
                    workspaces[i].0@,
                    q.cursor,
                    fetched,
                    budget,
                    now,
                    c1,
                    m1,
                    r1,
                    outcome,
                )
                &&& if outcome.done {
                    c_end == c1 && m_end == m1 && r_end == r1
                } else {
                    pass_from(
                        search,
                        workspaces,
                        i + 1,
                        budget,
                        force_full,
                        now,
                        c1,
                        m1,
                        r1,
                        c_end,
                        m_end,
                        r_end,
                    )
                }
            }
    }
}

/// One pass over `workspaces`, each a name and a base query, in their order.
///
/// With a budget of zero nothing happens. Without a durable store the pass records
/// one message and does nothing else. Otherwise the pass starts from an empty result
/// and runs as `pass_from` says: each workspace is planned, `search` is asked for its
/// page, and the answer is applied, until the budget is used up. With `force_full` no
/// cursor is read. At most `budget` issues are stored, and every workspace that was
/// asked for stored issues, was skipped, or left a message.
pub fn sync_issues<F>(
    cache: &mut InMemoryCache,
    metrics: &mut Metrics,
    workspaces: &Vec<(String, String)>,
    budget: usize,
    force_full: bool,
    now_ms: u64,
    search: &F,
) -> (result: SyncResult) where F: Fn(String, usize) -> Result<Vec<IssueData>, JiraError>
    requires
        forall|jql: String, page_size: usize| #[trigger] search.requires((jql, page_size)),
    ensures
        budget == 0 ==> {
            &&& nothing_done(result)
            &&& final(cache)@ == old(cache)@
            &&& *final(metrics) == *old(metrics)
        },
        budget > 0 && !old(cache)@.has_store ==> {
            &&& result.issues_cached == 0 && result.issues_skipped == 0
            &&& messages(result.errors@) == seq![NO_STORE_MESSAGE@]
            &&& final(cache)@ == old(cache)@
            &&& *final(metrics) == *old(metrics)
        },
        budget > 0 && old(cache)@.has_store ==> exists|start: SyncResult|
            nothing_done(start) && #[trigger] pass_from(
                *search,
                workspaces@,
                0,
                budget,
                force_full,
                now_ms,
                old(cache)@,
                *old(metrics),
                start,
                final(cache)@,
                *final(metrics),
                result,
            ),
        result.issues_cached <= budget,
        old(cache)@.has_store ==> result.issues_skipped + result.errors@.len() <= workspaces.len(),
        final(cache)@.has_store == old(cache)@.has_store,
        final(cache)@.workspace_ttl == old(cache)@.workspace_ttl,
        final(cache)@.issue_ttl == old(cache)@.issue_ttl,
{
    match pass_precheck(cache, budget) {
        Some(result) => {
            assert(messages(result.errors@).len() == result.errors@.len());
            return result;
        },
        None => {},
    }
    let mut result = SyncResult { issues_cached: 0, issues_skipped: 0, errors: Vec::new() };
    let ghost start = result;
    let ghost c_start = cache@;
    let ghost m_start = *metrics;
    let ghost spaces = workspaces@;
    let mut done = false;
    let mut i: usize = 0;
    while i < workspaces.len() && !done
        invariant
            i <= workspaces.len(),
            budget > 0,
            spaces == workspaces@,
            c_start == old(cache)@,
            m_start == *old(metrics),
            c_start.has_store,
            nothing_done(start),
            forall|jql: String, page_size: usize| #[trigger] search.requires((jql, page_size)),
            result.issues_cached <= budget,
            result.issues_skipped + result.errors@.len() <= i,
            cache@.has_store == c_start.has_store,
            cache@.workspace_ttl == c_start.workspace_ttl,
            cache@.issue_ttl == c_start.issue_ttl,
            done ==> pass_from(
                *search,
                spaces,
                0,
                budget,
                force_full,
                now_ms,
                c_start,
                m_start,
                start,
                cache@,
                *metrics,
                result,
            ),
            !done ==> forall|c_end: CacheModel, m_end: Metrics, r_end: SyncResult| #[trigger]
                pass_from(
                    *search,
                    spaces,
                    i as int,
                    budget,
                    force_full,
                    now_ms,
                    cache@,
                    *metrics,
                    result,
                    c_end,
                    m_end,
                    r_end,
                ) ==> pass_from(
                    *search,
                    spaces,
                    0,
                    budget,
                    force_full,
                    now_ms,
                    c_start,
                    m_start,
                    start,
                    c_end,
                    m_end,
                    r_end,
                ),
        decreases workspaces.len() - i, if done { 0int } else { 1int },
    {
        let workspace = workspaces[i].0.as_str();
        let query = plan_workspace_sync(cache, workspace, workspaces[i].1.as_str(), budget, force_full);
        let ghost q = query;
        let ghost c0 = cache@;
        let ghost m0 = *metrics;
        let ghost r0 = result;
        let SyncQuery { cursor, jql, page_size } = query;
        let fetched = search(jql, page_size);
        let outcome = apply_workspace_page(
            cache,
            &mut result,
            metrics,
            workspace,
            &cursor,
            fetched,
            budget,
            now_ms,
        );
        proof {
            assert(messages(result.errors@).len() == result.errors@.len());
            assert(messages(r0.errors@).len() == r0.errors@.len());
            assert(planned(c0, spaces[i as int].1@, budget, force_full, q));
            assert(page_applied(
                c0,
                m0,
                r0,
                spaces[i as int].0@,
                q.cursor,
                fetched,
                budget,
                now_ms,
                cache@,
                *metrics,
                result,
                outcome,
            ));
            if outcome.done {
                assert(pass_from(
                    *search,
                    spaces,
                    i as int,
                    budget,
                    force_full,
                    now_ms,
                    c0,
                    m0,
                    r0,
                    cache@,
                    *metrics,
                    result,
                ));
            } else {
                assert forall|c_end: CacheModel, m_end: Metrics, r_end: SyncResult| #[trigger]
                    pass_from(
                        *search,
                        spaces,
                        i + 1,
                        budget,
                        force_full,
                        now_ms,
                        cache@,
                        *metrics,
                        result,
                        c_end,
                        m_end,
                        r_end,
                    ) implies pass_from(
                    *search,
                    spaces,
                    0,
                    budget,
                    force_full,
                    now_ms,
                    c_start,
                    m_start,
                    start,
                    c_end,
                    m_end,
                    r_end,
                ) by {
                    assert(pass_from(
                        *search,
                        spaces,
                        i as int,
                        budget,
                        force_full,
                        now_ms,
                        c0,
                        m0,
                        r0,
                        c_end,
                        m_end,
                        r_end,
                    ));
                }
            }
        }
        i += 1;
        if outcome.done {
            done = true;
        }
    }
    proof {
        if !done {
            assert(pass_from(
                *search,
                spaces,
                i as int,
                budget,
                force_full,
                now_ms,
                cache@,
                *metrics,
                result,
                cache@,
                *metrics,
                result,
            ));
        }
        assert(pass_from(
            *search,
            workspaces@,
            0,
            budget,
            force_full,
            now_ms,
            old(cache)@,
            *old(metrics),
            start,
            cache@,
            *metrics,
            result,
        ));
    }
    result
}

/// The cache with `issues` as the listing of `workspace`, fresh at `now`.
pub open spec fn with_listing(
    c: CacheModel,
    workspace: Seq<char>,
    issues: Seq<RefView>,
    now: u64,
) -> CacheModel {
    CacheModel {
        listings: c.listings.insert(
            workspace,
            ListingEntry { issues, cached_at: now, ttl: c.workspace_ttl },
        ),
        ..c
    }
}

/// The cache after the answer `fetched` for the listing of `workspace`: the listing
/// where it arrived, nothing new where it did not.
pub open spec fn seeded(
    c: CacheModel,
    workspace: Seq<char>,
    fetched: Result<Vec<IssueRef>, JiraError>,
    now: u64,
) -> CacheModel {
    match fetched {
        Ok(items) => with_listing(c, workspace, ref_views(items@), now),
        Err(_) => c,
    }
}

/// Whether seeding that stands before the workspace at index `i` with the cache `c`
/// and the count `n` may end with `c_end` and `n_end`: each workspace's listing is
/// asked of `list` with the workspace's base query, and taken in where it arrives.
pub open spec fn seeding_from<F: Fn(String) -> Result<Vec<IssueRef>, JiraError>>(
    list: F,
    workspaces: Seq<(String, String)>,
    i: int,
    now: u64,
    c: CacheModel,
    n: int,
    c_end: CacheModel,
    n_end: int,
) -> bool
    decreases workspaces.len() - i,
{
    if i < 0 || i >= workspaces.len() {
        c_end == c && n_end == n
    } else {
        exists|fetched: Result<Vec<IssueRef>, JiraError>|
            {
                &&& list.ensures((workspaces[i].1,), fetched)
                &&& seeding_from(
                    list,
                    workspaces,
                    i + 1,
                    now,
                    #[trigger] seeded(c, workspaces[i].0@, fetched, now),
                    if fetched is Ok {
                        n + 1
                    } else {
                        n
                    },
                    c_end,
                    n_end,
                )
            }
    }
}

/// Fills the listing of every workspace from `list`, which is asked with the
/// workspace's base query. The count is the number of workspaces whose listing
/// arrived; the others keep what they had.
pub fn seed_workspace_listings<F>(
    cache: &mut InMemoryCache,
    workspaces: &Vec<(String, String)>,
    now_ms: u64,
    list: &F,
) -> (seeded_count: usize) where F: Fn(String) -> Result<Vec<IssueRef>, JiraError>
    requires
        forall|jql: String| #[trigger] list.requires((jql,)),
    ensures
        seeding_from(
            *list,
            workspaces@,
            0,
            now_ms,
            old(cache)@,
            0,
            final(cache)@,
            seeded_count as int,
        ),
        seeded_count <= workspaces.len(),
{
    let ghost c_start = cache@;
    let ghost spaces = workspaces@;
    let mut count: usize = 0;
    let mut i: usize = 0;
    while i < workspaces.len()
        invariant
            i <= workspaces.len(),
            count <= i,
            spaces == workspaces@,
            forall|jql: String| #[trigger] list.requires((jql,)),
            forall|c_end: CacheModel, n_end: int| #[trigger]
                seeding_from(*list, spaces, i as int, now_ms, cache@, count as int, c_end, n_end)
                    ==> seeding_from(*list, spaces, 0, now_ms, c_start, 0, c_end, n_end),
        decreases workspaces.len() - i,
    {
        let ghost c0 = cache@;
        let ghost n0 = count as int;
        let fetched = list(workspaces[i].1.clone());
        let ghost answer = fetched;
        match fetched {
            Ok(items) => {
                cache.upsert_workspace_issues(workspaces[i].0.as_str(), items, now_ms);
                count += 1;
            },
            Err(_) => {},
        }
        proof {
            assert(cache@ == seeded(c0, spaces[i as int].0@, answer, now_ms));
            assert forall|c_end: CacheModel, n_end: int| #[trigger]
                seeding_from(*list, spaces, i + 1, now_ms, cache@, count as int, c_end, n_end)
                implies seeding_from(*list, spaces, 0, now_ms, c_start, 0, c_end, n_end) by {
                assert(seeding_from(*list, spaces, i as int, now_ms, c0, n0, c_end, n_end));
            }
        }
        i += 1;
    }
    proof {
        assert(seeding_from(
            *list,
            spaces,
            i as int,
            now_ms,
            cache@,
            count as int,
            cache@,
            count as int,
        ));
    }
    count
}

/// The cache after the stored listing `persisted` of `workspace` was looked at: the
/// listing is taken in where there is one and it is not empty.
pub open spec fn hydrated(
    c: CacheModel,
    workspace: Seq<char>,
    persisted: Option<Vec<IssueRef>>,
    now: u64,
) -> CacheModel {
    match persisted {
        Some(items) => if items.len() > 0 {
            with_listing(c, workspace, ref_views(items@), now)
        } else {
            c
        },
        None => c,
    }
}

/// Whether a stored listing is taken in.
pub open spec fn counts_as_hydrated(persisted: Option<Vec<IssueRef>>) -> bool {
    persisted matches Some(items) && items.len() > 0
}

/// Whether hydration that stands before the workspace at index `i` with the cache `c`
/// and the count `n` may end with `c_end` and `n_end`. What the store holds for a
/// workspace is what the store says; without a store there is nothing.
pub open spec fn hydrating_from(
    workspaces: Seq<(String, String)>,
    i: int,
    now: u64,
    c: CacheModel,
    n: int,
    c_end: CacheModel,
    n_end: int,
) -> bool
    decreases workspaces.len() - i,
{
    if i < 0 || i >= workspaces.len() {
        c_end == c && n_end == n
    } else {
        exists|persisted: Option<Vec<IssueRef>>|
            {
                &&& !c.has_store ==> persisted is None
                &&& hydrating_from(
                    workspaces,
                    i + 1,
                    now,
                    #[trigger] hydrated(c, workspaces[i].0@, persisted, now),
                    if counts_as_hydrated(persisted) {
                        n + 1
                    } else {
                        n
                    },
                    c_end,
                    n_end,
                )
            }
    }
}

/// Takes the stored listing `persisted` of `workspace` into memory, fresh at `now_ms`,
/// where the store gave one and it is not empty, and says whether it did. A missing or
/// empty listing changes nothing.
pub fn hydrate_listing(
    cache: &mut InMemoryCache,
    workspace: &str,
    persisted: Option<Vec<IssueRef>>,
    now_ms: u64,
) -> (taken: bool)
    ensures
        final(cache)@ == hydrated(old(cache)@, workspace@, persisted, now_ms),
        taken == counts_as_hydrated(persisted),
{
    match persisted {
        Some(issue_refs) => {
            if issue_refs.len() > 0 {
                cache.upsert_workspace_issues(workspace, issue_refs, now_ms);
                true
            } else {
                false
            }
        },
        None => false,
    }
}

/// Brings the stored listing of every workspace into memory, fresh at `now_ms`, where
/// the store holds one that is not empty. The count is the number of workspaces whose
/// listing was brought in.
pub fn hydrate_workspace_listings(
    cache: &mut InMemoryCache,
    workspaces: &Vec<(String, String)>,
    now_ms: u64,
) -> (hydrated_count: usize)
    ensures
        hydrating_from(
            workspaces@,
            0,
            now_ms,
            old(cache)@,
            0,
            final(cache)@,
            hydrated_count as int,
        ),
        hydrated_count <= workspaces.len(),
        !old(cache)@.has_store ==> hydrated_count == 0 && final(cache)@ == old(cache)@,
{
    let ghost c_start = cache@;
    let ghost spaces = workspaces@;
    let mut count: usize = 0;
    let mut i: usize = 0;
    while i < workspaces.len()
        invariant
            i <= workspaces.len(),
            count <= i,
            spaces == workspaces@,
            !c_start.has_store ==> count == 0 && cache@ == c_start,
            cache@.has_store == c_start.has_store,
            forall|c_end: CacheModel, n_end: int| #[trigger]
                hydrating_from(spaces, i as int, now_ms, cache@, count as int, c_end, n_end)
                    ==> hydrating_from(spaces, 0, now_ms, c_start, 0, c_end, n_end),
        decreases workspaces.len() - i,
    {
        let ghost c0 = cache@;
        let ghost n0 = count as int;
        let workspace = workspaces[i].0.as_str();
        let persisted = cache.list_workspace_issue_refs_from_persistence(workspace);
        let ghost answer = persisted;
        if hydrate_listing(cache, workspace, persisted, now_ms) {
            count += 1;
        }
        proof {
            assert(cache@ == hydrated(c0, spaces[i as int].0@, answer, now_ms));
            assert forall|c_end: CacheModel, n_end: int| #[trigger]
                hydrating_from(spaces, i + 1, now_ms, cache@, count as int, c_end, n_end)
                implies hydrating_from(spaces, 0, now_ms, c_start, 0, c_end, n_end) by {
                assert(hydrating_from(spaces, i as int, now_ms, c0, n0, c_end, n_end));
            }
        }
        i += 1;
    }
    proof {
        assert(hydrating_from(
            spaces,
            i as int,
            now_ms,
            cache@,
            count as int,
            cache@,
            count as int,
        ));
    }
    count
}

} // verus!
