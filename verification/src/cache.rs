//! The in-memory cache over the durable store: workspace listings and rendered
//! issues, each entry with the time it was stored and its time to live.
//!
//! Times are readings of a monotonic clock in milliseconds, handed in by the caller.
//! Exclusive access (`&mut self`) stands for the locks that guard the two maps where
//! the cache is shared.

pub mod persistent;

use vstd::prelude::*;
use crate::assoc::{find, put, to_map, lemma_first_index};
use crate::cache::persistent::{PersistentCache, PersistentIssue, StoreError};
use crate::jira::{IssueRef, ref_views, copy_refs};
use crate::metrics::{Metrics, after_hit, after_miss, after_stale};
use crate::text::{opt_text, copy_bytes, copy_opt, opt_eq};

verus! {

/// One row of a batch of rendered issues: key, markdown, source timestamp.
pub type IssueCacheRow = (String, Vec<u8>, Option<String>);

/// One row of a batch of comment sidecars: key, markdown, source timestamp.
pub type IssueSidecarRow = (String, Vec<u8>, Option<String>);

/// A cached value with the time it was stored, its time to live and the source
/// timestamp it was made from.
#[derive(Debug, Clone)]
pub struct CacheEntry<T> {
    pub value: T,
    pub cached_at: u64,
    pub ttl: u64,
    pub source_updated: Option<String>,
}

/// A workspace listing as read from the cache, with whether it has expired.
#[derive(Debug, Clone)]
pub struct WorkspaceIssuesSnapshot {
    pub issues: Vec<IssueRef>,
    pub is_stale: bool,
}

/// The rendered main view of one issue.
#[derive(Debug, Clone)]
pub struct CachedIssue {
    pub markdown: Vec<u8>,
}

/// Whether an entry stored at `cached_at` with time to live `ttl` has expired at `now`:
/// the time since it was stored, taken as zero if `now` is earlier, is at least `ttl`.
pub open spec fn is_stale(cached_at: u64, ttl: u64, now: u64) -> bool {
    (if now >= cached_at {
        now - cached_at
    } else {
        0
    }) >= ttl
}

/// Whether an entry stored at `cached_at` with time to live `ttl` has expired at `now`.
pub fn stale_at(cached_at: u64, ttl: u64, now: u64) -> (r: bool)
    ensures
        r == is_stale(cached_at, ttl, now),
{
    let elapsed: u64 = if now >= cached_at {
        now - cached_at
    } else {
        0
    };
    elapsed >= ttl
}

/// What the cache holds for one issue.
pub struct IssueEntry {
    pub markdown: Seq<u8>,
    pub cached_at: u64,
    pub ttl: u64,
    pub source_updated: Option<Seq<char>>,
}

/// What the cache holds for one workspace.
pub struct ListingEntry {
    pub issues: Seq<(Seq<char>, Option<Seq<char>>)>,
    pub cached_at: u64,
    pub ttl: u64,
}

/// The cache as two maps and its settings.
pub struct CacheModel {
    pub listings: Map<Seq<char>, ListingEntry>,
    pub issues: Map<Seq<char>, IssueEntry>,
    pub workspace_ttl: u64,
    pub issue_ttl: u64,
    pub has_store: bool,
}

/// The model of an issue entry.
pub open spec fn issue_entry(e: CacheEntry<CachedIssue>) -> IssueEntry {
    IssueEntry {
        markdown: e.value.markdown@,
        cached_at: e.cached_at,
        ttl: e.ttl,
        source_updated: opt_text(e.source_updated),
    }
}

/// The model of a listing entry.
pub open spec fn listing_entry(e: CacheEntry<Vec<IssueRef>>) -> ListingEntry {
    ListingEntry { issues: ref_views(e.value@), cached_at: e.cached_at, ttl: e.ttl }
}

/// The map of issue entries that a vector of pairs stands for.
pub open spec fn issue_map(entries: Seq<(String, CacheEntry<CachedIssue>)>) -> Map<
    Seq<char>,
    IssueEntry,
> {
    Map::new(
        |k: Seq<char>| to_map(entries).contains_key(k),
        |k: Seq<char>| issue_entry(to_map(entries)[k]),
    )
}

/// The map of listing entries that a vector of pairs stands for.
pub open spec fn listing_map(entries: Seq<(String, CacheEntry<Vec<IssueRef>>)>) -> Map<
    Seq<char>,
    ListingEntry,
> {
    Map::new(
        |k: Seq<char>| to_map(entries).contains_key(k),
        |k: Seq<char>| listing_entry(to_map(entries)[k]),
    )
}

/// The entry that a fetch or a batch stores: fresh at `now`.
pub open spec fn fresh_entry(
    markdown: Seq<u8>,
    updated: Option<Seq<char>>,
    now: u64,
    ttl: u64,
) -> IssueEntry {
    IssueEntry { markdown, cached_at: now, ttl, source_updated: updated }
}

/// The cache after `markdown` and `updated` were stored for `key`, fresh at `now`.
pub open spec fn with_fresh(
    c: CacheModel,
    key: Seq<char>,
    markdown: Seq<u8>,
    updated: Option<Seq<char>>,
    now: u64,
) -> CacheModel {
    CacheModel { issues: c.issues.insert(key, fresh_entry(markdown, updated, now, c.issue_ttl)), ..c }
}

/// The issues map after the rows `rows[..n]` were stored at `now`, later rows over
/// earlier ones.
pub open spec fn after_rows(
    issues: Map<Seq<char>, IssueEntry>,
    rows: Seq<IssueCacheRow>,
    n: int,
    now: u64,
    ttl: u64,
) -> Map<Seq<char>, IssueEntry>
    decreases n,
{
    if n <= 0 {
        issues
    } else {
        after_rows(issues, rows, n - 1, now, ttl).insert(
            rows[n - 1].0@,
            fresh_entry(rows[n - 1].1@, opt_text(rows[n - 1].2), now, ttl),
        )
    }
}

/// The read policy once the remote answer is known, for a key whose entry `existing`
/// is absent or expired: the bytes handed out, or the fetch error.
pub open spec fn settled_bytes<E>(
    existing: Option<IssueEntry>,
    fetched: Result<(Vec<u8>, Option<String>), E>,
) -> Result<Seq<u8>, E> {
    match fetched {
        Err(err) => match existing {
            Some(e) => Ok(e.markdown),
            None => Err(err),
        },
        Ok((markdown, updated)) => match existing {
            Some(e) => if e.source_updated == opt_text(updated) {
                Ok(e.markdown)
            } else {
                Ok(markdown@)
            },
            None => Ok(markdown@),
        },
    }
}

/// The read policy once the remote answer is known: the entry the cache holds for the
/// key afterwards.
pub open spec fn settled_entry<E>(
    existing: Option<IssueEntry>,
    fetched: Result<(Vec<u8>, Option<String>), E>,
    now: u64,
    ttl: u64,
) -> Option<IssueEntry> {
    match fetched {
        Err(_) => existing,
        Ok((markdown, updated)) => match existing {
            Some(e) => if e.source_updated == opt_text(updated) {
                Some(IssueEntry { cached_at: now, ..e })
            } else {
                Some(fresh_entry(markdown@, opt_text(updated), now, ttl))
            },
            None => Some(fresh_entry(markdown@, opt_text(updated), now, ttl)),
        },
    }
}

/// The read policy once the remote answer is known: the counters afterwards. Every
/// such read is a miss; one answered from an expired entry after a failed fetch is
/// also counted as stale.
pub open spec fn settled_metrics<E>(
    existing: Option<IssueEntry>,
    fetched: Result<(Vec<u8>, Option<String>), E>,
    m: Metrics,
) -> Metrics {
    if fetched is Err && existing is Some {
        after_stale(after_miss(m))
    } else {
        after_miss(m)
    }
}

/// The read policy once the remote answer is known: the cache afterwards. A failed
/// fetch changes nothing; a successful one binds the key to the settled entry.
pub open spec fn settled_cache<E>(
    c: CacheModel,
    key: Seq<char>,
    fetched: Result<(Vec<u8>, Option<String>), E>,
    now: u64,
) -> CacheModel {
    match settled_entry(c.issues.get(key), fetched, now, c.issue_ttl) {
        Some(e) => if fetched is Ok {
            CacheModel { issues: c.issues.insert(key, e), ..c }
        } else {
            c
        },
        None => c,
    }
}

/// The cached listing of `workspace`, empty where the cache holds none.
pub open spec fn listing_of(cache: CacheModel, workspace: Seq<char>) -> Seq<
    (Seq<char>, Option<Seq<char>>),
> {
    match cache.listings.get(workspace) {
        Some(e) => e.issues,
        None => Seq::empty(),
    }
}

/// Whether `key` is one of the keys of `issues`.
pub open spec fn listed(issues: Seq<(Seq<char>, Option<Seq<char>>)>, key: Seq<char>) -> bool {
    exists|i: int| 0 <= i < issues.len() && (#[trigger] issues[i]).0 == key
}

/// The counters after the listing of `workspace` was read at `now`: a hit for a fresh
/// listing, a miss for an expired one, nothing where the cache holds none.
pub open spec fn snapshot_metrics(
    cache: CacheModel,
    workspace: Seq<char>,
    now: u64,
    m: Metrics,
) -> Metrics {
    match cache.listings.get(workspace) {
        Some(e) => if is_stale(e.cached_at, e.ttl, now) {
            after_miss(m)
        } else {
            after_hit(m)
        },
        None => m,
    }
}

/// The byte length of the entry that memory holds for `key`.
pub open spec fn cached_len(c: CacheModel, key: Seq<char>) -> Option<u64> {
    match c.issues.get(key) {
        Some(e) => Some(e.markdown.len() as u64),
        None => None,
    }
}

/// The bytes `served` are those of the entry that memory holds for `key`.
pub open spec fn served_from(c: CacheModel, key: Seq<char>, served: Seq<u8>) -> bool {
    c.issues.contains_key(key) && c.issues[key].markdown == served
}

/// The length of the bytes that a read hands out is the length that memory reports
/// for the key at that moment.
pub proof fn lemma_served_length_is_cached_length(c: CacheModel, key: Seq<char>, served: Seq<u8>)
    requires
        served_from(c, key, served),
    ensures
        cached_len(c, key) == Some(served.len() as u64),
{
}

/// With a time to live of zero every entry has expired at every time, so that no read
/// is a hit.
pub proof fn lemma_zero_ttl_is_always_stale(cached_at: u64, now: u64)
    ensures
        is_stale(cached_at, 0, now),
{
}

/// The in-memory cache, with the durable store below it where one is configured.
pub struct InMemoryCache {
    workspace_ttl: u64,
    issue_ttl: u64,
    workspace_issues: Vec<(String, CacheEntry<Vec<IssueRef>>)>,
    issue_markdown: Vec<(String, CacheEntry<CachedIssue>)>,
    persistent: Option<PersistentCache>,
}

impl View for InMemoryCache {
    type V = CacheModel;

    closed spec fn view(&self) -> CacheModel {
        CacheModel {
            listings: listing_map(self.workspace_issues@),
            issues: issue_map(self.issue_markdown@),
            workspace_ttl: self.workspace_ttl,
            issue_ttl: self.issue_ttl,
            has_store: self.persistent is Some,
        }
    }
}

/// What a read of the durable store hands on: the value it found, and nothing where
/// the store failed.
pub open spec fn found<T>(answer: Result<Option<T>, StoreError>) -> Option<T> {
    match answer {
        Ok(value) => value,
        Err(_) => None,
    }
}

/// What a read of the durable store hands on: the value it found, and nothing where
/// the store failed.
pub fn found_or_none<T>(answer: Result<Option<T>, StoreError>) -> (r: Option<T>)
    ensures
        r == found(answer),
{
    match answer {
        Ok(value) => value,
        Err(_) => None,
    }
}

/// What a count of the durable store hands on: the count, and zero where the store
/// failed.
pub open spec fn counted(answer: Result<usize, StoreError>) -> usize {
    match answer {
        Ok(n) => n,
        Err(_) => 0,
    }
}

/// What a count of the durable store hands on: the count, and zero where the store
/// failed.
pub fn count_or_zero(answer: Result<usize, StoreError>) -> (n: usize)
    ensures
        n == counted(answer),
{
    match answer {
        Ok(n) => n,
        Err(_) => 0,
    }
}

/// What a listing of the durable store hands on: the listing, and nothing where the
/// store failed.
pub fn listing_or_none(answer: Result<Vec<IssueRef>, StoreError>) -> (r: Option<Vec<IssueRef>>)
    ensures
        match answer {
            Ok(refs) => r == Some(refs),
            Err(_) => r is None,
        },
{
    match answer {
        Ok(refs) => Some(refs),
        Err(_) => None,
    }
}

impl InMemoryCache {
    /// An empty cache without a durable store.
    pub fn new(workspace_ttl_ms: u64, issue_ttl_ms: u64) -> (c: Self)
        ensures
            c@ == (CacheModel {
                listings: Map::empty(),
                issues: Map::empty(),
                workspace_ttl: workspace_ttl_ms,
                issue_ttl: issue_ttl_ms,
                has_store: false,
            }),
    {
        let c = InMemoryCache {
            workspace_ttl: workspace_ttl_ms,
            issue_ttl: issue_ttl_ms,
            workspace_issues: Vec::new(),
            issue_markdown: Vec::new(),
            persistent: None,
        };
        assert(c@.listings =~= Map::empty());
        assert(c@.issues =~= Map::empty());
        c
    }

    /// An empty cache over the durable store at `db_path`. Fails exactly when the
    /// store cannot be opened.
    pub fn with_persistence(workspace_ttl_ms: u64, issue_ttl_ms: u64, db_path: &str) -> (r: Result<
        Self,
        StoreError,
    >)
        ensures
            r matches Ok(c) ==> c@ == (CacheModel {
                listings: Map::empty(),
                issues: Map::empty(),
                workspace_ttl: workspace_ttl_ms,
                issue_ttl: issue_ttl_ms,
                has_store: true,
            }),
    {
        match PersistentCache::new(db_path) {
            Ok(store) => Ok(InMemoryCache::over_store(workspace_ttl_ms, issue_ttl_ms, store)),
            Err(e) => Err(e),
        }
    }

    /// An empty cache over the open durable store `store`.
    pub fn over_store(workspace_ttl_ms: u64, issue_ttl_ms: u64, store: PersistentCache) -> (c: Self)
        ensures
            c@ == (CacheModel {
                listings: Map::empty(),
                issues: Map::empty(),
                workspace_ttl: workspace_ttl_ms,
                issue_ttl: issue_ttl_ms,
                has_store: true,
            }),
    {
        let c = InMemoryCache {
            workspace_ttl: workspace_ttl_ms,
            issue_ttl: issue_ttl_ms,
            workspace_issues: Vec::new(),
            issue_markdown: Vec::new(),
            persistent: Some(store),
        };
        assert(c@.listings =~= Map::empty());
        assert(c@.issues =~= Map::empty());
        c
    }

    fn put_listing(&mut self, workspace: &str, issues: Vec<IssueRef>, now_ms: u64)
        ensures
            final(self)@ == (CacheModel {
                listings: old(self)@.listings.insert(
                    workspace@,
                    ListingEntry {
                        issues: ref_views(issues@),
                        cached_at: now_ms,
                        ttl: old(self)@.workspace_ttl,
                    },
                ),
                ..old(self)@
            }),
    {
        let entry = CacheEntry {
            value: issues,
            cached_at: now_ms,
            ttl: self.workspace_ttl,
            source_updated: None,
        };
        put(&mut self.workspace_issues, workspace, entry);
        assert(self@.listings =~= old(self)@.listings.insert(
            workspace@,
            listing_entry(entry),
        ));
    }

    fn put_issue(&mut self, issue_key: &str, entry: CacheEntry<CachedIssue>)
        ensures
            final(self)@ == (CacheModel {
                issues: old(self)@.issues.insert(issue_key@, issue_entry(entry)),
                ..old(self)@
            }),
    {
        put(&mut self.issue_markdown, issue_key, entry);
        assert(self@.issues =~= old(self)@.issues.insert(issue_key@, issue_entry(entry)));
    }

    /// The listing of `workspace`: from the cache while its entry is fresh, which
    /// counts as a hit; otherwise from `fetch`, which counts as a miss. A fetched
    /// listing is stored as fresh at `now_ms`; a failed fetch changes nothing and
    /// its error is returned.
    pub fn get_workspace_issues<F, E>(
        &mut self,
        workspace: &str,
        now_ms: u64,
        metrics: &mut Metrics,
        fetch: F,
    ) -> (r: Result<Vec<IssueRef>, E>) where F: FnOnce() -> Result<Vec<IssueRef>, E>
        requires
            fetch.requires(()),
        ensures
            ({
                let e = old(self)@.listings.get(workspace@);
                if e is Some && !is_stale(e.unwrap().cached_at, e.unwrap().ttl, now_ms) {
                    &&& r matches Ok(issues) && ref_views(issues@) == e.unwrap().issues
                    &&& final(self)@ == old(self)@
                    &&& *final(metrics) == after_hit(*old(metrics))
                } else {
                    &&& fetch.ensures((), r)
                    &&& *final(metrics) == after_miss(*old(metrics))
                    &&& match r {
                        Ok(issues) => final(self)@ == (CacheModel {
                            listings: old(self)@.listings.insert(
                                workspace@,
                                ListingEntry {
                                    issues: ref_views(issues@),
                                    cached_at: now_ms,
                                    ttl: old(self)@.workspace_ttl,
                                },
                            ),
                            ..old(self)@
                        }),
                        Err(_) => final(self)@ == old(self)@,
                    }
                }
            }),
    {
        match find(&self.workspace_issues, workspace) {
            Some(i) => {
                let entry = &self.workspace_issues[i].1;
                if !stale_at(entry.cached_at, entry.ttl, now_ms) {
                    metrics.inc_cache_hit();
                    return Ok(copy_refs(&entry.value));
                }
            },
            None => {},
        }
        metrics.inc_cache_miss();
        match fetch() {
            Ok(fresh) => {
                self.put_listing(workspace, copy_refs(&fresh), now_ms);
                Ok(fresh)
            },
            Err(e) => Err(e),
        }
    }

    /// The cached listing of `workspace` with whether it has expired at `now_ms`, or
    /// `None` where the cache holds none. A fresh listing counts as a hit, an
    /// expired one as a miss.
    pub fn get_workspace_issues_snapshot(
        &self,
        workspace: &str,
        now_ms: u64,
        metrics: &mut Metrics,
    ) -> (r: Option<WorkspaceIssuesSnapshot>)
        ensures
            match self@.listings.get(workspace@) {
                Some(e) => {
                    &&& r matches Some(snapshot) && ref_views(snapshot.issues@) == e.issues
                        && snapshot.is_stale == is_stale(e.cached_at, e.ttl, now_ms)
                    &&& *final(metrics) == (if is_stale(e.cached_at, e.ttl, now_ms) {
                        after_miss(*old(metrics))
                    } else {
                        after_hit(*old(metrics))
                    })
                },
                None => r is None && *final(metrics) == *old(metrics),
            },
    {
        match find(&self.workspace_issues, workspace) {
            Some(i) => {
                let entry = &self.workspace_issues[i].1;
                let stale = stale_at(entry.cached_at, entry.ttl, now_ms);
                if stale {
                    metrics.inc_cache_miss();
                } else {
                    metrics.inc_cache_hit();
                }
                Some(WorkspaceIssuesSnapshot { issues: copy_refs(&entry.value), is_stale: stale })
            },
            None => None,
        }
    }

    /// Replaces the listing of `workspace` by `issues`, fresh at `now_ms`, in memory and
    /// then in the durable store, whose failure is not reported.
    pub fn upsert_workspace_issues(&mut self, workspace: &str, issues: Vec<IssueRef>, now_ms: u64)
        ensures
            final(self)@ == (CacheModel {
                listings: old(self)@.listings.insert(
                    workspace@,
                    ListingEntry {
                        issues: ref_views(issues@),
                        cached_at: now_ms,
                        ttl: old(self)@.workspace_ttl,
                    },
                ),
                ..old(self)@
            }),
    {
        let persisted = copy_refs(&issues);
        self.put_listing(workspace, issues, now_ms);
        match &self.persistent {
            Some(store) => {
                let _ = store.upsert_workspace_issue_refs(workspace, &persisted);
            },
            None => {},
        }
    }

    /// The first step of a read: the bytes of `issue_key` if its entry is fresh at
    /// `now_ms`, which counts as a hit and changes nothing else.
    pub fn fresh_issue_bytes(&self, issue_key: &str, now_ms: u64, metrics: &mut Metrics) -> (r:
        Option<Vec<u8>>)
        ensures
            match self@.issues.get(issue_key@) {
                Some(e) => if is_stale(e.cached_at, e.ttl, now_ms) {
                    r is None && *final(metrics) == *old(metrics)
                } else {
                    r matches Some(bytes) && bytes@ == e.markdown && *final(metrics) == after_hit(
                        *old(metrics),
                    )
                },
                None => r is None && *final(metrics) == *old(metrics),
            },
    {
        match find(&self.issue_markdown, issue_key) {
            Some(i) => {
                let entry = &self.issue_markdown[i].1;
                if !stale_at(entry.cached_at, entry.ttl, now_ms) {
                    metrics.inc_cache_hit();
                    Some(copy_bytes(&entry.value.markdown))
                } else {
                    None
                }
            },
            None => None,
        }
    }

    /// The second step of a read, for a key with no entry in memory: the row
    /// `persisted` that the durable store holds for it becomes the entry, fresh at
    /// `now_ms`; its bytes are handed out and the read counts as a hit.
    pub fn hydrate_issue(
        &mut self,
        issue_key: &str,
        now_ms: u64,
        metrics: &mut Metrics,
        persisted: PersistentIssue,
    ) -> (bytes: Vec<u8>)
        ensures
            bytes@ == persisted.markdown@,
            final(self)@ == (CacheModel {
                issues: old(self)@.issues.insert(
                    issue_key@,
                    fresh_entry(
                        persisted.markdown@,
                        opt_text(persisted.updated),
                        now_ms,
                        old(self)@.issue_ttl,
                    ),
                ),
                ..old(self)@
            }),
            *final(metrics) == after_hit(*old(metrics)),
    {
        let hydrated = CacheEntry {
            value: CachedIssue { markdown: copy_bytes(&persisted.markdown) },
            cached_at: now_ms,
            ttl: self.issue_ttl,
            source_updated: persisted.updated,
        };
        self.put_issue(issue_key, hydrated);
        metrics.inc_cache_hit();
        persisted.markdown
    }

    /// The last step of a read, for a key whose entry is absent or expired, once the
    /// remote answer `fetched` is known. The read counts as a miss.
    ///
    /// A failed fetch hands out the bytes of the expired entry, counted as stale, and
    /// its error only where there is no entry. A successful fetch with the entry's own
    /// source timestamp only renews the entry and hands out its bytes; any other
    /// successful fetch replaces the entry, in memory and in the durable store, and
    /// hands out the fetched bytes.
    pub fn settle_issue_read<E>(
        &mut self,
        issue_key: &str,
        now_ms: u64,
        metrics: &mut Metrics,
        fetched: Result<(Vec<u8>, Option<String>), E>,
    ) -> (r: Result<Vec<u8>, E>)
        ensures
            ({
                let existing = old(self)@.issues.get(issue_key@);
                &&& match r {
                    Ok(bytes) => settled_bytes(existing, fetched) == Ok::<Seq<u8>, E>(bytes@),
                    Err(err) => settled_bytes(existing, fetched) == Err::<Seq<u8>, E>(err),
                }
                &&& final(self)@ == settled_cache(old(self)@, issue_key@, fetched, now_ms)
                &&& *final(metrics) == settled_metrics(existing, fetched, *old(metrics))
            }),
    {
        metrics.inc_cache_miss();
        let found = find(&self.issue_markdown, issue_key);
        proof {
            lemma_first_index(self.issue_markdown@, issue_key@);
        }
        let (fresh_markdown, fresh_updated) = match fetched {
            Ok(value) => value,
            Err(err) => {
                match found {
                    Some(i) => {
                        metrics.inc_stale_served();
                        return Ok(copy_bytes(&self.issue_markdown[i].1.value.markdown));
                    },
                    None => {
                        return Err(err);
                    },
                }
            },
        };
        match found {
            Some(i) => {
                let entry = &self.issue_markdown[i].1;
                if opt_eq(&entry.source_updated, &fresh_updated) {
                    let bytes = copy_bytes(&entry.value.markdown);
                    let renewed = CacheEntry {
                        value: CachedIssue { markdown: copy_bytes(&entry.value.markdown) },
                        cached_at: now_ms,
                        ttl: entry.ttl,
                        source_updated: copy_opt(&entry.source_updated),
                    };
                    self.put_issue(issue_key, renewed);
                    return Ok(bytes);
                }
            },
            None => {},
        }
        let entry = CacheEntry {
            value: CachedIssue { markdown: copy_bytes(&fresh_markdown) },
            cached_at: now_ms,
            ttl: self.issue_ttl,
            source_updated: copy_opt(&fresh_updated),
        };
        self.put_issue(issue_key, entry);
        match &self.persistent {
            Some(store) => {
                let _ = store.upsert_issue(issue_key, &fresh_markdown, &fresh_updated);
            },
            None => {},
        }
        Ok(fresh_markdown)
    }

    /// The rendered bytes of `issue_key`, preferring old bytes over an error.
    ///
    /// 1. A fresh entry in memory is handed out: a hit.
    /// 2. With no entry in memory, a row of the durable store becomes the entry and is
    ///    handed out: a hit.
    /// 3. Otherwise `fetch` is called, and `settle_issue_read` decides on its answer.
    ///
    /// Whenever bytes are handed out, they are the bytes of the entry that memory holds
    /// for the key afterwards.
    pub fn get_issue_markdown_stale_safe<F, E>(
        &mut self,
        issue_key: &str,
        now_ms: u64,
        metrics: &mut Metrics,
        fetch: F,
    ) -> (r: Result<Vec<u8>, E>) where F: FnOnce() -> Result<(Vec<u8>, Option<String>), E>
        requires
            fetch.requires(()),
        ensures
            ({
                let existing = old(self)@.issues.get(issue_key@);
                if existing is Some && !is_stale(
                    existing.unwrap().cached_at,
                    existing.unwrap().ttl,
                    now_ms,
                ) {
                    &&& r matches Ok(bytes) && bytes@ == existing.unwrap().markdown
                    &&& final(self)@ == old(self)@
                    &&& *final(metrics) == after_hit(*old(metrics))
                } else {
                    ||| {
                        &&& existing is None
                        &&& old(self)@.has_store
                        &&& r matches Ok(bytes) && exists|updated: Option<Seq<char>>|
                            final(self)@ == #[trigger] with_fresh(
                                old(self)@,
                                issue_key@,
                                bytes@,
                                updated,
                                now_ms,
                            )
                        &&& *final(metrics) == after_hit(*old(metrics))
                    }
                    ||| exists|fetched: Result<(Vec<u8>, Option<String>), E>|
                        {
                            &&& fetch.ensures((), fetched)
                            &&& match r {
                                Ok(bytes) => #[trigger] settled_bytes(existing, fetched) == Ok::<
                                    Seq<u8>,
                                    E,
                                >(bytes@),
                                Err(err) => settled_bytes(existing, fetched) == Err::<Seq<u8>, E>(
                                    err,
                                ),
                            }
                            &&& final(self)@ == settled_cache(
                                old(self)@,
                                issue_key@,
                                fetched,
                                now_ms,
                            )
                            &&& *final(metrics) == settled_metrics(existing, fetched, *old(metrics))
                        }
                }
            }),
            r matches Ok(bytes) ==> served_from(final(self)@, issue_key@, bytes@),
            r is Err ==> old(self)@.issues.get(issue_key@) is None,
    {
        match self.fresh_issue_bytes(issue_key, now_ms, metrics) {
            Some(bytes) => {
                return Ok(bytes);
            },
            None => {},
        }
        let in_memory = find(&self.issue_markdown, issue_key).is_some();
        proof {
            lemma_first_index(self.issue_markdown@, issue_key@);
        }
        let persisted = if in_memory {
            None
        } else {
            self.stored_issue(issue_key)
        };
        let ghost row = persisted;
        let r = self.read_past_memory(issue_key, now_ms, metrics, persisted, fetch);
        proof {
            match row {
                Some(issue) => {
                    assert(r matches Ok(b) && self@ == with_fresh(
                        old(self)@,
                        issue_key@,
                        b@,
                        opt_text(issue.updated),
                        now_ms,
                    ));
                },
                None => {},
            }
        }
        r
    }

    /// The row that the durable store holds for `issue_key`; `None` also where there
    /// is no store or it fails.
    pub fn stored_issue(&self, issue_key: &str) -> (r: Option<PersistentIssue>)
        ensures
            !self@.has_store ==> r is None,
    {
        match &self.persistent {
            Some(store) => found_or_none(store.get_issue(issue_key)),
            None => None,
        }
    }

    /// A read that memory could not answer with fresh bytes, once the durable store's
    /// answer `persisted` is known.
    ///
    /// A row of the store becomes the entry, fresh at `now_ms`; its bytes are handed
    /// out, the read counts as a hit and `fetch` is not called. Without a row `fetch`
    /// is called and `settle_issue_read` decides on its answer.
    pub fn read_past_memory<F, E>(
        &mut self,
        issue_key: &str,
        now_ms: u64,
        metrics: &mut Metrics,
        persisted: Option<PersistentIssue>,
        fetch: F,
    ) -> (r: Result<Vec<u8>, E>) where F: FnOnce() -> Result<(Vec<u8>, Option<String>), E>
        requires
            fetch.requires(()),
        ensures
            match persisted {
                Some(row) => {
                    &&& r matches Ok(bytes) && bytes@ == row.markdown@
                    &&& final(self)@ == with_fresh(
                        old(self)@,
                        issue_key@,
                        row.markdown@,
                        opt_text(row.updated),
                        now_ms,
                    )
                    &&& *final(metrics) == after_hit(*old(metrics))
                },
                None => exists|fetched: Result<(Vec<u8>, Option<String>), E>|
                    {
                        &&& fetch.ensures((), fetched)
                        &&& match r {
                            Ok(bytes) => #[trigger] settled_bytes(
                                old(self)@.issues.get(issue_key@),
                                fetched,
                            ) == Ok::<Seq<u8>, E>(bytes@),
                            Err(err) => settled_bytes(old(self)@.issues.get(issue_key@), fetched)
                                == Err::<Seq<u8>, E>(err),
                        }
                        &&& final(self)@ == settled_cache(old(self)@, issue_key@, fetched, now_ms)
                        &&& *final(metrics) == settled_metrics(
                            old(self)@.issues.get(issue_key@),
                            fetched,
                            *old(metrics),
                        )
                    },
            },
    {
        match persisted {
            Some(issue) => Ok(self.hydrate_issue(issue_key, now_ms, metrics, issue)),
            None => {
                let fetched = fetch();
                let r = self.settle_issue_read(issue_key, now_ms, metrics, fetched);
                assert(settled_bytes(old(self)@.issues.get(issue_key@), fetched) == (match r {
                    Ok(bytes) => Ok::<Seq<u8>, E>(bytes@),
                    Err(err) => Err::<Seq<u8>, E>(err),
                }));
                r
            },
        }
    }

    /// The byte length of the entry that memory holds for `issue_key`.
    pub fn cached_issue_len(&self, issue_key: &str) -> (r: Option<u64>)
        ensures
            r == cached_len(self@, issue_key@),
    {
        match find(&self.issue_markdown, issue_key) {
            Some(i) => Some(self.issue_markdown[i].1.value.markdown.len() as u64),
            None => None,
        }
    }

    /// Stores `markdown` and `updated` for `issue_key`, fresh at `now_ms`, in memory and
    /// then in the durable store, whose failure is not reported.
    pub fn upsert_issue_direct(
        &mut self,
        issue_key: &str,
        markdown: &Vec<u8>,
        updated: &Option<String>,
        now_ms: u64,
    )
        ensures
            final(self)@ == (CacheModel {
                issues: old(self)@.issues.insert(
                    issue_key@,
                    fresh_entry(markdown@, opt_text(*updated), now_ms, old(self)@.issue_ttl),
                ),
                ..old(self)@
            }),
    {
        let entry = CacheEntry {
            value: CachedIssue { markdown: copy_bytes(markdown) },
            cached_at: now_ms,
            ttl: self.issue_ttl,
            source_updated: copy_opt(updated),
        };
        self.put_issue(issue_key, entry);
        match &self.persistent {
            Some(store) => {
                let _ = store.upsert_issue(issue_key, markdown, updated);
            },
            None => {},
        }
    }

    /// Stores every row of `issues`, fresh at `now_ms`, in memory and then, as one
    /// batch, in the durable store, whose failure is not reported. The count is the
    /// number of rows.
    pub fn upsert_issues_batch(&mut self, issues: &Vec<IssueCacheRow>, now_ms: u64) -> (count: usize)
        ensures
            count == issues.len(),
            final(self)@ == (CacheModel {
                issues: after_rows(
                    old(self)@.issues,
                    issues@,
                    issues.len() as int,
                    now_ms,
                    old(self)@.issue_ttl,
                ),
                ..old(self)@
            }),
    {
        let mut count: usize = 0;
        while count < issues.len()
            invariant
                count <= issues.len(),
                self@ == (CacheModel {
                    issues: after_rows(
                        old(self)@.issues,
                        issues@,
                        count as int,
                        now_ms,
                        old(self)@.issue_ttl,
                    ),
                    ..old(self)@
                }),
            decreases issues.len() - count,
        {
            let row = &issues[count];
            let entry = CacheEntry {
                value: CachedIssue { markdown: copy_bytes(&row.1) },
                cached_at: now_ms,
                ttl: self.issue_ttl,
                source_updated: copy_opt(&row.2),
            };
            self.put_issue(row.0.as_str(), entry);
            count += 1;
        }
        match &self.persistent {
            Some(store) => {
                let _ = store.upsert_issues_batch(issues);
            },
            None => {},
        }
        count
    }

    /// Stores every sidecar of `sidecars` as one batch in the durable store. The count
    /// is the number of rows where the store took them, and zero where it failed or
    /// where there is no store. Memory holds no sidecars.
    pub fn upsert_issue_sidecars_batch(&self, sidecars: &Vec<IssueSidecarRow>) -> (count: usize)
        ensures
            count == sidecars.len() || count == 0,
            !self@.has_store ==> count == 0,
    {
        match &self.persistent {
            Some(store) => count_or_zero(store.upsert_issue_sidecars_batch(sidecars)),
            None => 0,
        }
    }

    /// The stored cursor of `workspace`; `None` also where there is no store or it fails.
    pub fn get_sync_cursor(&self, workspace: &str) -> (r: Option<String>)
        ensures
            !self@.has_store ==> r is None,
    {
        match &self.persistent {
            Some(store) => found_or_none(store.get_sync_cursor(workspace)),
            None => None,
        }
    }

    /// Stores `last_sync` as the cursor of `workspace`, where there is a store.
    pub fn set_sync_cursor(&self, workspace: &str, last_sync: &str) {
        match &self.persistent {
            Some(store) => {
                let _ = store.set_sync_cursor(workspace, last_sync);
            },
            None => {},
        }
    }

    /// Removes the cursor of `workspace`, where there is a store.
    pub fn clear_sync_cursor(&self, workspace: &str) {
        match &self.persistent {
            Some(store) => {
                let _ = store.clear_sync_cursor(workspace);
            },
            None => {},
        }
    }

    /// How many stored issues belong to the project `project_prefix`; zero also where
    /// there is no store or it fails.
    pub fn cached_issue_count(&self, project_prefix: &str) -> (n: usize)
        ensures
            !self@.has_store ==> n == 0,
    {
        match &self.persistent {
            Some(store) => count_or_zero(store.cached_issue_count(project_prefix)),
            None => 0,
        }
    }

    /// Whether a durable store is configured.
    pub fn has_persistence(&self) -> (b: bool)
        ensures
            b == self@.has_store,
    {
        self.persistent.is_some()
    }

    /// The byte length of the stored markdown of `issue_key`; `None` also where there
    /// is no store or it fails.
    pub fn persistent_issue_len(&self, issue_key: &str) -> (r: Option<u64>)
        ensures
            !self@.has_store ==> r is None,
    {
        match &self.persistent {
            Some(store) => found_or_none(store.issue_markdown_len(issue_key)),
            None => None,
        }
    }

    /// The stored listing of `workspace`; `None` where there is no store or it fails.
    pub fn list_workspace_issue_refs_from_persistence(&self, workspace: &str) -> (r: Option<
        Vec<IssueRef>,
    >)
        ensures
            !self@.has_store ==> r is None,
    {
        match &self.persistent {
            Some(store) => listing_or_none(store.list_workspace_issue_refs(workspace)),
            None => None,
        }
    }

    /// The stored comments sidecar of `issue_key`; `None` also where there is no store
    /// or it fails.
    pub fn persistent_comments_md(&self, issue_key: &str) -> (r: Option<Vec<u8>>)
        ensures
            !self@.has_store ==> r is None,
    {
        match &self.persistent {
            Some(store) => found_or_none(store.get_issue_comments_md(issue_key)),
            None => None,
        }
    }

    /// The byte length of the stored comments sidecar of `issue_key`; `None` also where
    /// there is no store or it fails.
    pub fn persistent_comments_md_len(&self, issue_key: &str) -> (r: Option<u64>)
        ensures
            !self@.has_store ==> r is None,
    {
        match &self.persistent {
            Some(store) => found_or_none(store.issue_comments_md_len(issue_key)),
            None => None,
        }
    }
}

} // verus!
