//! The durable store: four SQLite tables for rendered issues, comment sidecars,
//! workspace listings and sync cursors.
//!
//! What the database answers is not known to the verifier. The contracts here say what
//! is decided on this side of the database: how rows become values, which statements
//! report a count, and that every database error surfaces as a `StoreError`.

use vstd::prelude::*;
use rusqlite::OptionalExtension;
use crate::decimal::decimal;
use crate::jira::IssueRef;

verus! {

#[verifier::external_type_specification]
#[verifier::external_body]
pub struct ExConnection(rusqlite::Connection);

#[verifier::external_type_specification]
#[verifier::external_body]
pub struct ExTransaction<'a>(rusqlite::Transaction<'a>);

#[verifier::external_type_specification]
#[verifier::external_body]
pub struct ExSqlError(rusqlite::Error);

/// One row of a batch of rendered issues or sidecars: key, bytes, source timestamp.
pub type PersistentIssueRow = (String, Vec<u8>, Option<String>);

/// One row of a batch of comment sidecars: key, bytes, source timestamp.
pub type PersistentSidecarRow = (String, Vec<u8>, Option<String>);

/// A stored rendered issue.
#[derive(Debug, Clone)]
pub struct PersistentIssue {
    pub markdown: Vec<u8>,
    pub updated: Option<String>,
}

/// A failure of the database, with the database's description of it.
#[derive(Debug, Clone)]
pub struct StoreError {
    pub message: String,
}

/// The durable store. It owns the single connection to the database file.
pub struct PersistentCache {
    conn: rusqlite::Connection,
}

// ---------------------------------------------------------------------------
// Calls into the database
// ---------------------------------------------------------------------------
/// `rusqlite::Connection::open`: opens the database file at `path`, creating it if
/// it is missing. Nothing is claimed of the outcome.
#[verifier::external_body]
fn db_open(path: &str) -> Result<rusqlite::Connection, rusqlite::Error> {
    rusqlite::Connection::open(path)
}

/// `rusqlite::Connection::execute_batch`: runs the statements of `sql`. Nothing is
/// claimed of the outcome.
#[verifier::external_body]
fn db_batch(conn: &rusqlite::Connection, sql: &str) -> Result<(), rusqlite::Error> {
    conn.execute_batch(sql)
}

/// `rusqlite::Connection::execute` with one text parameter. Nothing is claimed of the
/// outcome.
#[verifier::external_body]
fn db_exec_key(conn: &rusqlite::Connection, sql: &str, key: &str) -> Result<
    usize,
    rusqlite::Error,
> {
    conn.execute(sql, (key,))
}

/// `rusqlite::Connection::execute` with two text parameters. Nothing is claimed of the
/// outcome.
#[verifier::external_body]
fn db_exec_pair(conn: &rusqlite::Connection, sql: &str, a: &str, b: &str) -> Result<
    usize,
    rusqlite::Error,
> {
    conn.execute(sql, (a, b))
}

/// `rusqlite::Connection::execute` with two text parameters and an optional one.
/// Nothing is claimed of the outcome.
#[verifier::external_body]
fn db_exec_ref(
    conn: &rusqlite::Connection,
    sql: &str,
    workspace: &str,
    key: &str,
    updated: &Option<String>,
) -> Result<usize, rusqlite::Error> {
    conn.execute(sql, (workspace, key, updated))
}

/// `rusqlite::Connection::execute` with a key, a blob, an optional text and a text.
/// Nothing is claimed of the outcome.
#[verifier::external_body]
fn db_exec_blob(
    conn: &rusqlite::Connection,
    sql: &str,
    key: &str,
    blob: &Vec<u8>,
    updated: &Option<String>,
    stamp: &str,
) -> Result<usize, rusqlite::Error> {
    conn.execute(sql, (key, blob, updated, stamp))
}

/// `rusqlite::Connection::query_row` for a blob and an optional text, with
/// `OptionalExtension::optional`: no row is `None`. Nothing else is claimed.
#[verifier::external_body]
fn db_query_issue(conn: &rusqlite::Connection, sql: &str, key: &str) -> Result<
    Option<(Vec<u8>, Option<String>)>,
    rusqlite::Error,
> {
    conn.query_row(sql, (key,), |row| Ok((row.get(0)?, row.get(1)?))).optional()
}

/// `rusqlite::Connection::query_row` for one text column, with
/// `OptionalExtension::optional`: no row is `None`. Nothing else is claimed.
#[verifier::external_body]
fn db_query_text(conn: &rusqlite::Connection, sql: &str, key: &str) -> Result<
    Option<String>,
    rusqlite::Error,
> {
    conn.query_row(sql, (key,), |row| row.get(0)).optional()
}

/// `rusqlite::Connection::query_row` for one blob column, with
/// `OptionalExtension::optional`: no row is `None`. Nothing else is claimed.
#[verifier::external_body]
fn db_query_blob(conn: &rusqlite::Connection, sql: &str, key: &str) -> Result<
    Option<Vec<u8>>,
    rusqlite::Error,
> {
    conn.query_row(sql, (key,), |row| row.get(0)).optional()
}

/// `rusqlite::Connection::query_row` for one integer column, with
/// `OptionalExtension::optional`: no row is `None`. Nothing else is claimed.
#[verifier::external_body]
fn db_query_int(conn: &rusqlite::Connection, sql: &str, key: &str) -> Result<
    Option<i64>,
    rusqlite::Error,
> {
    conn.query_row(sql, (key,), |row| row.get(0)).optional()
}

/// `rusqlite::Statement::query_map` over a prepared statement with one text parameter:
/// every row as a text and an optional text, in the order the database gives them.
/// Nothing is claimed of the outcome.
#[verifier::external_body]
fn db_query_refs(conn: &rusqlite::Connection, sql: &str, workspace: &str) -> Result<
    Vec<(String, Option<String>)>,
    rusqlite::Error,
> {
    let mut stmt = conn.prepare(sql)?;
    let rows = stmt.query_map((workspace,), |row| Ok((row.get(0)?, row.get(1)?)))?;
    rows.collect()
}

/// `rusqlite::Transaction::new_unchecked` with deferred behaviour: begins a
/// transaction that rolls back when dropped. Nothing is claimed of the outcome.
#[verifier::external_body]
fn tx_begin<'a>(conn: &'a rusqlite::Connection) -> Result<
    rusqlite::Transaction<'a>,
    rusqlite::Error,
> {
    rusqlite::Transaction::new_unchecked(conn, rusqlite::TransactionBehavior::Deferred)
}

/// The connection a transaction runs on (`Deref` of `rusqlite::Transaction`).
#[verifier::external_body]
fn tx_conn<'a, 'b>(tx: &'b rusqlite::Transaction<'a>) -> &'b rusqlite::Connection {
    tx
}

/// `rusqlite::Transaction::commit`. Nothing is claimed of the outcome.
#[verifier::external_body]
fn tx_commit<'a>(tx: rusqlite::Transaction<'a>) -> Result<(), rusqlite::Error> {
    tx.commit()
}

/// The database's description of an error (`Display` of `rusqlite::Error`).
#[verifier::external_body]
fn db_error_text(e: &rusqlite::Error) -> String {
    e.to_string()
}

/// `std::time::SystemTime::now` as whole seconds since the Unix epoch, `None` if the
/// clock stands before it. Nothing is claimed of the reading.
#[verifier::external_body]
fn unix_epoch_seconds() -> Option<u64> {
    match std::time::SystemTime::now().duration_since(std::time::UNIX_EPOCH) {
        Ok(since) => Some(since.as_secs()),
        Err(_) => None,
    }
}

// ---------------------------------------------------------------------------
// Values from rows
// ---------------------------------------------------------------------------
/// The byte length that the database's `length()` reports, never negative.
pub open spec fn blob_len(len: i64) -> u64 {
    if len < 0 {
        0
    } else {
        len as u64
    }
}

/// The byte length that the database's `length()` reports, never negative.
pub fn blob_len_from(len: i64) -> (r: u64)
    ensures
        r == blob_len(len),
{
    if len < 0 {
        0
    } else {
        len as u64
    }
}

/// The `LIKE` pattern that matches the keys of a project: the prefix, a hyphen, and
/// anything after it.
pub open spec fn project_pattern(project_prefix: Seq<char>) -> Seq<char> {
    project_prefix + "-%"@
}

/// The `LIKE` pattern that matches the keys of the project `project_prefix`.
pub fn project_pattern_of(project_prefix: &str) -> (pattern: String)
    ensures
        pattern@ == project_pattern(project_prefix@),
{
    let mut pattern = crate::text::chars_of(project_prefix);
    crate::text::push_str(&mut pattern, "-%");
    crate::text::string_of(&pattern)
}

/// The count that the database's `COUNT(*)` stands for: never negative, and the
/// largest count where it is beyond one.
pub open spec fn row_count(answer: i64) -> usize {
    if blob_len(answer) <= usize::MAX {
        blob_len(answer) as usize
    } else {
        usize::MAX
    }
}

/// What a count query gives: the count of its one row, and an error where the
/// database gave no row.
pub fn count_from(answer: Option<i64>) -> (r: Result<usize, StoreError>)
    ensures
        match answer {
            Some(n) => r matches Ok(count) && count == row_count(n),
            None => r matches Err(e) && e.message@ == "query returned no rows"@,
        },
{
    match answer {
        Some(n) => {
            let n = blob_len_from(n);
            if n <= usize::MAX as u64 {
                Ok(n as usize)
            } else {
                Ok(usize::MAX)
            }
        },
        None => Err(StoreError { message: crate::text::owned("query returned no rows") }),
    }
}

/// The byte length that a length query gives: that of its row, where there is one.
pub open spec fn row_length(answer: Option<i64>) -> Option<u64> {
    match answer {
        Some(n) => Some(blob_len(n)),
        None => None,
    }
}

/// The byte length that a length query gives: that of its row, where there is one.
pub fn length_from(answer: Option<i64>) -> (r: Option<u64>)
    ensures
        r == row_length(answer),
{
    match answer {
        Some(n) => Some(blob_len_from(n)),
        None => None,
    }
}

/// The stored issue that a row of bytes and timestamp stands for.
pub fn issue_from_row(row: Option<(Vec<u8>, Option<String>)>) -> (r: Option<PersistentIssue>)
    ensures
        match row {
            Some(found) => r matches Some(issue) && issue.markdown == found.0 && issue.updated
                == found.1,
            None => r is None,
        },
{
    match row {
        Some((markdown, updated)) => Some(PersistentIssue { markdown, updated }),
        None => None,
    }
}

/// The listing entries that rows of key and timestamp stand for, in the rows' order.
pub fn refs_from_rows(rows: Vec<(String, Option<String>)>) -> (refs: Vec<IssueRef>)
    ensures
        refs.len() == rows.len(),
        forall|i: int|
            0 <= i < rows.len() ==> (#[trigger] refs[i]).key == rows[i].0 && refs[i].updated
                == rows[i].1,
{
    let mut refs: Vec<IssueRef> = Vec::new();
    let mut i: usize = 0;
    while i < rows.len()
        invariant
            i <= rows.len(),
            refs.len() == i,
            forall|k: int|
                0 <= k < i ==> (#[trigger] refs[k]).key == rows[k].0 && refs[k].updated
                    == rows[k].1,
        decreases rows.len() - i,
    {
        refs.push(
            IssueRef { key: rows[i].0.clone(), updated: crate::text::copy_opt(&rows[i].1) },
        );
        i += 1;
    }
    refs
}

fn store_error(e: rusqlite::Error) -> StoreError {
    StoreError { message: db_error_text(&e) }
}

/// The text stored in `cached_at` for a reading of the clock: the seconds since the
/// Unix epoch in decimal, and `0` for a clock that stands before it.
pub open spec fn stamp_text(reading: Option<u64>) -> Seq<char> {
    match reading {
        Some(secs) => decimal(secs as nat),
        None => decimal(0),
    }
}

/// The text stored in `cached_at` for a reading of the clock.
pub fn stamp_from(reading: Option<u64>) -> (r: String)
    ensures
        r@ == stamp_text(reading),
{
    let secs = match reading {
        Some(secs) => secs,
        None => 0,
    };
    let v = crate::decimal::decimal_chars(secs);
    crate::text::string_of(&v)
}

/// The current time as the text stored in `cached_at`. Whatever the clock reads, it
/// is the stamp of that reading.
fn unix_epoch_seconds_string() -> (r: String)
    ensures
        exists|reading: Option<u64>| r@ == #[trigger] stamp_text(reading),
{
    let reading = unix_epoch_seconds();
    let r = stamp_from(reading);
    assert(r@ == stamp_text(reading));
    r
}

// ---------------------------------------------------------------------------
// Statements
// ---------------------------------------------------------------------------
pub const SCHEMA_SQL: &'static str = "
CREATE TABLE IF NOT EXISTS issues (
  issue_key TEXT PRIMARY KEY,
  markdown BLOB NOT NULL,
  updated TEXT,
  cached_at TEXT NOT NULL,
  access_count INTEGER NOT NULL DEFAULT 0
);

CREATE TABLE IF NOT EXISTS sync_cursor (
  workspace TEXT PRIMARY KEY,
  last_sync TEXT NOT NULL
);

CREATE TABLE IF NOT EXISTS workspace_issues (
  workspace TEXT NOT NULL,
  issue_key TEXT NOT NULL,
  updated TEXT,
  PRIMARY KEY(workspace, issue_key)
);

CREATE INDEX IF NOT EXISTS idx_workspace_issues_issue_key ON workspace_issues(issue_key);

CREATE TABLE IF NOT EXISTS issue_sidecars (
  issue_key TEXT PRIMARY KEY,
  comments_md BLOB NOT NULL,
  updated TEXT,
  cached_at TEXT NOT NULL
);
";

pub const UPSERT_ISSUE_SQL: &'static str = "
INSERT INTO issues(issue_key, markdown, updated, cached_at, access_count)
VALUES (?1, ?2, ?3, ?4, 1)
ON CONFLICT(issue_key) DO UPDATE SET
  markdown = excluded.markdown,
  updated = excluded.updated,
  cached_at = excluded.cached_at,
  access_count = issues.access_count + 1
";

pub const UPSERT_SIDECAR_SQL: &'static str = "
INSERT INTO issue_sidecars(issue_key, comments_md, updated, cached_at)
VALUES (?1, ?2, ?3, ?4)
ON CONFLICT(issue_key) DO UPDATE SET
  comments_md = excluded.comments_md,
  updated = excluded.updated,
  cached_at = excluded.cached_at
";

pub const SET_CURSOR_SQL: &'static str = "
INSERT INTO sync_cursor(workspace, last_sync)
VALUES (?1, ?2)
ON CONFLICT(workspace) DO UPDATE SET
  last_sync = excluded.last_sync
";

/// The stored bytes and source timestamp of one issue.
pub const GET_ISSUE_SQL: &'static str = "SELECT markdown, updated FROM issues WHERE issue_key = ?1";

/// Counts one access in the row of one issue.
pub const COUNT_ACCESS_SQL: &'static str =
    "UPDATE issues SET access_count = access_count + 1 WHERE issue_key = ?1";

/// The cursor of one workspace.
pub const GET_CURSOR_SQL: &'static str = "SELECT last_sync FROM sync_cursor WHERE workspace = ?1";

/// Removes the cursor of one workspace.
pub const CLEAR_CURSOR_SQL: &'static str = "DELETE FROM sync_cursor WHERE workspace = ?1";

/// How many issues have a key that matches a pattern.
pub const COUNT_ISSUES_SQL: &'static str = "SELECT COUNT(*) FROM issues WHERE issue_key LIKE ?1";

/// The byte length of the stored markdown of one issue.
pub const ISSUE_LEN_SQL: &'static str = "SELECT length(markdown) FROM issues WHERE issue_key = ?1";

/// Removes the listing of one workspace.
pub const CLEAR_LISTING_SQL: &'static str = "DELETE FROM workspace_issues WHERE workspace = ?1";

/// Adds one entry to the listing of a workspace.
pub const INSERT_REF_SQL: &'static str =
    "INSERT INTO workspace_issues(workspace, issue_key, updated) VALUES (?1, ?2, ?3)";

/// The listing of one workspace, in ascending order of key.
pub const LIST_REFS_SQL: &'static str =
    "SELECT issue_key, updated FROM workspace_issues WHERE workspace = ?1 ORDER BY issue_key ASC";

/// The stored comments sidecar of one issue.
pub const GET_SIDECAR_SQL: &'static str =
    "SELECT comments_md FROM issue_sidecars WHERE issue_key = ?1";

/// The byte length of the stored comments sidecar of one issue.
pub const SIDECAR_LEN_SQL: &'static str =
    "SELECT length(comments_md) FROM issue_sidecars WHERE issue_key = ?1";

impl PersistentCache {
    /// Opens the database at `path`, creating the file and the four tables where
    /// they are missing.
    pub fn new(path: &str) -> (r: Result<PersistentCache, StoreError>) {
        let conn = match db_open(path) {
            Ok(c) => c,
            Err(e) => {
                return Err(store_error(e));
            },
        };
        match db_batch(&conn, SCHEMA_SQL) {
            Ok(()) => Ok(PersistentCache { conn }),
            Err(e) => Err(store_error(e)),
        }
    }

    /// The stored issue for `issue_key`, if there is one. A hit also counts one
    /// access in the issue's row.
    pub fn get_issue(&self, issue_key: &str) -> (r: Result<Option<PersistentIssue>, StoreError>) {
        let found = match db_query_issue(
            &self.conn,
            GET_ISSUE_SQL,
            issue_key,
        ) {
            Ok(f) => f,
            Err(e) => {
                return Err(store_error(e));
            },
        };
        if found.is_none() {
            return Ok(None);
        }
        match db_exec_key(
            &self.conn,
            COUNT_ACCESS_SQL,
            issue_key,
        ) {
            Ok(_) => Ok(issue_from_row(found)),
            Err(e) => Err(store_error(e)),
        }
    }

    /// Stores `markdown` and `updated` for `issue_key`, replacing what was stored,
    /// stamps the row with the current time and counts one access.
    pub fn upsert_issue(&self, issue_key: &str, markdown: &Vec<u8>, updated: &Option<String>) -> (r:
        Result<(), StoreError>) {
        let now = unix_epoch_seconds_string();
        match db_exec_blob(&self.conn, UPSERT_ISSUE_SQL, issue_key, markdown, updated, now.as_str()) {
            Ok(_) => Ok(()),
            Err(e) => Err(store_error(e)),
        }
    }

    /// Stores every row of `issues` in one transaction. On success the count is the
    /// number of rows; on any failure nothing of the batch is kept.
    pub fn upsert_issues_batch(&self, issues: &Vec<PersistentIssueRow>) -> (r: Result<
        usize,
        StoreError,
    >)
        ensures
            r matches Ok(n) ==> n == issues.len(),
    {
        self.upsert_rows(UPSERT_ISSUE_SQL, issues)
    }

    /// Stores every row of `rows` with the statement `sql` in one transaction.
    fn upsert_rows(&self, sql: &str, rows: &Vec<(String, Vec<u8>, Option<String>)>) -> (r: Result<
        usize,
        StoreError,
    >)
        ensures
            r matches Ok(n) ==> n == rows.len(),
    {
        let now = unix_epoch_seconds_string();
        let tx = match tx_begin(&self.conn) {
            Ok(t) => t,
            Err(e) => {
                return Err(store_error(e));
            },
        };
        let mut count: usize = 0;
        while count < rows.len()
            invariant
                count <= rows.len(),
            decreases rows.len() - count,
        {
            let row = &rows[count];
            match db_exec_blob(tx_conn(&tx), sql, row.0.as_str(), &row.1, &row.2, now.as_str()) {
                Ok(_) => {},
                Err(e) => {
                    return Err(store_error(e));
                },
            }
            count += 1;
        }
        match tx_commit(tx) {
            Ok(()) => Ok(count),
            Err(e) => Err(store_error(e)),
        }
    }

    /// The cursor stored for `workspace`, if there is one.
    pub fn get_sync_cursor(&self, workspace: &str) -> (r: Result<Option<String>, StoreError>) {
        match db_query_text(
            &self.conn,
            GET_CURSOR_SQL,
            workspace,
        ) {
            Ok(v) => Ok(v),
            Err(e) => Err(store_error(e)),
        }
    }

    /// Stores `last_sync` as the cursor of `workspace`, replacing an earlier one.
    pub fn set_sync_cursor(&self, workspace: &str, last_sync: &str) -> (r: Result<(), StoreError>) {
        match db_exec_pair(&self.conn, SET_CURSOR_SQL, workspace, last_sync) {
            Ok(_) => Ok(()),
            Err(e) => Err(store_error(e)),
        }
    }

    /// Removes the cursor of `workspace`.
    pub fn clear_sync_cursor(&self, workspace: &str) -> (r: Result<(), StoreError>) {
        match db_exec_key(&self.conn, CLEAR_CURSOR_SQL, workspace) {
            Ok(_) => Ok(()),
            Err(e) => Err(store_error(e)),
        }
    }

    /// How many stored issues have a key that begins with `project_prefix` and a hyphen.
    /// Whatever the database answers, a count is the count of its answer.
    pub fn cached_issue_count(&self, project_prefix: &str) -> (r: Result<usize, StoreError>)
        ensures
            r matches Ok(n) ==> exists|answer: i64| n == #[trigger] row_count(answer),
    {
        let pattern = project_pattern_of(project_prefix);
        match db_query_int(
            &self.conn,
            COUNT_ISSUES_SQL,
            pattern.as_str(),
        ) {
            Ok(answer) => {
                let r = count_from(answer);
                assert(r matches Ok(n) ==> answer matches Some(k) && n == row_count(k));
                r
            },
            Err(e) => Err(store_error(e)),
        }
    }

    /// The byte length of the stored markdown of `issue_key`, if it is stored. Whatever
    /// the database answers, the length is that of its answer.
    pub fn issue_markdown_len(&self, issue_key: &str) -> (r: Result<Option<u64>, StoreError>)
        ensures
            r matches Ok(len) ==> exists|answer: Option<i64>| len == #[trigger] row_length(answer),
    {
        match db_query_int(
            &self.conn,
            ISSUE_LEN_SQL,
            issue_key,
        ) {
            Ok(answer) => {
                let len = length_from(answer);
                assert(len == row_length(answer));
                Ok(len)
            },
            Err(e) => Err(store_error(e)),
        }
    }

    /// Replaces the stored listing of `workspace` by `issue_refs`, in one
    /// transaction: the old rows are deleted, then one row per entry is inserted.
    pub fn upsert_workspace_issue_refs(&self, workspace: &str, issue_refs: &Vec<IssueRef>) -> (r:
        Result<(), StoreError>) {
        let tx = match tx_begin(&self.conn) {
            Ok(t) => t,
            Err(e) => {
                return Err(store_error(e));
            },
        };
        match db_exec_key(
            tx_conn(&tx),
            CLEAR_LISTING_SQL,
            workspace,
        ) {
            Ok(_) => {},
            Err(e) => {
                return Err(store_error(e));
            },
        }
        let mut i: usize = 0;
        while i < issue_refs.len()
            invariant
                i <= issue_refs.len(),
            decreases issue_refs.len() - i,
        {
            let issue = &issue_refs[i];
            match db_exec_ref(
                tx_conn(&tx),
                INSERT_REF_SQL,
                workspace,
                issue.key.as_str(),
                &issue.updated,
            ) {
                Ok(_) => {},
                Err(e) => {
                    return Err(store_error(e));
                },
            }
            i += 1;
        }
        match tx_commit(tx) {
            Ok(()) => Ok(()),
            Err(e) => Err(store_error(e)),
        }
    }

    /// The stored listing of `workspace`, which the database orders by key, ascending.
    pub fn list_workspace_issue_refs(&self, workspace: &str) -> (r: Result<
        Vec<IssueRef>,
        StoreError,
    >) {
        match db_query_refs(
            &self.conn,
            LIST_REFS_SQL,
            workspace,
        ) {
            Ok(rows) => Ok(refs_from_rows(rows)),
            Err(e) => Err(store_error(e)),
        }
    }

    /// Stores the comments sidecar of `issue_key`, replacing what was stored.
    pub fn upsert_issue_sidecars(
        &self,
        issue_key: &str,
        comments_md: &Vec<u8>,
        updated: &Option<String>,
    ) -> (r: Result<(), StoreError>) {
        let now = unix_epoch_seconds_string();
        match db_exec_blob(
            &self.conn,
            UPSERT_SIDECAR_SQL,
            issue_key,
            comments_md,
            updated,
            now.as_str(),
        ) {
            Ok(_) => Ok(()),
            Err(e) => Err(store_error(e)),
        }
    }

    /// Stores every sidecar of `sidecars` in one transaction. On success the count is
    /// the number of rows; on any failure nothing of the batch is kept.
    pub fn upsert_issue_sidecars_batch(&self, sidecars: &Vec<PersistentSidecarRow>) -> (r: Result<
        usize,
        StoreError,
    >)
        ensures
            r matches Ok(n) ==> n == sidecars.len(),
    {
        self.upsert_rows(UPSERT_SIDECAR_SQL, sidecars)
    }

    /// The stored comments sidecar of `issue_key`, if there is one.
    pub fn get_issue_comments_md(&self, issue_key: &str) -> (r: Result<
        Option<Vec<u8>>,
        StoreError,
    >) {
        match db_query_blob(
            &self.conn,
            GET_SIDECAR_SQL,
            issue_key,
        ) {
            Ok(v) => Ok(v),
            Err(e) => Err(store_error(e)),
        }
    }

    /// The byte length of the stored comments sidecar of `issue_key`, if it is stored.
    /// Whatever the database answers, the length is that of its answer.
    pub fn issue_comments_md_len(&self, issue_key: &str) -> (r: Result<Option<u64>, StoreError>)
        ensures
            r matches Ok(len) ==> exists|answer: Option<i64>| len == #[trigger] row_length(answer),
    {
        match db_query_int(
            &self.conn,
            SIDECAR_LEN_SQL,
            issue_key,
        ) {
            Ok(answer) => {
                let len = length_from(answer);
                assert(len == row_length(answer));
                Ok(len)
            },
            Err(e) => Err(store_error(e)),
        }
    }
}

} // verus!
