//! The operations of the virtual filesystem.

use vstd::prelude::*;
use std::collections::HashMap;
use crate::cache::{
    CacheModel, InMemoryCache, cached_len, is_stale, listed, listing_of, snapshot_metrics,
    with_fresh,
};
use crate::fs::inode::{
    INO_FULL_REFRESH, INO_LAST_FULL_SYNC, INO_LAST_SYNC, INO_MANUAL_REFRESH, INO_ROOT,
    INO_SECONDS_TO_NEXT, INO_SYNC_META, INO_WORKSPACES, comments_inode, inode_for_issue,
    inode_for_issue_comments, inode_for_workspace, is_meta_file, is_trigger_file, issue_inode,
    meta_file, trigger_file, workspace_inode,
};
use crate::fs::layout::{
    DirEntry, DirEntryView, Errno, FileAttr, FileType, IssueFileKind, Node, NodeView, comments_name,
    comments_placeholder, comments_placeholder_bytes, dir_attr, dir_attr_of, entry_views, file_attr,
    file_attr_of, file_inode, inode_for_issue_kind, main_name, main_placeholder,
    main_placeholder_bytes, meta_bytes, parse_issue_name, read_window, split_issue_name,
    sync_meta_file_content, window,
};
use crate::jira::{IssueRef, ref_views};
use crate::metrics::{Metrics, after_hit, after_miss, after_stale};
use crate::sync_state::{SyncState, SyncOp, step};
use crate::text::{
    chars_of, lossy_string, lowercase_string, owned, push_str, str_eq, string_of, trim,
    unicode_lowercase, utf8_lossy_text,
};
use vstd::utf8::encode_utf8;

verus! {

/// The filesystem: who owns the files, the configured workspaces, the cache, the
/// coordinator's record, the counters, and the inodes handed out so far.
pub struct JiraFuseFs {
    pub uid: u32,
    pub gid: u32,
    /// The workspaces in the order they are listed: name and query.
    pub workspaces: Vec<(String, String)>,
    pub cache: InMemoryCache,
    pub sync_budget: usize,
    pub sync_state: SyncState,
    pub metrics: Metrics,
    pub initial_sync_started: bool,
    pub nodes: HashMap<u64, Node>,
}

/// The filesystem as plain values.
pub struct FsModel {
    pub uid: u32,
    pub gid: u32,
    pub workspaces: Seq<Seq<char>>,
    pub cache: CacheModel,
    pub sync_budget: usize,
    pub sync: SyncState,
    pub metrics: Metrics,
    pub initial_sync_started: bool,
    pub nodes: Map<u64, NodeView>,
}

/// The names of the configured workspaces.
pub open spec fn workspace_names(workspaces: Seq<(String, String)>) -> Seq<Seq<char>> {
    workspaces.map_values(|w: (String, String)| w.0@)
}

/// The inode map with names as character sequences.
pub open spec fn node_views(nodes: Map<u64, Node>) -> Map<u64, NodeView> {
    Map::new(|i: u64| nodes.contains_key(i), |i: u64| nodes[i]@)
}

impl View for JiraFuseFs {
    type V = FsModel;

    open spec fn view(&self) -> FsModel {
        FsModel {
            uid: self.uid,
            gid: self.gid,
            workspaces: workspace_names(self.workspaces@),
            cache: self.cache@,
            sync_budget: self.sync_budget,
            sync: self.sync_state,
            metrics: self.metrics,
            initial_sync_started: self.initial_sync_started,
            nodes: node_views(self.nodes@),
        }
    }
}

/// One line of a directory: inode, type and name.
pub type Listed = (u64, FileType, Seq<char>);

/// What `ino` stands for: a fixed directory, a meta file, or what was handed out
/// for it.
pub open spec fn node_of(nodes: Map<u64, NodeView>, ino: u64) -> Option<NodeView> {
    if ino == INO_SYNC_META {
        Some(NodeView::SyncMeta)
    } else if ino == INO_WORKSPACES {
        Some(NodeView::Workspaces)
    } else if is_meta_file(ino) {
        Some(NodeView::SyncMetaFile)
    } else {
        nodes.get(ino)
    }
}

/// The first of `names` whose derived inode is `ino`.
pub open spec fn hashed_workspace(names: Seq<Seq<char>>, ino: u64) -> Option<Seq<char>>
    decreases names.len(),
{
    if names.len() == 0 {
        None
    } else if workspace_inode(names[0]) == ino {
        Some(names[0])
    } else {
        hashed_workspace(names.drop_first(), ino)
    }
}

/// The workspace whose directory `ino` is: the one handed out for it, else the
/// first configured one whose derived inode it is.
pub open spec fn workspace_of(m: FsModel, ino: u64) -> Option<Seq<char>> {
    match m.nodes.get(ino) {
        Some(NodeView::Workspace { name }) => Some(name),
        _ => hashed_workspace(m.workspaces, ino),
    }
}

/// The inode of the meta file named `name`.
pub open spec fn meta_inode(name: Seq<char>) -> Option<u64> {
    if name == "last_sync"@ {
        Some(INO_LAST_SYNC)
    } else if name == "last_full_sync"@ {
        Some(INO_LAST_FULL_SYNC)
    } else if name == "seconds_to_next_sync"@ {
        Some(INO_SECONDS_TO_NEXT)
    } else if name == "manual_refresh"@ {
        Some(INO_MANUAL_REFRESH)
    } else if name == "full_refresh"@ {
        Some(INO_FULL_REFRESH)
    } else {
        None
    }
}

/// What a name under a directory leads to.
pub enum Target {
    /// Nothing.
    Missing,
    /// One of the fixed directories.
    FixedDir(u64),
    /// One of the five meta files.
    MetaFile(u64),
    /// The directory of a configured workspace.
    WorkspaceDir(Seq<char>),
    /// A file of an issue that the workspace lists.
    IssueFile { workspace: Seq<char>, key: Seq<char>, kind: IssueFileKind },
}

/// What `name` under the directory `parent` leads to.
pub open spec fn lookup_target(m: FsModel, parent: u64, name: Seq<char>) -> Target {
    if parent == INO_ROOT {
        if name == ".sync_meta"@ {
            Target::FixedDir(INO_SYNC_META)
        } else if name == "workspaces"@ {
            Target::FixedDir(INO_WORKSPACES)
        } else {
            Target::Missing
        }
    } else if parent == INO_SYNC_META {
        match meta_inode(name) {
            Some(ino) => Target::MetaFile(ino),
            None => Target::Missing,
        }
    } else if parent == INO_WORKSPACES {
        if m.workspaces.contains(name) {
            Target::WorkspaceDir(name)
        } else {
            Target::Missing
        }
    } else {
        match workspace_of(m, parent) {
            Some(workspace) => match split_issue_name(name) {
                Some((key, kind)) => if listed(listing_of(m.cache, workspace), key) {
                    Target::IssueFile { workspace, key, kind }
                } else {
                    Target::Missing
                },
                None => Target::Missing,
            },
            None => Target::Missing,
        }
    }
}

/// Whether a lookup of `name` under `parent` reads the listing of a workspace, and of
/// which.
pub open spec fn lookup_reads_listing(m: FsModel, parent: u64, name: Seq<char>) -> Option<
    Seq<char>,
> {
    if parent == INO_ROOT || parent == INO_SYNC_META || parent == INO_WORKSPACES {
        None
    } else if split_issue_name(name) is Some {
        workspace_of(m, parent)
    } else {
        None
    }
}

/// The counters after an operation that reads the listing of `workspace`, if it
/// reads one.
pub open spec fn metrics_after_listing(m: FsModel, workspace: Option<Seq<char>>, now: u64) -> Metrics {
    match workspace {
        Some(w) => snapshot_metrics(m.cache, w, now, m.metrics),
        None => m.metrics,
    }
}

/// The inodes handed out after a lookup that led to `target`.
pub open spec fn nodes_after_lookup(nodes: Map<u64, NodeView>, target: Target) -> Map<
    u64,
    NodeView,
> {
    match target {
        Target::WorkspaceDir(name) => nodes.insert(
            workspace_inode(name),
            NodeView::Workspace { name },
        ),
        Target::IssueFile { workspace, key, kind } => nodes.insert(
            file_inode(workspace, key, kind),
            NodeView::Issue { key, kind },
        ),
        _ => nodes,
    }
}

/// The size reported for an issue's file of kind `kind`, given the length `cached`
/// that memory holds for the issue and the length `persisted` that the durable store
/// gave for the file. A main file has the length in memory, else the stored length,
/// else zero. A comments file has the stored length, else 64.
pub open spec fn size_of(cached: Option<u64>, persisted: Option<u64>, kind: IssueFileKind) -> u64 {
    match kind {
        IssueFileKind::Main => match cached {
            Some(n) => n,
            None => match persisted {
                Some(n) => n,
                None => 0,
            },
        },
        IssueFileKind::CommentsMarkdown => match persisted {
            Some(n) => n,
            None => 64,
        },
    }
}

/// The size reported for an issue's file of kind `kind`, given the length in memory
/// and the length that the durable store gave.
pub fn size_from(cached: Option<u64>, persisted: Option<u64>, kind: IssueFileKind) -> (size: u64)
    ensures
        size == size_of(cached, persisted, kind),
{
    match kind {
        IssueFileKind::Main => match cached {
            Some(n) => n,
            None => match persisted {
                Some(n) => n,
                None => 0,
            },
        },
        IssueFileKind::CommentsMarkdown => match persisted {
            Some(n) => n,
            None => 64,
        },
    }
}

/// Whether `size` may be the size reported for the file of kind `kind` of `key`: it
/// is the size that follows from the length in memory and from some answer of the
/// durable store, which without a store is no answer.
pub open spec fn size_fits(cache: CacheModel, key: Seq<char>, kind: IssueFileKind, size: u64) -> bool {
    exists|persisted: Option<u64>|
        {
            &&& !cache.has_store ==> persisted is None
            &&& size == #[trigger] size_of(cached_len(cache, key), persisted, kind)
        }
}

/// The bytes of an issue's comments file, given the sidecar `persisted` that the
/// durable store gave for it: the sidecar, else the placeholder.
pub open spec fn comments_bytes(key: Seq<char>, persisted: Option<Seq<u8>>) -> Seq<u8> {
    match persisted {
        Some(bytes) => bytes,
        None => encode_utf8(comments_placeholder(key)),
    }
}

/// What a stored sidecar holds, as plain bytes.
pub open spec fn sidecar_view(persisted: Option<Vec<u8>>) -> Option<Seq<u8>> {
    match persisted {
        Some(bytes) => Some(bytes@),
        None => None,
    }
}

/// The bytes of the comments file of `issue_key`, given the sidecar that the durable
/// store gave for it.
pub fn comments_from(issue_key: &str, persisted: Option<Vec<u8>>) -> (bytes: Vec<u8>)
    ensures
        bytes@ == comments_bytes(issue_key@, sidecar_view(persisted)),
{
    match persisted {
        Some(bytes) => bytes,
        None => comments_placeholder_bytes(issue_key),
    }
}

/// Whether `bytes` may be the content of the comments file of `key`: the content that
/// follows from some answer of the durable store, which without a store is no answer.
pub open spec fn comments_fit(cache: CacheModel, key: Seq<char>, bytes: Seq<u8>) -> bool {
    exists|persisted: Option<Seq<u8>>|
        {
            &&& !cache.has_store ==> persisted is None
            &&& bytes == #[trigger] comments_bytes(key, persisted)
        }
}

/// Without a durable store memory alone decides the size of an issue's file: a main
/// file has the length in memory, or zero, and a comments file has 64 bytes.
pub proof fn lemma_size_without_store(cache: CacheModel, key: Seq<char>, kind: IssueFileKind, size: u64)
    requires
        !cache.has_store,
        size_fits(cache, key, kind, size),
    ensures
        size == size_of(cached_len(cache, key), None, kind),
{
}

/// Without a durable store the comments file of an issue is the placeholder.
pub proof fn lemma_comments_without_store(cache: CacheModel, key: Seq<char>, bytes: Seq<u8>)
    requires
        !cache.has_store,
        comments_fit(cache, key, bytes),
    ensures
        bytes == encode_utf8(comments_placeholder(key)),
{
}

/// The lines of the root directory.
pub open spec fn root_listing() -> Seq<Listed> {
    seq![
        (INO_ROOT, FileType::Directory, "."@),
        (INO_ROOT, FileType::Directory, ".."@),
        (INO_SYNC_META, FileType::Directory, ".sync_meta"@),
        (INO_WORKSPACES, FileType::Directory, "workspaces"@),
    ]
}

/// The lines of `.sync_meta`.
pub open spec fn meta_listing() -> Seq<Listed> {
    seq![
        (INO_SYNC_META, FileType::Directory, "."@),
        (INO_ROOT, FileType::Directory, ".."@),
        (INO_LAST_SYNC, FileType::RegularFile, "last_sync"@),
        (INO_LAST_FULL_SYNC, FileType::RegularFile, "last_full_sync"@),
        (INO_SECONDS_TO_NEXT, FileType::RegularFile, "seconds_to_next_sync"@),
        (INO_MANUAL_REFRESH, FileType::RegularFile, "manual_refresh"@),
        (INO_FULL_REFRESH, FileType::RegularFile, "full_refresh"@),
    ]
}

/// One line per workspace of `names[..n]`.
pub open spec fn workspace_lines(names: Seq<Seq<char>>, n: int) -> Seq<Listed>
    decreases n,
{
    if n <= 0 {
        Seq::empty()
    } else {
        workspace_lines(names, n - 1).push(
            (workspace_inode(names[n - 1]), FileType::Directory, names[n - 1]),
        )
    }
}

/// Two lines per issue of `issues[..n]`: the main file, then the comments file.
pub open spec fn issue_lines(
    workspace: Seq<char>,
    issues: Seq<(Seq<char>, Option<Seq<char>>)>,
    n: int,
) -> Seq<Listed>
    decreases n,
{
    if n <= 0 {
        Seq::empty()
    } else {
        issue_lines(workspace, issues, n - 1).push(
            (
                issue_inode(workspace, issues[n - 1].0),
                FileType::RegularFile,
                main_name(issues[n - 1].0),
            ),
        ).push(
            (
                comments_inode(workspace, issues[n - 1].0),
                FileType::RegularFile,
                comments_name(issues[n - 1].0),
            ),
        )
    }
}

/// The two lines every directory begins with.
pub open spec fn dot_lines(ino: u64, parent: u64) -> Seq<Listed> {
    seq![(ino, FileType::Directory, "."@), (parent, FileType::Directory, ".."@)]
}

/// The lines of the directory `ino`, or `None` where `ino` is no directory that can
/// be listed.
pub open spec fn directory_listing(m: FsModel, ino: u64) -> Option<Seq<Listed>> {
    if ino == INO_ROOT {
        Some(root_listing())
    } else if ino == INO_SYNC_META {
        Some(meta_listing())
    } else if ino == INO_WORKSPACES {
        Some(
            dot_lines(INO_WORKSPACES, INO_ROOT) + workspace_lines(
                m.workspaces,
                m.workspaces.len() as int,
            ),
        )
    } else {
        match workspace_of(m, ino) {
            Some(workspace) => Some(
                dot_lines(ino, INO_WORKSPACES) + issue_lines(
                    workspace,
                    listing_of(m.cache, workspace),
                    listing_of(m.cache, workspace).len() as int,
                ),
            ),
            None => None,
        }
    }
}

/// The entries of `lines` from the cookie `offset` on; the cookie of the entry at
/// index `i` is `i + 1`.
pub open spec fn page(lines: Seq<Listed>, offset: u64) -> Seq<DirEntryView> {
    if offset >= lines.len() {
        Seq::empty()
    } else {
        Seq::new(
            (lines.len() - offset) as nat,
            |i: int|
                DirEntryView {
                    ino: lines[offset + i].0,
                    offset: (offset + i + 1) as u64,
                    kind: lines[offset + i].1,
                    name: lines[offset + i].2,
                },
        )
    }
}

/// The inodes handed out after the workspaces `names[..n]` were listed.
pub open spec fn nodes_with_workspaces(nodes: Map<u64, NodeView>, names: Seq<Seq<char>>, n: int) -> Map<
    u64,
    NodeView,
>
    decreases n,
{
    if n <= 0 {
        nodes
    } else {
        nodes_with_workspaces(nodes, names, n - 1).insert(
            workspace_inode(names[n - 1]),
            NodeView::Workspace { name: names[n - 1] },
        )
    }
}

/// The inodes handed out after the issues `issues[..n]` of `workspace` were listed.
pub open spec fn nodes_with_issues(
    nodes: Map<u64, NodeView>,
    workspace: Seq<char>,
    issues: Seq<(Seq<char>, Option<Seq<char>>)>,
    n: int,
) -> Map<u64, NodeView>
    decreases n,
{
    if n <= 0 {
        nodes
    } else {
        nodes_with_issues(nodes, workspace, issues, n - 1).insert(
            issue_inode(workspace, issues[n - 1].0),
            NodeView::Issue { key: issues[n - 1].0, kind: IssueFileKind::Main },
        ).insert(
            comments_inode(workspace, issues[n - 1].0),
            NodeView::Issue { key: issues[n - 1].0, kind: IssueFileKind::CommentsMarkdown },
        )
    }
}

/// The inodes handed out after the directory `ino` was listed.
pub open spec fn nodes_after_readdir(m: FsModel, ino: u64) -> Map<u64, NodeView> {
    if ino == INO_ROOT || ino == INO_SYNC_META {
        m.nodes
    } else if ino == INO_WORKSPACES {
        nodes_with_workspaces(m.nodes, m.workspaces, m.workspaces.len() as int)
    } else {
        match workspace_of(m, ino) {
            Some(workspace) => nodes_with_issues(
                m.nodes,
                workspace,
                listing_of(m.cache, workspace),
                listing_of(m.cache, workspace).len() as int,
            ),
            None => m.nodes,
        }
    }
}

/// Whether listing the directory `ino` reads the listing of a workspace, and of which.
pub open spec fn readdir_reads_listing(m: FsModel, ino: u64) -> Option<Seq<char>> {
    if ino == INO_ROOT || ino == INO_SYNC_META || ino == INO_WORKSPACES {
        None
    } else {
        workspace_of(m, ino)
    }
}

/// What opening `ino` answers: a write mode is refused with `EROFS` on all but the
/// two trigger files; then files open, directories answer `EISDIR` and unknown
/// inodes `ENOENT`.
pub open spec fn open_result(m: FsModel, ino: u64, read_only: bool) -> Result<(), Errno> {
    if !read_only && !is_trigger_file(ino) {
        Err(Errno::EROFS)
    } else {
        match node_of(m.nodes, ino) {
            Some(NodeView::Issue { .. }) => Ok(()),
            Some(NodeView::SyncMetaFile) => Ok(()),
            Some(_) => Err(Errno::EISDIR),
            None => Err(Errno::ENOENT),
        }
    }
}

/// Whether a written text, already in lower case, asks for the trigger: trimmed, it is
/// `1` or `true`.
pub open spec fn is_trigger_payload(lowered: Seq<char>) -> bool {
    trim(lowered) == "1"@ || trim(lowered) == "true"@
}

/// Whether written bytes ask for the trigger.
pub open spec fn asks_trigger(data: Seq<u8>) -> bool {
    is_trigger_payload(unicode_lowercase(utf8_lossy_text(data)))
}

/// What a write of `data` at `offset` to `ino` answers: `EROFS` on all but the two
/// trigger files, `EINVAL` at an offset other than zero, else the number of bytes.
pub open spec fn write_result(ino: u64, offset: u64, data: Seq<u8>) -> Result<u32, Errno> {
    if !is_trigger_file(ino) {
        Err(Errno::EROFS)
    } else if offset != 0 {
        Err(Errno::EINVAL)
    } else {
        Ok((data.len() % 0x1_0000_0000) as u32)
    }
}

/// The coordinator's record after a write of `data` at `offset` to `ino`.
pub open spec fn sync_after_write(sync: SyncState, ino: u64, offset: u64, data: Seq<u8>) -> SyncState {
    if is_trigger_file(ino) && offset == 0 && asks_trigger(data) {
        if ino == INO_FULL_REFRESH {
            step(sync, SyncOp::TriggerManualFull)
        } else {
            step(sync, SyncOp::TriggerManual)
        }
    } else {
        sync
    }
}

/// Whether a written text, already in lower case, asks for the trigger.
pub fn payload_requests_trigger(lowered: &str) -> (r: bool)
    ensures
        r == is_trigger_payload(lowered@),
{
    let v = chars_of(lowered);
    let t = crate::text::trimmed(&v);
    crate::text::is_str(&t, "1") || crate::text::is_str(&t, "true")
}

/// `node_views` follows an insertion.
pub proof fn lemma_node_views_insert(nodes: Map<u64, Node>, ino: u64, node: Node)
    ensures
        node_views(nodes.insert(ino, node)) == node_views(nodes).insert(ino, node@),
{
    assert(node_views(nodes.insert(ino, node)) =~= node_views(nodes).insert(ino, node@));
}

/// The index of the first workspace whose derived inode is `ino`.
fn find_hashed(workspaces: &Vec<(String, String)>, ino: u64) -> (r: Option<usize>)
    ensures
        match r {
            Some(i) => i < workspaces.len() && hashed_workspace(workspace_names(workspaces@), ino)
                == Some(workspaces@[i as int].0@),
            None => hashed_workspace(workspace_names(workspaces@), ino) is None,
        },
{
    let ghost names = workspace_names(workspaces@);
    let mut i: usize = 0;
    assert(names.skip(0) == names);
    while i < workspaces.len()
        invariant
            i <= workspaces.len(),
            names.len() == workspaces.len(),
            forall|j: int| 0 <= j < names.len() ==> #[trigger] names[j] == workspaces@[j].0@,
            hashed_workspace(workspace_names(workspaces@), ino) == hashed_workspace(
                names.skip(i as int),
                ino,
            ),
        decreases workspaces.len() - i,
    {
        assert(names.skip(i as int)[0] == names[i as int]);
        if inode_for_workspace(workspaces[i].0.as_str()) == ino {
            return Some(i);
        }
        assert(names.skip(i as int).drop_first() == names.skip(i + 1));
        i += 1;
    }
    None
}

/// One line of a directory as it is built: inode, type and name.
pub type Line = (u64, FileType, String);

/// The lines held by a vector of lines.
pub open spec fn line_views(lines: Seq<Line>) -> Seq<Listed> {
    lines.map_values(|l: Line| (l.0, l.1, l.2@))
}

fn push_line(lines: &mut Vec<Line>, ino: u64, kind: FileType, name: String)
    ensures
        line_views(final(lines)@) == line_views(old(lines)@).push((ino, kind, name@)),
{
    lines.push((ino, kind, name));
    assert(line_views(lines@) =~= line_views(old(lines)@).push((ino, kind, name@)));
}

/// The entries of `lines` from the cookie `offset` on.
pub fn paged(lines: &Vec<Line>, offset: u64) -> (entries: Vec<DirEntry>)
    ensures
        entry_views(entries@) == page(line_views(lines@), offset),
{
    let mut entries: Vec<DirEntry> = Vec::new();
    if offset >= lines.len() as u64 {
        assert(entry_views(entries@) =~= page(line_views(lines@), offset));
        return entries;
    }
    let start: usize = offset as usize;
    let mut i: usize = start;
    while i < lines.len()
        invariant
            start <= i <= lines.len(),
            start == offset,
            entries.len() == i - start,
            forall|k: int|
                0 <= k < i - start ==> (#[trigger] entries@[k])@ == (DirEntryView {
                    ino: lines@[start + k].0,
                    offset: (start + k + 1) as u64,
                    kind: lines@[start + k].1,
                    name: lines@[start + k].2@,
                }),
        decreases lines.len() - i,
    {
        let line = &lines[i];
        entries.push(
            DirEntry { ino: line.0, offset: (i + 1) as u64, kind: line.1, name: line.2.clone() },
        );
        i += 1;
    }
    assert(entry_views(entries@) =~= page(line_views(lines@), offset));
    entries
}

impl JiraFuseFs {
    /// A filesystem over `cache` and `sync_state` in which only the root has an inode.
    pub fn new(
        uid: u32,
        gid: u32,
        workspaces: Vec<(String, String)>,
        cache: InMemoryCache,
        sync_budget: usize,
        sync_state: SyncState,
        metrics: Metrics,
    ) -> (fs: Self)
        ensures
            fs@ == (FsModel {
                uid,
                gid,
                workspaces: workspace_names(workspaces@),
                cache: cache@,
                sync_budget,
                sync: sync_state,
                metrics,
                initial_sync_started: false,
                nodes: Map::<u64, NodeView>::empty().insert(INO_ROOT, NodeView::Root),
            }),
    {
        let mut nodes: HashMap<u64, Node> = HashMap::new();
        nodes.insert(INO_ROOT, Node::Root);
        proof {
            lemma_node_views_insert(Map::<u64, Node>::empty(), INO_ROOT, Node::Root);
            assert(node_views(Map::<u64, Node>::empty()) =~= Map::<u64, NodeView>::empty());
        }
        JiraFuseFs {
            uid,
            gid,
            workspaces,
            cache,
            sync_budget,
            sync_state,
            metrics,
            initial_sync_started: false,
            nodes,
        }
    }

    /// Claims the one sync that the first contact with the kernel starts: true for the
    /// first caller, false for every later one.
    pub fn begin_initial_sync(&mut self) -> (first: bool)
        ensures
            first == !old(self)@.initial_sync_started,
            final(self)@ == (FsModel { initial_sync_started: true, ..old(self)@ }),
    {
        let first = !self.initial_sync_started;
        self.initial_sync_started = true;
        first
    }

    fn upsert_node(&mut self, ino: u64, node: Node)
        ensures
            final(self)@ == (FsModel { nodes: old(self)@.nodes.insert(ino, node@), ..old(self)@ }),
    {
        proof {
            lemma_node_views_insert(self.nodes@, ino, node);
        }
        self.nodes.insert(ino, node);
    }

    fn workspace_for_inode(&self, ino: u64) -> (r: Option<String>)
        ensures
            crate::text::opt_text(r) == workspace_of(self@, ino),
    {
        match self.nodes.get(&ino) {
            Some(Node::Workspace { name }) => {
                return Some(name.clone());
            },
            _ => {},
        }
        match find_hashed(&self.workspaces, ino) {
            Some(i) => Some(self.workspaces[i].0.clone()),
            None => None,
        }
    }

    fn node_for_inode(&self, ino: u64) -> (r: Option<Node>)
        ensures
            match r {
                Some(n) => node_of(self@.nodes, ino) == Some(n@),
                None => node_of(self@.nodes, ino) is None,
            },
    {
        if ino == INO_SYNC_META {
            return Some(Node::SyncMeta);
        }
        if ino == INO_WORKSPACES {
            return Some(Node::Workspaces);
        }
        if meta_file(ino) {
            return Some(Node::SyncMetaFile);
        }
        match self.nodes.get(&ino) {
            Some(n) => Some(n.copy()),
            None => None,
        }
    }

    fn workspace_issues(&mut self, workspace: &str, now_ms: u64) -> (issues: Vec<IssueRef>)
        ensures
            ref_views(issues@) == listing_of(old(self)@.cache, workspace@),
            final(self)@ == (FsModel {
                metrics: snapshot_metrics(
                    old(self)@.cache,
                    workspace@,
                    now_ms,
                    old(self)@.metrics,
                ),
                ..old(self)@
            }),
    {
        match self.cache.get_workspace_issues_snapshot(workspace, now_ms, &mut self.metrics) {
            Some(snapshot) => snapshot.issues,
            None => {
                let issues: Vec<IssueRef> = Vec::new();
                assert(ref_views(issues@) =~= Seq::empty());
                issues
            },
        }
    }

    fn issue_exists_in_workspace(&mut self, workspace: &str, issue_key: &str, now_ms: u64) -> (found:
        bool)
        ensures
            found == listed(listing_of(old(self)@.cache, workspace@), issue_key@),
            final(self)@ == (FsModel {
                metrics: snapshot_metrics(
                    old(self)@.cache,
                    workspace@,
                    now_ms,
                    old(self)@.metrics,
                ),
                ..old(self)@
            }),
    {
        let issues = self.workspace_issues(workspace, now_ms);
        let ghost views = ref_views(issues@);
        let mut i: usize = 0;
        while i < issues.len()
            invariant
                i <= issues.len(),
                views == ref_views(issues@),
                views == listing_of(old(self)@.cache, workspace@),
                self@ == (FsModel {
                    metrics: snapshot_metrics(
                        old(self)@.cache,
                        workspace@,
                        now_ms,
                        old(self)@.metrics,
                    ),
                    ..old(self)@
                }),
                forall|k: int| 0 <= k < i ==> (#[trigger] views[k]).0 != issue_key@,
            decreases issues.len() - i,
        {
            if str_eq(issues[i].key.as_str(), issue_key) {
                assert(views[i as int].0 == issue_key@);
                return true;
            }
            i += 1;
        }
        false
    }

    fn issue_sidecar_size(&self, issue_key: &str, kind: IssueFileKind) -> (size: u64)
        ensures
            size_fits(self@.cache, issue_key@, kind, size),
    {
        let cached = self.cache.cached_issue_len(issue_key);
        let persisted = match kind {
            IssueFileKind::Main => if cached.is_some() {
                None
            } else {
                self.cache.persistent_issue_len(issue_key)
            },
            IssueFileKind::CommentsMarkdown => self.cache.persistent_comments_md_len(issue_key),
        };
        let size = size_from(cached, persisted, kind);
        assert(size == size_of(cached_len(self@.cache, issue_key@), persisted, kind));
        size
    }

    fn meta_attr(&self, ino: u64, now_ms: u64) -> (attr: FileAttr)
        ensures
            attr == file_attr_of(
                self.uid,
                self.gid,
                ino,
                meta_bytes(self.sync_state, ino, now_ms).len() as u64,
                is_trigger_file(ino),
            ),
    {
        let content = sync_meta_file_content(&self.sync_state, ino, now_ms);
        file_attr(self.uid, self.gid, ino, content.len() as u64, trigger_file(ino))
    }

    /// Resolves `name` under the directory `parent`.
    ///
    /// The fixed names resolve to their fixed inodes. Under `workspaces`, a configured
    /// workspace resolves to its derived inode. Under a workspace, a name ending in
    /// `.comments.md` or `.md` resolves only if the cached listing of the workspace
    /// holds the key before the suffix. Everything else is `ENOENT`. What resolves
    /// under `workspaces` or under a workspace is entered in the inode map.
    pub fn lookup(&mut self, parent: u64, name: &str, now_ms: u64) -> (r: Result<FileAttr, Errno>)
        ensures
            ({
                let m = old(self)@;
                let target = lookup_target(m, parent, name@);
                &&& final(self)@ == (FsModel {
                    nodes: nodes_after_lookup(m.nodes, target),
                    metrics: metrics_after_listing(
                        m,
                        lookup_reads_listing(m, parent, name@),
                        now_ms,
                    ),
                    ..m
                })
                &&& match target {
                    Target::Missing => r == Err::<FileAttr, Errno>(Errno::ENOENT),
                    Target::FixedDir(ino) => r == Ok::<FileAttr, Errno>(
                        dir_attr_of(m.uid, m.gid, ino),
                    ),
                    Target::MetaFile(ino) => r == Ok::<FileAttr, Errno>(
                        file_attr_of(
                            m.uid,
                            m.gid,
                            ino,
                            meta_bytes(m.sync, ino, now_ms).len() as u64,
                            is_trigger_file(ino),
                        ),
                    ),
                    Target::WorkspaceDir(workspace) => r == Ok::<FileAttr, Errno>(
                        dir_attr_of(m.uid, m.gid, workspace_inode(workspace)),
                    ),
                    Target::IssueFile { workspace, key, kind } => r matches Ok(attr) && size_fits(
                        m.cache,
                        key,
                        kind,
                        attr.size,
                    ) && attr == file_attr_of(
                        m.uid,
                        m.gid,
                        file_inode(workspace, key, kind),
                        attr.size,
                        false,
                    ),
                }
            }),
    {
        if parent == INO_ROOT {
            if str_eq(name, ".sync_meta") {
                return Ok(dir_attr(self.uid, self.gid, INO_SYNC_META));
            }
            if str_eq(name, "workspaces") {
                return Ok(dir_attr(self.uid, self.gid, INO_WORKSPACES));
            }
            return Err(Errno::ENOENT);
        }
        if parent == INO_SYNC_META {
            if str_eq(name, "last_sync") {
                return Ok(self.meta_attr(INO_LAST_SYNC, now_ms));
            }
            if str_eq(name, "last_full_sync") {
                return Ok(self.meta_attr(INO_LAST_FULL_SYNC, now_ms));
            }
            if str_eq(name, "seconds_to_next_sync") {
                return Ok(self.meta_attr(INO_SECONDS_TO_NEXT, now_ms));
            }
            if str_eq(name, "manual_refresh") {
                return Ok(self.meta_attr(INO_MANUAL_REFRESH, now_ms));
            }
            if str_eq(name, "full_refresh") {
                return Ok(self.meta_attr(INO_FULL_REFRESH, now_ms));
            }
            return Err(Errno::ENOENT);
        }
        if parent == INO_WORKSPACES {
            let ghost names = workspace_names(self.workspaces@);
            proof {
                crate::assoc::lemma_first_index(self.workspaces@, name@);
            }
            match crate::assoc::find(&self.workspaces, name) {
                Some(i) => {
                    assert(names[i as int] == name@);
                    let workspace = self.workspaces[i].0.clone();
                    let ino = inode_for_workspace(workspace.as_str());
                    self.upsert_node(ino, Node::Workspace { name: workspace });
                    return Ok(dir_attr(self.uid, self.gid, ino));
                },
                None => {
                    assert forall|j: int| 0 <= j < names.len() implies names[j] != name@ by {
                        assert(self.workspaces@[j].0@ != name@);
                    }
                    return Err(Errno::ENOENT);
                },
            }
        }
        let workspace = match self.workspace_for_inode(parent) {
            Some(w) => w,
            None => {
                return Err(Errno::ENOENT);
            },
        };
        let (issue_key, kind) = match parse_issue_name(name) {
            Some(parsed) => parsed,
            None => {
                return Err(Errno::ENOENT);
            },
        };
        if self.issue_exists_in_workspace(workspace.as_str(), issue_key.as_str(), now_ms) {
            let ino = inode_for_issue_kind(workspace.as_str(), issue_key.as_str(), kind);
            let size = self.issue_sidecar_size(issue_key.as_str(), kind);
            let attr = file_attr(self.uid, self.gid, ino, size, false);
            self.upsert_node(ino, Node::Issue { key: issue_key, kind });
            Ok(attr)
        } else {
            Err(Errno::ENOENT)
        }
    }
}

/// What the attributes of `ino` are asked of.
pub enum AttrTarget {
    /// Nothing known.
    Missing,
    /// A directory.
    Dir,
    /// One of the five meta files.
    MetaFile,
    /// The directory of the configured workspace with this name, found by its
    /// derived inode.
    HashedWorkspace(Seq<char>),
    /// A file of an issue.
    IssueFile { key: Seq<char>, kind: IssueFileKind },
}

/// What the attributes of `ino` are asked of.
pub open spec fn attr_target(m: FsModel, ino: u64) -> AttrTarget {
    if ino == INO_ROOT || ino == INO_SYNC_META || ino == INO_WORKSPACES {
        AttrTarget::Dir
    } else if is_meta_file(ino) {
        AttrTarget::MetaFile
    } else {
        match hashed_workspace(m.workspaces, ino) {
            Some(name) => AttrTarget::HashedWorkspace(name),
            None => match m.nodes.get(ino) {
                Some(NodeView::Issue { key, kind }) => AttrTarget::IssueFile { key, kind },
                Some(NodeView::Workspace { .. }) => AttrTarget::Dir,
                _ => AttrTarget::Missing,
            },
        }
    }
}

/// The outcome of reading the main file of `key`: `r` and the filesystem `after`.
///
/// An entry in memory is served, fresh or expired, and nothing is ever fetched. With
/// no entry in memory, a row of the durable store becomes the entry and is served;
/// without one, the placeholder is served.
pub open spec fn main_read(
    m: FsModel,
    after: FsModel,
    key: Seq<char>,
    offset: u64,
    size: u32,
    now: u64,
    r: Result<Vec<u8>, Errno>,
) -> bool {
    match m.cache.issues.get(key) {
        Some(e) => {
            &&& r matches Ok(bytes) && bytes@ == window(e.markdown, offset, size)
            &&& after == (FsModel {
                metrics: if is_stale(e.cached_at, e.ttl, now) {
                    after_stale(after_miss(m.metrics))
                } else {
                    after_hit(m.metrics)
                },
                ..m
            })
        },
        None => {
            ||| {
                &&& r matches Ok(bytes) && bytes@ == window(
                    encode_utf8(main_placeholder(key)),
                    offset,
                    size,
                )
                &&& after == (FsModel { metrics: after_miss(m.metrics), ..m })
            }
            ||| {
                &&& m.cache.has_store
                &&& r matches Ok(bytes) && exists|data: Seq<u8>, updated: Option<Seq<char>>|
                    bytes@ == window(data, offset, size) && after.cache == #[trigger] with_fresh(
                        m.cache,
                        key,
                        data,
                        updated,
                        now,
                    )
                &&& after == (FsModel {
                    cache: after.cache,
                    metrics: after_hit(m.metrics),
                    ..m
                })
            }
        },
    }
}

impl JiraFuseFs {
    /// The attributes of `ino`: those of a directory for the fixed directories and for
    /// workspace directories, those of a file for meta files and issue files, and
    /// `ENOENT` for what is not known. A workspace found by its derived inode is
    /// entered in the inode map.
    pub fn getattr(&mut self, ino: u64, now_ms: u64) -> (r: Result<FileAttr, Errno>)
        ensures
            ({
                let m = old(self)@;
                match attr_target(m, ino) {
                    AttrTarget::Missing => r == Err::<FileAttr, Errno>(Errno::ENOENT) && final(self)@ == m,
                    AttrTarget::Dir => r == Ok::<FileAttr, Errno>(dir_attr_of(m.uid, m.gid, ino))
                        && final(self)@ == m,
                    AttrTarget::MetaFile => r == Ok::<FileAttr, Errno>(
                        file_attr_of(
                            m.uid,
                            m.gid,
                            ino,
                            meta_bytes(m.sync, ino, now_ms).len() as u64,
                            is_trigger_file(ino),
                        ),
                    ) && final(self)@ == m,
                    AttrTarget::HashedWorkspace(name) => r == Ok::<FileAttr, Errno>(
                        dir_attr_of(m.uid, m.gid, ino),
                    ) && final(self)@ == (FsModel {
                        nodes: m.nodes.insert(ino, NodeView::Workspace { name }),
                        ..m
                    }),
                    AttrTarget::IssueFile { key, kind } => r matches Ok(attr) && size_fits(
                        m.cache,
                        key,
                        kind,
                        attr.size,
                    ) && attr == file_attr_of(m.uid, m.gid, ino, attr.size, false) && final(self)@ == m,
                }
            }),
    {
        if ino == INO_ROOT || ino == INO_SYNC_META || ino == INO_WORKSPACES {
            return Ok(dir_attr(self.uid, self.gid, ino));
        }
        if meta_file(ino) {
            return Ok(self.meta_attr(ino, now_ms));
        }
        match find_hashed(&self.workspaces, ino) {
            Some(i) => {
                let name = self.workspaces[i].0.clone();
                self.upsert_node(ino, Node::Workspace { name });
                return Ok(dir_attr(self.uid, self.gid, ino));
            },
            None => {},
        }
        match self.node_for_inode(ino) {
            Some(Node::Issue { key, kind }) => {
                let size = self.issue_sidecar_size(key.as_str(), kind);
                Ok(file_attr(self.uid, self.gid, ino, size, false))
            },
            Some(Node::Workspace { .. }) => Ok(dir_attr(self.uid, self.gid, ino)),
            _ => Err(Errno::ENOENT),
        }
    }

    /// Changing attributes does nothing on the two trigger files, so that a shell's
    /// truncating redirect works, and is refused with `EROFS` everywhere else.
    pub fn setattr(&self, ino: u64, now_ms: u64) -> (r: Result<FileAttr, Errno>)
        ensures
            r == (if is_trigger_file(ino) {
                Ok::<FileAttr, Errno>(
                    file_attr_of(
                        self.uid,
                        self.gid,
                        ino,
                        meta_bytes(self.sync_state, ino, now_ms).len() as u64,
                        true,
                    ),
                )
            } else {
                Err::<FileAttr, Errno>(Errno::EROFS)
            }),
    {
        if trigger_file(ino) {
            Ok(self.meta_attr(ino, now_ms))
        } else {
            Err(Errno::EROFS)
        }
    }

    /// Opens `ino` for reading only, or in a mode that writes.
    pub fn open(&self, ino: u64, read_only: bool) -> (r: Result<(), Errno>)
        ensures
            r == open_result(self@, ino, read_only),
    {
        if !read_only && !trigger_file(ino) {
            return Err(Errno::EROFS);
        }
        match self.node_for_inode(ino) {
            Some(Node::Issue { .. }) => Ok(()),
            Some(Node::SyncMetaFile) => Ok(()),
            Some(_) => Err(Errno::EISDIR),
            None => Err(Errno::ENOENT),
        }
    }

    /// A write to one of the two trigger files at offset zero requests the refresh, or
    /// the full refresh, if the written text asks for it; it reports all bytes as
    /// written either way.
    pub fn write(&mut self, ino: u64, offset: u64, data: &Vec<u8>) -> (r: Result<u32, Errno>)
        ensures
            r == write_result(ino, offset, data@),
            final(self)@ == (FsModel {
                sync: sync_after_write(old(self)@.sync, ino, offset, data@),
                ..old(self)@
            }),
    {
        if !trigger_file(ino) {
            return Err(Errno::EROFS);
        }
        if offset != 0 {
            return Err(Errno::EINVAL);
        }
        let text = lossy_string(data);
        let lowered = lowercase_string(text.as_str());
        if payload_requests_trigger(lowered.as_str()) {
            if ino == INO_FULL_REFRESH {
                self.sync_state.trigger_manual_full();
            } else {
                self.sync_state.trigger_manual();
            }
        }
        Ok(((data.len() as u64) % 0x1_0000_0000u64) as u32)
    }

    fn issue_bytes(&mut self, issue_key: &str, now_ms: u64) -> (bytes: Vec<u8>)
        ensures
            ({
                let m = old(self)@;
                match m.cache.issues.get(issue_key@) {
                    Some(e) => {
                        &&& bytes@ == e.markdown
                        &&& final(self)@ == (FsModel {
                            metrics: if is_stale(e.cached_at, e.ttl, now_ms) {
                                after_stale(after_miss(m.metrics))
                            } else {
                                after_hit(m.metrics)
                            },
                            ..m
                        })
                    },
                    None => {
                        ||| {
                            &&& bytes@ == encode_utf8(main_placeholder(issue_key@))
                            &&& final(self)@ == (FsModel { metrics: after_miss(m.metrics), ..m })
                        }
                        ||| {
                            &&& m.cache.has_store
                            &&& exists|updated: Option<Seq<char>>|
                                final(self)@.cache == #[trigger] with_fresh(
                                    m.cache,
                                    issue_key@,
                                    bytes@,
                                    updated,
                                    now_ms,
                                )
                            &&& final(self)@ == (FsModel {
                                cache: final(self)@.cache,
                                metrics: after_hit(m.metrics),
                                ..m
                            })
                        }
                    },
                }
            }),
    {
        let fetch = || -> (f: Result<(Vec<u8>, Option<String>), Errno>)
            ensures
                f == Err::<(Vec<u8>, Option<String>), Errno>(Errno::EAGAIN),
            { Err(Errno::EAGAIN) };
        match self.cache.get_issue_markdown_stale_safe(issue_key, now_ms, &mut self.metrics, fetch) {
            Ok(bytes) => bytes,
            Err(_) => main_placeholder_bytes(issue_key),
        }
    }
}

impl JiraFuseFs {
    fn issue_comments_markdown_bytes(&self, issue_key: &str) -> (bytes: Vec<u8>)
        ensures
            comments_fit(self@.cache, issue_key@, bytes@),
    {
        let persisted = self.cache.persistent_comments_md(issue_key);
        let ghost answer = sidecar_view(persisted);
        let bytes = comments_from(issue_key, persisted);
        assert(bytes@ == comments_bytes(issue_key@, answer));
        bytes
    }

    /// Reads up to `size` bytes at `offset` from the file `ino`.
    ///
    /// A meta file's bytes are computed at `now_ms`. The main file of an issue is read
    /// from the cache without ever fetching (see `main_read`); its comments file is the
    /// stored sidecar, or a placeholder. Anything else is `ENOENT`.
    pub fn read(&mut self, ino: u64, offset: u64, size: u32, now_ms: u64) -> (r: Result<
        Vec<u8>,
        Errno,
    >)
        ensures
            ({
                let m = old(self)@;
                if is_meta_file(ino) {
                    &&& r matches Ok(bytes) && bytes@ == window(
                        meta_bytes(m.sync, ino, now_ms),
                        offset,
                        size,
                    )
                    &&& final(self)@ == m
                } else {
                    match node_of(m.nodes, ino) {
                        Some(NodeView::Issue { key, kind }) => match kind {
                            IssueFileKind::Main => main_read(
                                m,
                                final(self)@,
                                key,
                                offset,
                                size,
                                now_ms,
                                r,
                            ),
                            IssueFileKind::CommentsMarkdown => {
                                &&& final(self)@ == m
                                &&& r matches Ok(bytes) && exists|content: Seq<u8>|
                                    #[trigger] comments_fit(m.cache, key, content) && bytes@
                                        == window(content, offset, size)
                            },
                        },
                        _ => r matches Err(e) && e == Errno::ENOENT && final(self)@ == m,
                    }
                }
            }),
    {
        if meta_file(ino) {
            let data = sync_meta_file_content(&self.sync_state, ino, now_ms);
            return Ok(read_window(&data, offset, size));
        }
        let (key, kind) = match self.node_for_inode(ino) {
            Some(Node::Issue { key, kind }) => (key, kind),
            _ => {
                return Err(Errno::ENOENT);
            },
        };
        match kind {
            IssueFileKind::Main => {
                let data = self.issue_bytes(key.as_str(), now_ms);
                Ok(read_window(&data, offset, size))
            },
            IssueFileKind::CommentsMarkdown => {
                let data = self.issue_comments_markdown_bytes(key.as_str());
                Ok(read_window(&data, offset, size))
            },
        }
    }

    fn workspace_lines_of(&mut self) -> (lines: Vec<Line>)
        ensures
            line_views(lines@) == dot_lines(INO_WORKSPACES, INO_ROOT) + workspace_lines(
                old(self)@.workspaces,
                old(self)@.workspaces.len() as int,
            ),
            final(self)@ == (FsModel {
                nodes: nodes_with_workspaces(
                    old(self)@.nodes,
                    old(self)@.workspaces,
                    old(self)@.workspaces.len() as int,
                ),
                ..old(self)@
            }),
    {
        let mut lines: Vec<Line> = Vec::new();
        assert(line_views(lines@) =~= Seq::<Listed>::empty());
        push_line(&mut lines, INO_WORKSPACES, FileType::Directory, owned("."));
        push_line(&mut lines, INO_ROOT, FileType::Directory, owned(".."));
        assert(line_views(lines@) =~= dot_lines(INO_WORKSPACES, INO_ROOT));
        let ghost m = self@;
        let mut i: usize = 0;
        while i < self.workspaces.len()
            invariant
                i <= self.workspaces.len(),
                m == old(self)@,
                m.workspaces.len() == self.workspaces.len(),
                line_views(lines@) == dot_lines(INO_WORKSPACES, INO_ROOT) + workspace_lines(
                    m.workspaces,
                    i as int,
                ),
                self@ == (FsModel {
                    nodes: nodes_with_workspaces(m.nodes, m.workspaces, i as int),
                    ..m
                }),
            decreases self.workspaces.len() - i,
        {
            let name = self.workspaces[i].0.clone();
            assert(name@ == m.workspaces[i as int]);
            let ino = inode_for_workspace(name.as_str());
            self.upsert_node(ino, Node::Workspace { name: name.clone() });
            push_line(&mut lines, ino, FileType::Directory, name);
            assert(line_views(lines@) =~= dot_lines(INO_WORKSPACES, INO_ROOT) + workspace_lines(
                m.workspaces,
                i + 1,
            ));
            i += 1;
        }
        lines
    }

    fn issue_lines_of(&mut self, ino: u64, workspace: &str, issues: &Vec<IssueRef>) -> (lines: Vec<
        Line,
    >)
        ensures
            line_views(lines@) == dot_lines(ino, INO_WORKSPACES) + issue_lines(
                workspace@,
                ref_views(issues@),
                issues.len() as int,
            ),
            final(self)@ == (FsModel {
                nodes: nodes_with_issues(
                    old(self)@.nodes,
                    workspace@,
                    ref_views(issues@),
                    issues.len() as int,
                ),
                ..old(self)@
            }),
    {
        let mut lines: Vec<Line> = Vec::new();
        assert(line_views(lines@) =~= Seq::<Listed>::empty());
        push_line(&mut lines, ino, FileType::Directory, owned("."));
        push_line(&mut lines, INO_WORKSPACES, FileType::Directory, owned(".."));
        assert(line_views(lines@) =~= dot_lines(ino, INO_WORKSPACES));
        let ghost m = self@;
        let ghost views = ref_views(issues@);
        let mut i: usize = 0;
        while i < issues.len()
            invariant
                i <= issues.len(),
                m == old(self)@,
                views == ref_views(issues@),
                line_views(lines@) == dot_lines(ino, INO_WORKSPACES) + issue_lines(
                    workspace@,
                    views,
                    i as int,
                ),
                self@ == (FsModel {
                    nodes: nodes_with_issues(m.nodes, workspace@, views, i as int),
                    ..m
                }),
            decreases issues.len() - i,
        {
            let key = issues[i].key.as_str();
            assert(key@ == views[i as int].0);
            let issue_ino = inode_for_issue(workspace, key);
            let comments_ino = inode_for_issue_comments(workspace, key);
            self.upsert_node(issue_ino, Node::Issue { key: owned(key), kind: IssueFileKind::Main });
            self.upsert_node(
                comments_ino,
                Node::Issue { key: owned(key), kind: IssueFileKind::CommentsMarkdown },
            );
            let mut main = chars_of(key);
            push_str(&mut main, ".md");
            let mut comments = chars_of(key);
            push_str(&mut comments, ".comments.md");
            let ghost before = line_views(lines@);
            push_line(&mut lines, issue_ino, FileType::RegularFile, string_of(&main));
            push_line(&mut lines, comments_ino, FileType::RegularFile, string_of(&comments));
            assert(line_views(lines@) =~= dot_lines(ino, INO_WORKSPACES) + issue_lines(
                workspace@,
                views,
                i + 1,
            ));
            i += 1;
        }
        lines
    }

    /// Lists the directory `ino` from the cookie `offset` on.
    ///
    /// The root lists `.sync_meta` and `workspaces`; `.sync_meta` its five files in
    /// fixed order; `workspaces` the configured workspaces in their order; a workspace,
    /// for each issue of its cached listing in the listing's order, `<KEY>.md` and then
    /// `<KEY>.comments.md`. Every directory begins with `.` and `..`. What is listed
    /// under `workspaces` or under a workspace is entered in the inode map. An inode
    /// that is no such directory is `ENOENT`.
    pub fn readdir(&mut self, ino: u64, offset: u64, now_ms: u64) -> (r: Result<
        Vec<DirEntry>,
        Errno,
    >)
        ensures
            ({
                let m = old(self)@;
                &&& final(self)@ == (FsModel {
                    nodes: nodes_after_readdir(m, ino),
                    metrics: metrics_after_listing(m, readdir_reads_listing(m, ino), now_ms),
                    ..m
                })
                &&& match directory_listing(m, ino) {
                    Some(lines) => r matches Ok(entries) && entry_views(entries@) == page(
                        lines,
                        offset,
                    ),
                    None => r matches Err(e) && e == Errno::ENOENT,
                }
            }),
    {
        if ino == INO_ROOT {
            let mut lines: Vec<Line> = Vec::new();
            assert(line_views(lines@) =~= Seq::<Listed>::empty());
            push_line(&mut lines, INO_ROOT, FileType::Directory, owned("."));
            push_line(&mut lines, INO_ROOT, FileType::Directory, owned(".."));
            push_line(&mut lines, INO_SYNC_META, FileType::Directory, owned(".sync_meta"));
            push_line(&mut lines, INO_WORKSPACES, FileType::Directory, owned("workspaces"));
            assert(line_views(lines@) =~= root_listing());
            return Ok(paged(&lines, offset));
        }
        if ino == INO_SYNC_META {
            let mut lines: Vec<Line> = Vec::new();
            assert(line_views(lines@) =~= Seq::<Listed>::empty());
            push_line(&mut lines, INO_SYNC_META, FileType::Directory, owned("."));
            push_line(&mut lines, INO_ROOT, FileType::Directory, owned(".."));
            push_line(&mut lines, INO_LAST_SYNC, FileType::RegularFile, owned("last_sync"));
            push_line(
                &mut lines,
                INO_LAST_FULL_SYNC,
                FileType::RegularFile,
                owned("last_full_sync"),
            );
            push_line(
                &mut lines,
                INO_SECONDS_TO_NEXT,
                FileType::RegularFile,
                owned("seconds_to_next_sync"),
            );
            push_line(
                &mut lines,
                INO_MANUAL_REFRESH,
                FileType::RegularFile,
                owned("manual_refresh"),
            );
            push_line(&mut lines, INO_FULL_REFRESH, FileType::RegularFile, owned("full_refresh"));
            assert(line_views(lines@) =~= meta_listing());
            return Ok(paged(&lines, offset));
        }
        if ino == INO_WORKSPACES {
            let lines = self.workspace_lines_of();
            return Ok(paged(&lines, offset));
        }
        let workspace = match self.workspace_for_inode(ino) {
            Some(w) => w,
            None => {
                return Err(Errno::ENOENT);
            },
        };
        let issues = self.workspace_issues(workspace.as_str(), now_ms);
        let lines = self.issue_lines_of(ino, workspace.as_str(), &issues);
        Ok(paged(&lines, offset))
    }
}

} // verus!
