//! The nodes, attributes and file contents of the virtual filesystem.

use vstd::prelude::*;
use vstd::string::StrSliceExecFns;
use vstd::utf8::encode_utf8;
use crate::decimal::{decimal, push_decimal};
use crate::fs::inode::{
    INO_FULL_REFRESH, INO_LAST_FULL_SYNC, INO_LAST_SYNC, INO_MANUAL_REFRESH, INO_SECONDS_TO_NEXT,
    comments_inode, inode_for_issue, inode_for_issue_comments, is_reserved, issue_inode,
};
use crate::sync_state::{SyncState, elapsed_secs, secs_until_next};
use crate::text::{push_str, string_of};

verus! {

/// Which of the two files of an issue.
#[derive(Debug, Clone, Copy, PartialEq, Eq, Structural)]
pub enum IssueFileKind {
    /// `<KEY>.md`.
    Main,
    /// `<KEY>.comments.md`.
    CommentsMarkdown,
}

/// What an inode stands for.
#[derive(Debug, Clone)]
pub enum Node {
    Root,
    SyncMeta,
    Workspaces,
    Workspace { name: String },
    Issue { key: String, kind: IssueFileKind },
    SyncMetaFile,
}

/// What an inode stands for, with names as character sequences.
pub enum NodeView {
    Root,
    SyncMeta,
    Workspaces,
    Workspace { name: Seq<char> },
    Issue { key: Seq<char>, kind: IssueFileKind },
    SyncMetaFile,
}

impl View for Node {
    type V = NodeView;

    open spec fn view(&self) -> NodeView {
        match *self {
            Node::Root => NodeView::Root,
            Node::SyncMeta => NodeView::SyncMeta,
            Node::Workspaces => NodeView::Workspaces,
            Node::Workspace { name } => NodeView::Workspace { name: name@ },
            Node::Issue { key, kind } => NodeView::Issue { key: key@, kind },
            Node::SyncMetaFile => NodeView::SyncMetaFile,
        }
    }
}

impl Node {
    /// A copy of this node.
    pub fn copy(&self) -> (r: Node)
        ensures
            r@ == self@,
    {
        match self {
            Node::Root => Node::Root,
            Node::SyncMeta => Node::SyncMeta,
            Node::Workspaces => Node::Workspaces,
            Node::Workspace { name } => Node::Workspace { name: name.clone() },
            Node::Issue { key, kind } => Node::Issue { key: key.clone(), kind: *kind },
            Node::SyncMetaFile => Node::SyncMetaFile,
        }
    }
}

/// Directory or regular file.
#[derive(Debug, Clone, Copy, PartialEq, Eq, Structural)]
pub enum FileType {
    Directory,
    RegularFile,
}

/// The error codes the filesystem answers with.
#[derive(Debug, Clone, Copy, PartialEq, Eq, Structural)]
pub enum Errno {
    /// No such file or directory.
    ENOENT,
    /// Read-only filesystem.
    EROFS,
    /// Is a directory.
    EISDIR,
    /// Invalid argument.
    EINVAL,
    /// Try again.
    EAGAIN,
}

/// The attributes of a file or directory. All time stamps are the Unix epoch and are
/// not held here.
#[derive(Debug, Clone, Copy, PartialEq, Eq, Structural)]
pub struct FileAttr {
    pub ino: u64,
    pub size: u64,
    pub blocks: u64,
    pub kind: FileType,
    pub perm: u16,
    pub nlink: u32,
    pub uid: u32,
    pub gid: u32,
    pub rdev: u32,
    pub flags: u32,
    pub blksize: u32,
}

/// One entry of a directory listing. `offset` is the cookie with which a later
/// listing resumes after this entry.
#[derive(Debug, Clone)]
pub struct DirEntry {
    pub ino: u64,
    pub offset: u64,
    pub kind: FileType,
    pub name: String,
}

/// One entry of a directory listing, with its name as a character sequence.
pub struct DirEntryView {
    pub ino: u64,
    pub offset: u64,
    pub kind: FileType,
    pub name: Seq<char>,
}

impl View for DirEntry {
    type V = DirEntryView;

    open spec fn view(&self) -> DirEntryView {
        DirEntryView { ino: self.ino, offset: self.offset, kind: self.kind, name: self.name@ }
    }
}

/// The views of a sequence of directory entries.
pub open spec fn entry_views(entries: Seq<DirEntry>) -> Seq<DirEntryView> {
    entries.map_values(|e: DirEntry| e@)
}

/// The attributes of a directory: mode `0o555`, two links, no size.
pub open spec fn dir_attr_of(uid: u32, gid: u32, ino: u64) -> FileAttr {
    FileAttr {
        ino,
        size: 0,
        blocks: 0,
        kind: FileType::Directory,
        perm: 0o555,
        nlink: 2,
        uid,
        gid,
        rdev: 0,
        flags: 0,
        blksize: 512,
    }
}

/// The attributes of a file of `size` bytes: mode `0o644` where it takes writes,
/// `0o444` where it does not.
pub open spec fn file_attr_of(uid: u32, gid: u32, ino: u64, size: u64, writable: bool) -> FileAttr {
    FileAttr {
        ino,
        size,
        blocks: 1,
        kind: FileType::RegularFile,
        perm: if writable {
            0o644
        } else {
            0o444
        },
        nlink: 1,
        uid,
        gid,
        rdev: 0,
        flags: 0,
        blksize: 512,
    }
}

/// The attributes of a directory.
pub fn dir_attr(uid: u32, gid: u32, ino: u64) -> (attr: FileAttr)
    ensures
        attr == dir_attr_of(uid, gid, ino),
{
    FileAttr {
        ino,
        size: 0,
        blocks: 0,
        kind: FileType::Directory,
        perm: 0o555,
        nlink: 2,
        uid,
        gid,
        rdev: 0,
        flags: 0,
        blksize: 512,
    }
}

/// The attributes of a file.
pub fn file_attr(uid: u32, gid: u32, ino: u64, size: u64, writable: bool) -> (attr: FileAttr)
    ensures
        attr == file_attr_of(uid, gid, ino, size, writable),
{
    FileAttr {
        ino,
        size,
        blocks: 1,
        kind: FileType::RegularFile,
        perm: if writable {
            0o644
        } else {
            0o444
        },
        nlink: 1,
        uid,
        gid,
        rdev: 0,
        flags: 0,
        blksize: 512,
    }
}

/// How long ago `since` was, as text: `"<N> seconds ago\n"`, or `"never\n"`.
pub open spec fn ago_text(since: Option<u64>, now: u64) -> Seq<char> {
    match since {
        Some(t) => decimal(elapsed_secs(t, now) as nat) + " seconds ago\n"@,
        None => "never\n"@,
    }
}

/// The text of a meta file at `now`.
pub open spec fn meta_text(sync: SyncState, ino: u64, now: u64) -> Seq<char> {
    if ino == INO_LAST_SYNC {
        ago_text(sync.last_sync_end, now)
    } else if ino == INO_LAST_FULL_SYNC {
        ago_text(sync.last_full_sync_end, now)
    } else if ino == INO_SECONDS_TO_NEXT {
        decimal(secs_until_next(sync, now) as nat) + "\n"@
    } else if ino == INO_MANUAL_REFRESH {
        if sync.in_progress {
            "sync in progress\n"@
        } else {
            "write '1' or 'true' to trigger sync\n"@
        }
    } else if ino == INO_FULL_REFRESH {
        if sync.in_progress {
            "sync in progress\n"@
        } else {
            "write '1' or 'true' to trigger full upsert sync\n"@
        }
    } else {
        "unknown\n"@
    }
}

/// The bytes of a meta file at `now`.
pub open spec fn meta_bytes(sync: SyncState, ino: u64, now: u64) -> Seq<u8> {
    encode_utf8(meta_text(sync, ino, now))
}

fn ago_chars(since: Option<u64>, now_ms: u64) -> (v: Vec<char>)
    ensures
        v@ == ago_text(since, now_ms),
{
    let mut v: Vec<char> = Vec::new();
    match since {
        Some(t) => {
            let secs: u64 = if now_ms >= t {
                (now_ms - t) / 1000
            } else {
                0
            };
            push_decimal(&mut v, secs);
            push_str(&mut v, " seconds ago\n");
        },
        None => {
            push_str(&mut v, "never\n");
        },
    }
    v
}

/// The bytes of a meta file at `now_ms`; they are computed anew for every read.
pub fn sync_meta_file_content(sync: &SyncState, ino: u64, now_ms: u64) -> (bytes: Vec<u8>)
    ensures
        bytes@ == meta_bytes(*sync, ino, now_ms),
{
    let mut v: Vec<char> = Vec::new();
    if ino == INO_LAST_SYNC {
        v = ago_chars(sync.last_sync(), now_ms);
    } else if ino == INO_LAST_FULL_SYNC {
        v = ago_chars(sync.last_full_sync(), now_ms);
    } else if ino == INO_SECONDS_TO_NEXT {
        push_decimal(&mut v, sync.seconds_until_next_sync(now_ms));
        push_str(&mut v, "\n");
    } else if ino == INO_MANUAL_REFRESH {
        if sync.is_sync_in_progress() {
            push_str(&mut v, "sync in progress\n");
        } else {
            push_str(&mut v, "write '1' or 'true' to trigger sync\n");
        }
    } else if ino == INO_FULL_REFRESH {
        if sync.is_sync_in_progress() {
            push_str(&mut v, "sync in progress\n");
        } else {
            push_str(&mut v, "write '1' or 'true' to trigger full upsert sync\n");
        }
    } else {
        push_str(&mut v, "unknown\n");
    }
    let s = string_of(&v);
    s.as_str().as_bytes_vec()
}

/// What a read of `size` bytes at `offset` sees of `data`: nothing at or past the end,
/// else the bytes from `offset` up to the end or to `size` bytes, whichever is less.
pub open spec fn window(data: Seq<u8>, offset: u64, size: u32) -> Seq<u8> {
    if offset >= data.len() {
        Seq::empty()
    } else if offset + size >= data.len() {
        data.skip(offset as int)
    } else {
        data.subrange(offset as int, offset + size)
    }
}

/// What a read of `size` bytes at `offset` sees of `data`.
pub fn read_window(data: &Vec<u8>, offset: u64, size: u32) -> (r: Vec<u8>)
    ensures
        r@ == window(data@, offset, size),
{
    let mut r: Vec<u8> = Vec::new();
    if offset >= data.len() as u64 {
        return r;
    }
    let start: usize = offset as usize;
    let room: usize = data.len() - start;
    let end: usize = if (size as u64) >= room as u64 {
        data.len()
    } else {
        start + size as usize
    };
    let mut i: usize = start;
    while i < end
        invariant
            start <= i <= end <= data.len(),
            r@ == data@.subrange(start as int, i as int),
        decreases end - i,
    {
        r.push(data[i]);
        i += 1;
    }
    r
}

/// The text served for the main file of an issue that is neither in memory nor in the
/// durable store.
pub open spec fn main_placeholder(issue_key: Seq<char>) -> Seq<char> {
    "# "@ + issue_key
        + "\n\nNot yet available in local cache. Wait for sync interval or trigger manual refresh via .sync_meta/manual_refresh.\n"@
}

/// The text served for the comments file of an issue whose sidecar is not stored.
pub open spec fn comments_placeholder(issue_key: Seq<char>) -> Seq<char> {
    "# "@ + issue_key + " comments\n\nComments sidecar is only populated during sync.\n"@
}

/// The bytes served for the main file of an issue that is not cached.
pub fn main_placeholder_bytes(issue_key: &str) -> (bytes: Vec<u8>)
    ensures
        bytes@ == encode_utf8(main_placeholder(issue_key@)),
{
    let mut v: Vec<char> = Vec::new();
    push_str(&mut v, "# ");
    push_str(&mut v, issue_key);
    push_str(
        &mut v,
        "\n\nNot yet available in local cache. Wait for sync interval or trigger manual refresh via .sync_meta/manual_refresh.\n",
    );
    let s = string_of(&v);
    s.as_str().as_bytes_vec()
}

/// The bytes served for the comments file of an issue whose sidecar is not stored.
pub fn comments_placeholder_bytes(issue_key: &str) -> (bytes: Vec<u8>)
    ensures
        bytes@ == encode_utf8(comments_placeholder(issue_key@)),
{
    let mut v: Vec<char> = Vec::new();
    push_str(&mut v, "# ");
    push_str(&mut v, issue_key);
    push_str(&mut v, " comments\n\nComments sidecar is only populated during sync.\n");
    let s = string_of(&v);
    s.as_str().as_bytes_vec()
}

/// The name of an issue's main file.
pub open spec fn main_name(issue_key: Seq<char>) -> Seq<char> {
    issue_key + ".md"@
}

/// The name of an issue's comments file.
pub open spec fn comments_name(issue_key: Seq<char>) -> Seq<char> {
    issue_key + ".comments.md"@
}

/// The issue key and the kind of file that a file name under a workspace stands for:
/// a name ending in `.comments.md` is a comments file, any other name ending in `.md`
/// a main file, and every other name stands for nothing.
pub open spec fn split_issue_name(name: Seq<char>) -> Option<(Seq<char>, IssueFileKind)> {
    if crate::text::has_suffix(name, ".comments.md"@) {
        Some((name.take(name.len() - ".comments.md"@.len()), IssueFileKind::CommentsMarkdown))
    } else if crate::text::has_suffix(name, ".md"@) {
        Some((name.take(name.len() - ".md"@.len()), IssueFileKind::Main))
    } else {
        None
    }
}

/// The issue key and the kind of file that a file name under a workspace stands for.
pub fn parse_issue_name(name: &str) -> (r: Option<(String, IssueFileKind)>)
    ensures
        match r {
            Some((key, kind)) => split_issue_name(name@) == Some((key@, kind)),
            None => split_issue_name(name@) is None,
        },
{
    let v = crate::text::chars_of(name);
    let comments = crate::text::chars_of(".comments.md");
    let main = crate::text::chars_of(".md");
    if crate::text::ends_with(&v, &comments) {
        let key = crate::text::subvec(&v, 0, v.len() - comments.len());
        Some((string_of(&key), IssueFileKind::CommentsMarkdown))
    } else if crate::text::ends_with(&v, &main) {
        let key = crate::text::subvec(&v, 0, v.len() - main.len());
        Some((string_of(&key), IssueFileKind::Main))
    } else {
        None
    }
}

/// The inode of the file of kind `kind` of `issue_key` in `workspace`.
pub open spec fn file_inode(workspace: Seq<char>, issue_key: Seq<char>, kind: IssueFileKind) -> u64 {
    match kind {
        IssueFileKind::Main => issue_inode(workspace, issue_key),
        IssueFileKind::CommentsMarkdown => comments_inode(workspace, issue_key),
    }
}

/// The inode of the file of kind `kind` of `issue_key` in `workspace`.
pub fn inode_for_issue_kind(workspace: &str, issue_key: &str, kind: IssueFileKind) -> (ino: u64)
    ensures
        ino == file_inode(workspace@, issue_key@, kind),
        !is_reserved(ino),
{
    match kind {
        IssueFileKind::Main => inode_for_issue(workspace, issue_key),
        IssueFileKind::CommentsMarkdown => inode_for_issue_comments(workspace, issue_key),
    }
}

} // verus!
