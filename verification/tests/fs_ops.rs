use jirafs::cache::InMemoryCache;
use jirafs::fs::inode::{
    inode_for_issue, inode_for_issue_comments, inode_for_workspace, INO_FULL_REFRESH,
    INO_LAST_FULL_SYNC, INO_LAST_SYNC, INO_MANUAL_REFRESH, INO_ROOT, INO_SECONDS_TO_NEXT,
    INO_SYNC_META, INO_WORKSPACES,
};
use jirafs::fs::layout::{
    comments_placeholder_bytes, main_placeholder_bytes, parse_issue_name, read_window,
    sync_meta_file_content, Errno, FileType, IssueFileKind,
};
use jirafs::fs::ops::{paged, payload_requests_trigger, JiraFuseFs};
use jirafs::jira::IssueRef;
use jirafs::metrics::Metrics;
use jirafs::sync_state::SyncState;

fn fixture() -> JiraFuseFs {
    JiraFuseFs::new(
        501,
        20,
        vec![
            ("default".to_string(), "project = ST".to_string()),
            ("ops".to_string(), "project = OPS".to_string()),
        ],
        InMemoryCache::new(60_000, 60_000),
        2,
        SyncState::new(60),
        Metrics::new(),
    )
}

fn with_listing() -> JiraFuseFs {
    let mut fs = fixture();
    fs.cache.upsert_workspace_issues(
        "default",
        vec![
            IssueRef { key: "ST-1".to_string(), updated: Some("2026-02-20T10:00:00Z".to_string()) },
            IssueRef { key: "ST-2".to_string(), updated: Some("2026-02-21T10:00:00Z".to_string()) },
        ],
        0,
    );
    fs
}

fn names(entries: &[jirafs::fs::layout::DirEntry]) -> Vec<String> {
    entries.iter().map(|e| e.name.clone()).collect()
}

#[test]
fn root_lists_the_two_fixed_directories() {
    let mut fs = fixture();
    let entries = fs.readdir(INO_ROOT, 0, 0).expect("root");
    assert_eq!(names(&entries), vec![".", "..", ".sync_meta", "workspaces"]);
    assert_eq!(entries[2].ino, INO_SYNC_META);
    assert_eq!(entries[3].ino, INO_WORKSPACES);
    assert_eq!(entries[0].kind, FileType::Directory);
    let cookies: Vec<u64> = entries.iter().map(|e| e.offset).collect();
    assert_eq!(cookies, vec![1, 2, 3, 4]);
}

#[test]
fn listing_resumes_at_the_cookie() {
    let mut fs = fixture();
    let rest = fs.readdir(INO_ROOT, 3, 0).expect("root");
    assert_eq!(names(&rest), vec!["workspaces"]);
    assert_eq!(rest[0].offset, 4);
    assert!(fs.readdir(INO_ROOT, 4, 0).expect("root").is_empty());
    assert!(fs.readdir(INO_ROOT, u64::MAX, 0).expect("root").is_empty());
}

#[test]
fn sync_meta_lists_its_five_files_in_fixed_order() {
    let mut fs = fixture();
    let entries = fs.readdir(INO_SYNC_META, 0, 0).expect("meta");
    assert_eq!(
        names(&entries),
        vec![
            ".",
            "..",
            "last_sync",
            "last_full_sync",
            "seconds_to_next_sync",
            "manual_refresh",
            "full_refresh"
        ]
    );
    let inos: Vec<u64> = entries.iter().map(|e| e.ino).collect();
    assert_eq!(
        inos,
        vec![
            INO_SYNC_META,
            INO_ROOT,
            INO_LAST_SYNC,
            INO_LAST_FULL_SYNC,
            INO_SECONDS_TO_NEXT,
            INO_MANUAL_REFRESH,
            INO_FULL_REFRESH
        ]
    );
    assert_eq!(entries[2].kind, FileType::RegularFile);
}

#[test]
fn workspaces_lists_the_configured_workspaces() {
    let mut fs = fixture();
    let entries = fs.readdir(INO_WORKSPACES, 0, 0).expect("workspaces");
    assert_eq!(names(&entries), vec![".", "..", "default", "ops"]);
    assert_eq!(entries[2].ino, inode_for_workspace("default"));
    assert_eq!(entries[3].ino, inode_for_workspace("ops"));
    // what was listed can be asked for by inode afterwards
    let attr = fs.getattr(inode_for_workspace("ops"), 0).expect("attr");
    assert_eq!(attr.kind, FileType::Directory);
}

#[test]
fn workspace_lists_main_and_comments_file_of_each_issue() {
    let mut fs = with_listing();
    let dir = inode_for_workspace("default");
    let entries = fs.readdir(dir, 0, 0).expect("workspace");
    assert_eq!(
        names(&entries),
        vec![
            ".",
            "..",
            "ST-1.md",
            "ST-1.comments.md",
            "ST-2.md",
            "ST-2.comments.md"
        ]
    );
    assert_eq!(entries[0].ino, dir);
    assert_eq!(entries[1].ino, INO_WORKSPACES);
    assert_eq!(entries[2].ino, inode_for_issue("default", "ST-1"));
    assert_eq!(entries[3].ino, inode_for_issue_comments("default", "ST-1"));
    assert_eq!(entries[5].offset, 6);
    let tail = fs.readdir(dir, 4, 0).expect("workspace");
    assert_eq!(names(&tail), vec!["ST-2.md", "ST-2.comments.md"]);
}

#[test]
fn workspace_without_a_listing_lists_only_the_dots() {
    let mut fs = fixture();
    let entries = fs.readdir(inode_for_workspace("ops"), 0, 0).expect("workspace");
    assert_eq!(names(&entries), vec![".", ".."]);
}

#[test]
fn listing_an_unknown_inode_is_enoent() {
    let mut fs = fixture();
    assert_eq!(fs.readdir(77, 0, 0).err(), Some(Errno::ENOENT));
    assert_eq!(fs.readdir(INO_LAST_SYNC, 0, 0).err(), Some(Errno::ENOENT));
}

#[test]
fn lookup_resolves_the_fixed_names() {
    let mut fs = fixture();
    let meta = fs.lookup(INO_ROOT, ".sync_meta", 0).expect("meta");
    assert_eq!(meta.ino, INO_SYNC_META);
    assert_eq!(meta.kind, FileType::Directory);
    assert_eq!(meta.perm, 0o555);
    assert_eq!(meta.nlink, 2);
    assert_eq!(meta.uid, 501);
    assert_eq!(meta.gid, 20);
    assert_eq!(fs.lookup(INO_ROOT, "workspaces", 0).expect("ws").ino, INO_WORKSPACES);
    assert_eq!(fs.lookup(INO_ROOT, "other", 0).err(), Some(Errno::ENOENT));
    assert_eq!(fs.lookup(INO_ROOT, "", 0).err(), Some(Errno::ENOENT));

    let last = fs.lookup(INO_SYNC_META, "last_sync", 0).expect("last_sync");
    assert_eq!(last.ino, INO_LAST_SYNC);
    assert_eq!(last.size, 6);
    assert_eq!(last.perm, 0o444);
    assert_eq!(last.kind, FileType::RegularFile);
    assert_eq!(last.nlink, 1);
    assert_eq!(last.blocks, 1);
    assert_eq!(last.blksize, 512);
    assert_eq!(
        fs.lookup(INO_SYNC_META, "last_full_sync", 0).expect("x").ino,
        INO_LAST_FULL_SYNC
    );
    let next = fs.lookup(INO_SYNC_META, "seconds_to_next_sync", 0).expect("x");
    assert_eq!(next.ino, INO_SECONDS_TO_NEXT);
    assert_eq!(next.size, 2);
    let manual = fs.lookup(INO_SYNC_META, "manual_refresh", 0).expect("x");
    assert_eq!(manual.ino, INO_MANUAL_REFRESH);
    assert_eq!(manual.perm, 0o644);
    assert_eq!(manual.size, "write '1' or 'true' to trigger sync\n".len() as u64);
    let full = fs.lookup(INO_SYNC_META, "full_refresh", 0).expect("x");
    assert_eq!(full.ino, INO_FULL_REFRESH);
    assert_eq!(full.perm, 0o644);
    assert_eq!(fs.lookup(INO_SYNC_META, "nothing", 0).err(), Some(Errno::ENOENT));
}

#[test]
fn lookup_resolves_workspaces_and_listed_issues() {
    let mut fs = with_listing();
    let dir = fs.lookup(INO_WORKSPACES, "default", 0).expect("workspace");
    assert_eq!(dir.ino, inode_for_workspace("default"));
    assert_eq!(dir.kind, FileType::Directory);
    assert_eq!(fs.lookup(INO_WORKSPACES, "missing", 0).err(), Some(Errno::ENOENT));

    fs.cache
        .upsert_issue_direct("ST-1", &b"# ST-1 body".to_vec(), &None, 0);
    let main = fs.lookup(dir.ino, "ST-1.md", 0).expect("main");
    assert_eq!(main.ino, inode_for_issue("default", "ST-1"));
    assert_eq!(main.size, 11);
    assert_eq!(main.perm, 0o444);
    let comments = fs.lookup(dir.ino, "ST-1.comments.md", 0).expect("comments");
    assert_eq!(comments.ino, inode_for_issue_comments("default", "ST-1"));
    assert_eq!(comments.size, 64);
    // listed but not cached, no store: size zero
    assert_eq!(fs.lookup(dir.ino, "ST-2.md", 0).expect("main").size, 0);
    assert_eq!(fs.lookup(dir.ino, "ST-3.md", 0).err(), Some(Errno::ENOENT));
    assert_eq!(fs.lookup(dir.ino, "ST-1", 0).err(), Some(Errno::ENOENT));
    assert_eq!(fs.lookup(dir.ino, "ST-1.txt", 0).err(), Some(Errno::ENOENT));
    assert_eq!(fs.lookup(4242, "ST-1.md", 0).err(), Some(Errno::ENOENT));
}

#[test]
fn lookup_under_a_workspace_counts_a_listing_read() {
    let mut fs = with_listing();
    let dir = inode_for_workspace("default");
    fs.lookup(dir, "ST-1.md", 10).expect("main");
    assert_eq!(fs.metrics.snapshot(), (1, 0, 0, 0, 0));
    // expired listing: a miss, and the issue still resolves
    fs.lookup(dir, "ST-1.md", 60_000).expect("main");
    assert_eq!(fs.metrics.snapshot(), (1, 1, 0, 0, 0));
    // a name without suffix reads no listing
    let _ = fs.lookup(dir, "ST-1", 10);
    assert_eq!(fs.metrics.snapshot(), (1, 1, 0, 0, 0));
}

#[test]
fn issue_file_names_split_at_the_longer_suffix_first() {
    assert_eq!(
        parse_issue_name("ST-1.comments.md"),
        Some(("ST-1".to_string(), IssueFileKind::CommentsMarkdown))
    );
    assert_eq!(
        parse_issue_name("ST-1.md"),
        Some(("ST-1".to_string(), IssueFileKind::Main))
    );
    assert_eq!(
        parse_issue_name(".md"),
        Some(("".to_string(), IssueFileKind::Main))
    );
    assert_eq!(
        parse_issue_name("a.md.md"),
        Some(("a.md".to_string(), IssueFileKind::Main))
    );
    assert_eq!(parse_issue_name("ST-1.MD"), None);
    assert_eq!(parse_issue_name("md"), None);
    assert_eq!(parse_issue_name(""), None);
}

#[test]
fn getattr_knows_directories_meta_files_and_handed_out_inodes() {
    let mut fs = with_listing();
    for ino in [INO_ROOT, INO_SYNC_META, INO_WORKSPACES] {
        let attr = fs.getattr(ino, 0).expect("dir");
        assert_eq!(attr.ino, ino);
        assert_eq!(attr.kind, FileType::Directory);
        assert_eq!(attr.perm, 0o555);
        assert_eq!(attr.size, 0);
    }
    let attr = fs.getattr(INO_MANUAL_REFRESH, 0).expect("file");
    assert_eq!(attr.perm, 0o644);
    assert_eq!(fs.getattr(INO_LAST_FULL_SYNC, 0).expect("file").perm, 0o444);
    // a workspace is found by its derived inode without a lookup
    let dir = inode_for_workspace("default");
    assert_eq!(fs.getattr(dir, 0).expect("workspace").kind, FileType::Directory);
    // an issue file is unknown until a lookup or a listing hands it out
    let file = inode_for_issue("default", "ST-1");
    assert_eq!(fs.getattr(file, 0).err(), Some(Errno::ENOENT));
    fs.readdir(dir, 0, 0).expect("listing");
    let attr = fs.getattr(file, 0).expect("file");
    assert_eq!(attr.kind, FileType::RegularFile);
    assert_eq!(attr.perm, 0o444);
    assert_eq!(attr.ino, file);
    assert_eq!(fs.getattr(12345, 0).err(), Some(Errno::ENOENT));
}

#[test]
fn open_refuses_writes_and_directories() {
    let mut fs = with_listing();
    let dir = inode_for_workspace("default");
    let file = fs.lookup(dir, "ST-1.md", 0).expect("main").ino;
    assert_eq!(fs.open(file, true), Ok(()));
    assert_eq!(fs.open(file, false), Err(Errno::EROFS));
    assert_eq!(fs.open(INO_LAST_SYNC, true), Ok(()));
    assert_eq!(fs.open(INO_LAST_SYNC, false), Err(Errno::EROFS));
    assert_eq!(fs.open(INO_MANUAL_REFRESH, false), Ok(()));
    assert_eq!(fs.open(INO_FULL_REFRESH, false), Ok(()));
    assert_eq!(fs.open(INO_FULL_REFRESH, true), Ok(()));
    assert_eq!(fs.open(INO_ROOT, true), Err(Errno::EISDIR));
    assert_eq!(fs.open(INO_SYNC_META, true), Err(Errno::EISDIR));
    assert_eq!(fs.open(INO_WORKSPACES, true), Err(Errno::EISDIR));
    assert_eq!(fs.open(INO_ROOT, false), Err(Errno::EROFS));
    fs.lookup(INO_WORKSPACES, "default", 0).expect("workspace");
    assert_eq!(fs.open(dir, true), Err(Errno::EISDIR));
    assert_eq!(fs.open(999, true), Err(Errno::ENOENT));
}

#[test]
fn writes_to_read_only_files_and_at_offsets_are_refused() {
    let mut fs = with_listing();
    let dir = inode_for_workspace("default");
    let file = fs.lookup(dir, "ST-1.md", 0).expect("main").ino;
    assert_eq!(fs.open(file, false), Err(Errno::EROFS));
    assert_eq!(fs.write(INO_LAST_SYNC, 0, &b"1".to_vec()), Err(Errno::EROFS));
    assert_eq!(fs.write(file, 0, &b"1".to_vec()), Err(Errno::EROFS));
    assert_eq!(
        fs.write(INO_MANUAL_REFRESH, 5, &b"1".to_vec()),
        Err(Errno::EINVAL)
    );
    assert!(!fs.sync_state.manual_pending);
    assert!(!fs.sync_state.manual_full_pending);
}

#[test]
fn write_of_one_or_true_sets_the_trigger() {
    let mut fs = fixture();
    assert_eq!(fs.write(INO_MANUAL_REFRESH, 0, &b"1\n".to_vec()), Ok(2));
    assert!(fs.sync_state.manual_pending);
    assert!(!fs.sync_state.manual_full_pending);

    let mut fs = fixture();
    assert_eq!(fs.write(INO_FULL_REFRESH, 0, &b"  TRUE \n".to_vec()), Ok(8));
    assert!(fs.sync_state.manual_full_pending);
    assert!(!fs.sync_state.manual_pending);
    // asking again changes nothing
    assert_eq!(fs.write(INO_FULL_REFRESH, 0, &b"true".to_vec()), Ok(4));
    assert!(fs.sync_state.manual_full_pending);
}

#[test]
fn write_of_anything_else_sets_no_trigger() {
    let mut fs = fixture();
    assert_eq!(fs.write(INO_MANUAL_REFRESH, 0, &b"maybe".to_vec()), Ok(5));
    assert_eq!(fs.write(INO_MANUAL_REFRESH, 0, &b"maybe\n".to_vec()), Ok(6));
    assert_eq!(fs.write(INO_MANUAL_REFRESH, 0, &b"".to_vec()), Ok(0));
    assert_eq!(fs.write(INO_MANUAL_REFRESH, 0, &b"0".to_vec()), Ok(1));
    assert_eq!(fs.write(INO_MANUAL_REFRESH, 0, &b"11".to_vec()), Ok(2));
    assert_eq!(fs.write(INO_MANUAL_REFRESH, 0, &b"yes".to_vec()), Ok(3));
    assert_eq!(fs.write(INO_FULL_REFRESH, 0, &vec![0xff, b'1']), Ok(2));
    assert!(!fs.sync_state.manual_pending);
    assert!(!fs.sync_state.manual_full_pending);
}

#[test]
fn trigger_payload_is_trimmed_text_one_or_true() {
    assert!(payload_requests_trigger("1"));
    assert!(payload_requests_trigger("true"));
    assert!(payload_requests_trigger(" \t1\r\n"));
    assert!(payload_requests_trigger("\u{3000}true\u{00a0}"));
    assert!(!payload_requests_trigger("TRUE"));
    assert!(!payload_requests_trigger("tru e"));
    assert!(!payload_requests_trigger("1 1"));
    assert!(!payload_requests_trigger(""));
}

#[test]
fn meta_files_say_never_before_the_first_pass() {
    let mut fs = fixture();
    assert_eq!(fs.read(INO_LAST_SYNC, 0, 4096, 0).expect("read"), b"never\n");
    assert_eq!(fs.read(INO_LAST_FULL_SYNC, 0, 4096, 0).expect("read"), b"never\n");
    assert_eq!(fs.read(INO_SECONDS_TO_NEXT, 0, 4096, 0).expect("read"), b"0\n");
    assert_eq!(
        fs.read(INO_MANUAL_REFRESH, 0, 4096, 0).expect("read"),
        b"write '1' or 'true' to trigger sync\n"
    );
    assert_eq!(
        fs.read(INO_FULL_REFRESH, 0, 4096, 0).expect("read"),
        b"write '1' or 'true' to trigger full upsert sync\n"
    );
}

#[test]
fn meta_files_follow_the_coordinator() {
    let mut fs = fixture();
    assert!(fs.sync_state.mark_sync_start());
    assert_eq!(
        fs.read(INO_MANUAL_REFRESH, 0, 4096, 0).expect("read"),
        b"sync in progress\n"
    );
    assert_eq!(
        fs.read(INO_FULL_REFRESH, 0, 4096, 0).expect("read"),
        b"sync in progress\n"
    );
    fs.sync_state.mark_sync_complete(10_000);
    fs.sync_state.mark_sync_end();
    assert_eq!(
        fs.read(INO_LAST_SYNC, 0, 4096, 10_000).expect("read"),
        b"0 seconds ago\n"
    );
    assert_eq!(
        fs.read(INO_LAST_SYNC, 0, 4096, 22_999).expect("read"),
        b"12 seconds ago\n"
    );
    assert_eq!(fs.read(INO_LAST_FULL_SYNC, 0, 4096, 22_999).expect("read"), b"never\n");
    assert_eq!(
        fs.read(INO_SECONDS_TO_NEXT, 0, 4096, 10_000).expect("read"),
        b"60\n"
    );
    assert_eq!(
        fs.read(INO_SECONDS_TO_NEXT, 0, 4096, 25_001).expect("read"),
        b"44\n"
    );
    assert_eq!(
        fs.read(INO_SECONDS_TO_NEXT, 0, 4096, 70_000).expect("read"),
        b"0\n"
    );
    assert_eq!(
        sync_meta_file_content(&fs.sync_state, 0x4242, 0),
        b"unknown\n".to_vec()
    );
}

#[test]
fn reading_an_uncached_issue_serves_the_placeholder() {
    let mut fs = with_listing();
    let dir = inode_for_workspace("default");
    let file = fs.lookup(dir, "ST-1.md", 0).expect("main").ino;
    let got = fs.read(file, 0, 4096, 0).expect("read");
    assert_eq!(
        String::from_utf8(got).expect("text"),
        "# ST-1\n\nNot yet available in local cache. Wait for sync interval or trigger manual refresh via .sync_meta/manual_refresh.\n"
    );
    assert_eq!(
        main_placeholder_bytes("K"),
        b"# K\n\nNot yet available in local cache. Wait for sync interval or trigger manual refresh via .sync_meta/manual_refresh.\n".to_vec()
    );
    // the read asked nobody: one miss, nothing else
    assert_eq!(fs.metrics.snapshot(), (1, 1, 0, 0, 0));
}

#[test]
fn reading_a_comments_file_without_a_sidecar_serves_its_placeholder() {
    let mut fs = with_listing();
    let dir = inode_for_workspace("default");
    let file = fs.lookup(dir, "ST-1.comments.md", 0).expect("comments").ino;
    let got = fs.read(file, 0, 4096, 0).expect("read");
    assert_eq!(
        String::from_utf8(got).expect("text"),
        "# ST-1 comments\n\nComments sidecar is only populated during sync.\n"
    );
    assert_eq!(comments_placeholder_bytes("ST-1").len(), 65);
}

#[test]
fn reading_a_cached_issue_serves_its_bytes_fresh_or_expired() {
    let mut fs = with_listing();
    fs.cache
        .upsert_issue_direct("ST-1", &b"0123456789".to_vec(), &Some("u1".to_string()), 0);
    let dir = inode_for_workspace("default");
    let file = fs.lookup(dir, "ST-1.md", 0).expect("main").ino;
    assert_eq!(fs.read(file, 0, 4096, 1).expect("read"), b"0123456789");
    assert_eq!(fs.read(file, 3, 4, 1).expect("read"), b"3456");
    assert_eq!(fs.read(file, 8, 100, 1).expect("read"), b"89");
    assert_eq!(fs.read(file, 10, 1, 1).expect("read"), b"");
    assert_eq!(fs.read(file, 0, 0, 1).expect("read"), b"");
    let before = fs.metrics.snapshot();
    // expired: the old bytes, counted as stale
    assert_eq!(fs.read(file, 0, 4096, 60_000).expect("read"), b"0123456789");
    let after = fs.metrics.snapshot();
    assert_eq!(after.1, before.1 + 1);
    assert_eq!(after.2, before.2 + 1);
    assert_eq!(fs.read(4711, 0, 10, 0).err(), Some(Errno::ENOENT));
    assert_eq!(fs.read(INO_ROOT, 0, 10, 0).err(), Some(Errno::ENOENT));
}

fn store_path(tag: &str) -> String {
    let nanos = std::time::SystemTime::now()
        .duration_since(std::time::UNIX_EPOCH)
        .map(|d| d.as_nanos())
        .unwrap_or(0);
    format!("/tmp/jirafs-test-{}-{}.db", tag, nanos)
}

#[test]
fn sizes_and_sidecars_come_from_the_store() {
    let cache = InMemoryCache::with_persistence(60_000, 60_000, ":memory:").expect("cache");
    let mut fs = JiraFuseFs::new(
        0,
        0,
        vec![("default".to_string(), "project = ST".to_string())],
        cache,
        10,
        SyncState::new(60),
        Metrics::new(),
    );
    fs.cache.upsert_workspace_issues(
        "default",
        vec![IssueRef { key: "ST-1".to_string(), updated: None }],
        0,
    );
    fs.cache
        .upsert_issue_sidecars_batch(&vec![("ST-1".to_string(), b"comments!".to_vec(), None)]);
    let dir = inode_for_workspace("default");
    let comments = fs.lookup(dir, "ST-1.comments.md", 0).expect("comments");
    assert_eq!(comments.size, 9);
    assert_eq!(fs.read(comments.ino, 0, 100, 0).expect("read"), b"comments!");
    assert_eq!(fs.read(comments.ino, 8, 100, 0).expect("read"), b"!");
}

#[test]
fn reading_comes_from_the_store_where_memory_is_empty() {
    let path = store_path("warm");
    {
        let mut writer = InMemoryCache::with_persistence(60_000, 60_000, &path).expect("cache");
        writer.upsert_issues_batch(
            &vec![("ST-1".to_string(), b"stored".to_vec(), Some("u1".to_string()))],
            0,
        );
    }
    let cache = InMemoryCache::with_persistence(60_000, 60_000, &path).expect("cache");
    assert_eq!(cache.cached_issue_len("ST-1"), None);
    let mut fs = JiraFuseFs::new(
        0,
        0,
        vec![("default".to_string(), "project = ST".to_string())],
        cache,
        10,
        SyncState::new(60),
        Metrics::new(),
    );
    fs.cache.upsert_workspace_issues(
        "default",
        vec![IssueRef { key: "ST-1".to_string(), updated: None }],
        0,
    );
    let dir = inode_for_workspace("default");
    let main = fs.lookup(dir, "ST-1.md", 0).expect("main");
    assert_eq!(main.size, 6);
    assert_eq!(fs.read(main.ino, 0, 100, 0).expect("read"), b"stored");
    // the row became the entry in memory
    assert_eq!(fs.cache.cached_issue_len("ST-1"), Some(6));
    // lookup counted a listing hit, the read a hit
    assert_eq!(fs.metrics.snapshot(), (2, 0, 0, 0, 0));
}

#[test]
fn setattr_is_a_noop_on_trigger_files_only() {
    let fs = fixture();
    let attr = fs.setattr(INO_MANUAL_REFRESH, 0).expect("noop");
    assert_eq!(attr.ino, INO_MANUAL_REFRESH);
    assert_eq!(attr.perm, 0o644);
    assert!(fs.setattr(INO_FULL_REFRESH, 0).is_ok());
    assert_eq!(fs.setattr(INO_LAST_SYNC, 0), Err(Errno::EROFS));
    assert_eq!(fs.setattr(INO_ROOT, 0), Err(Errno::EROFS));
    assert_eq!(fs.setattr(4242, 0), Err(Errno::EROFS));
}

#[test]
fn initial_sync_is_claimed_once() {
    let mut fs = fixture();
    assert!(fs.begin_initial_sync());
    assert!(!fs.begin_initial_sync());
    assert!(!fs.begin_initial_sync());
}

#[test]
fn window_cuts_at_the_end() {
    let data = b"abcdef".to_vec();
    assert_eq!(read_window(&data, 0, 6), b"abcdef");
    assert_eq!(read_window(&data, 0, u32::MAX), b"abcdef");
    assert_eq!(read_window(&data, 2, 3), b"cde");
    assert_eq!(read_window(&data, 5, 3), b"f");
    assert_eq!(read_window(&data, 6, 3), b"");
    assert_eq!(read_window(&data, u64::MAX, 3), b"");
    assert_eq!(read_window(&vec![], 0, 3), b"");
}

#[test]
fn paging_numbers_entries_from_one() {
    let lines = vec![
        (1u64, FileType::Directory, "a".to_string()),
        (2u64, FileType::RegularFile, "b".to_string()),
    ];
    let all = paged(&lines, 0);
    assert_eq!(all.len(), 2);
    assert_eq!((all[0].ino, all[0].offset, all[0].name.as_str()), (1, 1, "a"));
    assert_eq!((all[1].ino, all[1].offset, all[1].name.as_str()), (2, 2, "b"));
    assert_eq!(paged(&lines, 1).len(), 1);
    assert_eq!(paged(&lines, 2).len(), 0);
}
