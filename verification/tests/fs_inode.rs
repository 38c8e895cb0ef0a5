use jirafs::fs::inode::{
    inode_for_issue, inode_for_issue_comments, inode_for_workspace, namespace_hash,
    INO_FULL_REFRESH, INO_LAST_FULL_SYNC, INO_LAST_SYNC, INO_MANUAL_REFRESH, INO_ROOT,
    INO_SECONDS_TO_NEXT, INO_SYNC_META, INO_WORKSPACES,
};

#[test]
fn workspace_inode_is_deterministic() {
    assert_eq!(
        inode_for_workspace("default"),
        inode_for_workspace("default")
    );
}

#[test]
fn distinct_workspace_inodes() {
    assert_ne!(inode_for_workspace("alpha"), inode_for_workspace("beta"));
}

#[test]
fn issue_inode_is_deterministic_and_namespaced() {
    let a = inode_for_issue("default", "PROJ-1");
    let b = inode_for_issue("default", "PROJ-1");
    let c = inode_for_issue("default", "PROJ-2");
    assert_eq!(a, b);
    assert_ne!(a, c);
    assert_ne!(a, inode_for_workspace("default"));
}

#[test]
fn derived_inodes_have_the_top_bit_and_miss_the_reserved_ones() {
    let reserved = [
        INO_ROOT,
        INO_SYNC_META,
        INO_LAST_SYNC,
        INO_SECONDS_TO_NEXT,
        INO_MANUAL_REFRESH,
        INO_FULL_REFRESH,
        INO_LAST_FULL_SYNC,
        INO_WORKSPACES,
    ];
    for name in ["", "a", "default", "ST-1", "\u{00e9}t\u{00e9}"] {
        for ino in [
            inode_for_workspace(name),
            inode_for_issue("w", name),
            inode_for_issue_comments("w", name),
        ] {
            assert!(ino >= 1u64 << 63);
            assert!(!reserved.contains(&ino));
        }
    }
}

#[test]
fn namespace_hash_is_fnv1a_with_the_top_bit_set() {
    // FNV-1a of the single byte 0x11
    let basis: u64 = 0xcbf2_9ce4_8422_2325;
    let prime: u64 = 0x0000_0100_0000_01b3;
    let one = (basis ^ 0x11).wrapping_mul(prime);
    assert_eq!(namespace_hash(0x11, &vec![]), one | (1u64 << 63));
    let two = (one ^ 0x61).wrapping_mul(prime);
    assert_eq!(namespace_hash(0x11, &vec![0x61]), two | (1u64 << 63));
    assert_eq!(inode_for_workspace("a"), two | (1u64 << 63));
}

#[test]
fn issue_inodes_hash_workspace_slash_key() {
    assert_eq!(
        inode_for_issue("w", "K-1"),
        namespace_hash(0x22, &b"w/K-1".to_vec())
    );
    assert_eq!(
        inode_for_issue_comments("w", "K-1"),
        namespace_hash(0x23, &b"w/K-1#comments.md".to_vec())
    );
    assert_ne!(inode_for_issue("w", "K-1"), inode_for_issue_comments("w", "K-1"));
}
