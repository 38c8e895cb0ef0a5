//! Inode numbers: the reserved ones and those derived from names.

use vstd::prelude::*;
use vstd::string::StrSliceExecFns;
use vstd::utf8::encode_utf8;

verus! {

/// The root directory, as the kernel names it.
pub const INO_ROOT: u64 = 1;

/// The directory `.sync_meta`.
pub const INO_SYNC_META: u64 = 0x1000;

/// The file `.sync_meta/last_sync`.
pub const INO_LAST_SYNC: u64 = 0x1001;

/// The file `.sync_meta/seconds_to_next_sync`.
pub const INO_SECONDS_TO_NEXT: u64 = 0x1002;

/// The file `.sync_meta/manual_refresh`.
pub const INO_MANUAL_REFRESH: u64 = 0x1003;

/// The file `.sync_meta/full_refresh`.
pub const INO_FULL_REFRESH: u64 = 0x1004;

/// The file `.sync_meta/last_full_sync`.
pub const INO_LAST_FULL_SYNC: u64 = 0x1005;

/// The directory `workspaces`.
pub const INO_WORKSPACES: u64 = 0x2000;

/// The offset basis of 64-bit FNV-1a.
pub const FNV_OFFSET: u64 = 0xcbf2_9ce4_8422_2325;

/// The prime of 64-bit FNV-1a.
pub const FNV_PRIME: u64 = 0x0000_0100_0000_01b3;

/// The namespace byte of workspace directories.
pub const NS_WORKSPACE: u8 = 0x11;

/// The namespace byte of main issue files.
pub const NS_ISSUE_MAIN: u8 = 0x22;

/// The namespace byte of comment sidecar files.
pub const NS_ISSUE_COMMENTS: u8 = 0x23;

/// Whether `ino` is one of the five files under `.sync_meta`.
pub open spec fn is_meta_file(ino: u64) -> bool {
    ino == INO_LAST_SYNC || ino == INO_LAST_FULL_SYNC || ino == INO_SECONDS_TO_NEXT || ino
        == INO_MANUAL_REFRESH || ino == INO_FULL_REFRESH
}

/// Whether `ino` is one of the two files under `.sync_meta` that take writes.
pub open spec fn is_trigger_file(ino: u64) -> bool {
    ino == INO_MANUAL_REFRESH || ino == INO_FULL_REFRESH
}

/// Whether `ino` is a reserved inode: the root, a fixed directory or a meta file.
pub open spec fn is_reserved(ino: u64) -> bool {
    ino == INO_ROOT || ino == INO_SYNC_META || ino == INO_WORKSPACES || is_meta_file(ino)
}

/// Whether `ino` is one of the five files under `.sync_meta`.
pub fn meta_file(ino: u64) -> (r: bool)
    ensures
        r == is_meta_file(ino),
{
    ino == INO_LAST_SYNC || ino == INO_LAST_FULL_SYNC || ino == INO_SECONDS_TO_NEXT || ino
        == INO_MANUAL_REFRESH || ino == INO_FULL_REFRESH
}

/// Whether `ino` is one of the two files under `.sync_meta` that take writes.
pub fn trigger_file(ino: u64) -> (r: bool)
    ensures
        r == is_trigger_file(ino),
{
    ino == INO_MANUAL_REFRESH || ino == INO_FULL_REFRESH
}

/// One round of FNV-1a: mix in a byte, then multiply by the prime, modulo 2^64.
pub open spec fn fnv_step(hash: u64, byte: u8) -> u64 {
    vstd::wrapping::u64_specs::wrapping_mul(hash ^ (byte as u64), FNV_PRIME)
}

/// FNV-1a over `bytes`, starting from `hash`.
pub open spec fn fnv_fold(hash: u64, bytes: Seq<u8>) -> u64
    decreases bytes.len(),
{
    if bytes.len() == 0 {
        hash
    } else {
        fnv_step(fnv_fold(hash, bytes.drop_last()), bytes.last())
    }
}

/// The inode for a name in a namespace: FNV-1a over the namespace byte followed by
/// the name's bytes, with the top bit set.
pub open spec fn namespace_hash_of(namespace: u8, bytes: Seq<u8>) -> u64 {
    fnv_fold(fnv_step(FNV_OFFSET, namespace), bytes) | 0x8000_0000_0000_0000u64
}

/// The inode for a name in a namespace.
pub fn namespace_hash(namespace: u8, bytes: &Vec<u8>) -> (ino: u64)
    ensures
        ino == namespace_hash_of(namespace, bytes@),
        ino >= 0x8000_0000_0000_0000,
        !is_reserved(ino),
{
    let mut hash: u64 = FNV_OFFSET;
    hash = hash ^ (namespace as u64);
    hash = hash.wrapping_mul(FNV_PRIME);
    let mut i: usize = 0;
    while i < bytes.len()
        invariant
            i <= bytes.len(),
            hash == fnv_fold(fnv_step(FNV_OFFSET, namespace), bytes@.take(i as int)),
        decreases bytes.len() - i,
    {
        hash = hash ^ (bytes[i] as u64);
        hash = hash.wrapping_mul(FNV_PRIME);
        assert(bytes@.take(i + 1).drop_last() == bytes@.take(i as int));
        i += 1;
    }
    assert(bytes@.take(bytes.len() as int) == bytes@);
    let value: u64 = hash | 0x8000_0000_0000_0000u64;
    assert(value >= 0x8000_0000_0000_0000u64) by (bit_vector)
        requires
            value == hash | 0x8000_0000_0000_0000u64,
    ;
    value
}

/// The bytes that the inode of an issue's main file is derived from.
pub open spec fn issue_bytes_of(workspace: Seq<char>, issue_key: Seq<char>) -> Seq<u8> {
    encode_utf8(workspace) + seq![47u8] + encode_utf8(issue_key)
}

/// The bytes that the inode of an issue's comments file is derived from.
pub open spec fn comments_bytes_of(workspace: Seq<char>, issue_key: Seq<char>) -> Seq<u8> {
    issue_bytes_of(workspace, issue_key) + encode_utf8("#comments.md"@)
}

/// The inode of the directory of `workspace`.
pub open spec fn workspace_inode(workspace: Seq<char>) -> u64 {
    namespace_hash_of(NS_WORKSPACE, encode_utf8(workspace))
}

/// The inode of the main file of `issue_key` in `workspace`.
pub open spec fn issue_inode(workspace: Seq<char>, issue_key: Seq<char>) -> u64 {
    namespace_hash_of(NS_ISSUE_MAIN, issue_bytes_of(workspace, issue_key))
}

/// The inode of the comments file of `issue_key` in `workspace`.
pub open spec fn comments_inode(workspace: Seq<char>, issue_key: Seq<char>) -> u64 {
    namespace_hash_of(NS_ISSUE_COMMENTS, comments_bytes_of(workspace, issue_key))
}

/// Appends the bytes of `src` to `out`.
pub fn push_bytes(out: &mut Vec<u8>, src: &Vec<u8>)
    ensures
        final(out)@ == old(out)@ + src@,
{
    let mut i: usize = 0;
    while i < src.len()
        invariant
            i <= src.len(),
            out@ == old(out)@ + src@.take(i as int),
        decreases src.len() - i,
    {
        out.push(src[i]);
        i += 1;
    }
}

/// The inode of the directory of `workspace`.
pub fn inode_for_workspace(workspace: &str) -> (ino: u64)
    ensures
        ino == workspace_inode(workspace@),
        !is_reserved(ino),
{
    let bytes = workspace.as_bytes_vec();
    namespace_hash(NS_WORKSPACE, &bytes)
}

fn issue_name_bytes(workspace: &str, issue_key: &str) -> (bytes: Vec<u8>)
    ensures
        bytes@ == issue_bytes_of(workspace@, issue_key@),
{
    let mut bytes = workspace.as_bytes_vec();
    bytes.push(47u8);
    let key_bytes = issue_key.as_bytes_vec();
    push_bytes(&mut bytes, &key_bytes);
    bytes
}

/// The inode of the main file of `issue_key` in `workspace`.
pub fn inode_for_issue(workspace: &str, issue_key: &str) -> (ino: u64)
    ensures
        ino == issue_inode(workspace@, issue_key@),
        !is_reserved(ino),
{
    let bytes = issue_name_bytes(workspace, issue_key);
    namespace_hash(NS_ISSUE_MAIN, &bytes)
}

/// The inode of the comments file of `issue_key` in `workspace`.
pub fn inode_for_issue_comments(workspace: &str, issue_key: &str) -> (ino: u64)
    ensures
        ino == comments_inode(workspace@, issue_key@),
        !is_reserved(ino),
{
    let mut bytes = issue_name_bytes(workspace, issue_key);
    let suffix = "#comments.md".as_bytes_vec();
    push_bytes(&mut bytes, &suffix);
    namespace_hash(NS_ISSUE_COMMENTS, &bytes)
}

/// The inode derived for a name never is a reserved one, and is the same whenever
/// the namespace byte and the name's bytes are the same.
pub proof fn lemma_inode_assignment(namespace: u8, bytes: Seq<u8>)
    ensures
        !is_reserved(namespace_hash_of(namespace, bytes)),
        namespace_hash_of(namespace, bytes) >= 0x8000_0000_0000_0000,
{
    let h = fnv_fold(fnv_step(FNV_OFFSET, namespace), bytes);
    let v = h | 0x8000_0000_0000_0000u64;
    assert(v >= 0x8000_0000_0000_0000u64) by (bit_vector)
        requires
            v == h | 0x8000_0000_0000_0000u64,
    ;
}

} // verus!
