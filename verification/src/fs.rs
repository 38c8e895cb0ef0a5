//! The virtual filesystem: its layout, and what each operation answers from the
//! cache and the coordinator's record.
//!
//! ```text
//! /
//! ├── .sync_meta/
//! │   ├── last_sync
//! │   ├── last_full_sync
//! │   ├── seconds_to_next_sync
//! │   ├── manual_refresh
//! │   └── full_refresh
//! └── workspaces/
//!     └── <workspace>/
//!         ├── <KEY>.md
//!         └── <KEY>.comments.md
//! ```
//!
//! The operations take plain values and return plain values; the layer that speaks
//! to the kernel turns them into its replies.

pub mod inode;
pub mod layout;
pub mod ops;
