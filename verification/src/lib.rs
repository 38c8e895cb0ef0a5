//! A read-mostly projection of a remote issue tracker as a virtual filesystem.
//!
//! A background pass pulls changed issues into a cache with a durable store below it;
//! the filesystem is answered from that cache and never waits for the network. This
//! library holds the rules: what a sync pass does with a page of issues, how an issue is
//! rendered, what each filesystem operation answers, and when a pass may start. Every
//! function states what it returns or changes, and is verified against that statement.
//!
//! Clocks, sockets, threads and the kernel stay outside: functions take the time as a
//! parameter (`now_ms`, a monotonic clock in milliseconds), take what the remote
//! service answered as a value or ask for it through a function they are given, and
//! take exclusive access (`&mut`) where the running program holds a lock.

/// Sequences of characters: conversion, matching, trimming, case.
pub mod text;
/// Decimal text of unsigned integers.
pub mod decimal;
/// Lines of a text, and joining pieces.
pub mod lines;
/// Repeated beginnings and endings of a text.
pub mod affix;
/// The order of texts by code point, and sorting.
pub mod lexical;
/// Maps keyed by text.
pub mod assoc;
/// JSON documents as trees of plain values.
pub mod json;
/// Counters for cache and remote activity.
pub mod metrics;
/// Credential redaction.
pub mod redact;
/// Log lines.
pub mod logging;
/// The configuration and its rules.
pub mod config;
/// Values of command-line flags.
pub mod cli;
/// The tracker's data model and the rules of talking to it.
pub mod jira;
/// Rendering issues to markdown.
pub mod render;
/// The in-memory cache and the durable store.
pub mod cache;
/// The sync coordinator's record.
pub mod sync_state;
/// The sync engine.
pub mod warmup;
/// The virtual filesystem.
pub mod fs;
/// Decisions of the desktop companion.
pub mod desktop;
