//! Log lines: a time stamp, a level, and the message with the API token masked.

use vstd::prelude::*;
use crate::decimal::{decimal, push_decimal};
use crate::redact::{redacted, token_masked};
use crate::text::{push_str, string_of};

verus! {

/// How serious a log line is.
#[derive(Debug, Clone, Copy, PartialEq, Eq, Structural)]
pub enum Level {
    Debug,
    Info,
    Warn,
    Error,
}

/// The word of a level.
pub open spec fn level_word(level: Level) -> Seq<char> {
    match level {
        Level::Debug => "DEBUG"@,
        Level::Info => "INFO"@,
        Level::Warn => "WARN"@,
        Level::Error => "ERROR"@,
    }
}

/// Whether a line of this level is written: debug lines only where they are asked for.
pub open spec fn is_written(level: Level, debug_enabled: bool) -> bool {
    level != Level::Debug || debug_enabled
}

/// Whether a line of this level is written.
pub fn should_log(level: Level, debug_enabled: bool) -> (r: bool)
    ensures
        r == is_written(level, debug_enabled),
{
    match level {
        Level::Debug => debug_enabled,
        _ => true,
    }
}

/// A log line: `[<seconds since the epoch>][<LEVEL>] <message>`, the API token in the
/// message masked.
pub open spec fn log_line(ts: u64, level: Level, message: Seq<char>) -> Seq<char> {
    "["@ + decimal(ts as nat) + "]["@ + level_word(level) + "] "@ + token_masked(message)
}

/// The log line for `message` at the time `ts`.
pub fn format_line(ts: u64, level: Level, message: &str) -> (r: String)
    ensures
        r@ == log_line(ts, level, message@),
{
    let word = match level {
        Level::Debug => "DEBUG",
        Level::Info => "INFO",
        Level::Warn => "WARN",
        Level::Error => "ERROR",
    };
    let mut out: Vec<char> = Vec::new();
    push_str(&mut out, "[");
    push_decimal(&mut out, ts);
    push_str(&mut out, "][");
    push_str(&mut out, word);
    push_str(&mut out, "] ");
    push_str(&mut out, redacted(message).as_str());
    assert(out@ =~= log_line(ts, level, message@));
    string_of(&out)
}

} // verus!
