//! Reading the values of command-line flags.

use vstd::prelude::*;
use crate::decimal::parse_unsigned;
use crate::lines::{find_char, first_index_of};
use crate::text::{
    chars_of, is_str, lower_ascii, lowered, owned, push_all, push_str, string_of, subvec, trim,
    trimmed,
};

verus! {

/// The message for a value that is no number.
pub open spec fn invalid_integer(value: Seq<char>) -> Seq<char> {
    "invalid integer value: "@ + value
}

/// The message for a value that is no truth value.
pub open spec fn invalid_boolean(value: Seq<char>) -> Seq<char> {
    "invalid boolean value: "@ + value
}

fn message(prefix: &str, value: &str) -> (r: String)
    ensures
        r@ == prefix@ + value@,
{
    let mut out = chars_of(prefix);
    push_str(&mut out, value);
    string_of(&out)
}

/// Reads an unsigned number of 64 bits: an optional `+` and digits, nothing else.
pub fn parse_u64(value: &str) -> (r: Result<u64, String>)
    ensures
        match r {
            Ok(n) => parse_unsigned(value@, u64::MAX as nat) == Some(n as nat),
            Err(m) => parse_unsigned(value@, u64::MAX as nat) is None && m@ == invalid_integer(
                value@,
            ),
        },
{
    match crate::decimal::parse_u64(&chars_of(value)) {
        Some(n) => Ok(n),
        None => Err(message("invalid integer value: ", value)),
    }
}

/// Reads an unsigned number of the machine's word size.
pub fn parse_usize(value: &str) -> (r: Result<usize, String>)
    ensures
        match r {
            Ok(n) => parse_unsigned(value@, usize::MAX as nat) == Some(n as nat),
            Err(m) => parse_unsigned(value@, usize::MAX as nat) is None && m@ == invalid_integer(
                value@,
            ),
        },
{
    match crate::decimal::parse_usize(&chars_of(value)) {
        Some(n) => Ok(n),
        None => Err(message("invalid integer value: ", value)),
    }
}

/// The truth value that a word stands for, trimmed and without regard to case:
/// `1`, `true`, `yes`, `on` are true; `0`, `false`, `no`, `off` are false.
pub open spec fn truth_value(value: Seq<char>) -> Option<bool> {
    let w = lower_ascii(trim(value));
    if w == "1"@ || w == "true"@ || w == "yes"@ || w == "on"@ {
        Some(true)
    } else if w == "0"@ || w == "false"@ || w == "no"@ || w == "off"@ {
        Some(false)
    } else {
        None
    }
}

/// Reads a truth value.
pub fn parse_bool(value: &str) -> (r: Result<bool, String>)
    ensures
        match r {
            Ok(b) => truth_value(value@) == Some(b),
            Err(m) => truth_value(value@) is None && m@ == invalid_boolean(value@),
        },
{
    let w = lowered(&trimmed(&chars_of(value)));
    if is_str(&w, "1") || is_str(&w, "true") || is_str(&w, "yes") || is_str(&w, "on") {
        Ok(true)
    } else if is_str(&w, "0") || is_str(&w, "false") || is_str(&w, "no") || is_str(&w, "off") {
        Ok(false)
    } else {
        Err(message("invalid boolean value: ", value))
    }
}

/// What a `name=jql` value stands for: the trimmed name and the trimmed query, split
/// at the first `=`; or the message that says what is wrong with it.
pub open spec fn workspace_override(value: Seq<char>) -> Result<(Seq<char>, Seq<char>), Seq<char>> {
    let i = first_index_of(value, '=');
    if i >= value.len() {
        Err("invalid workspace override '"@ + value + "': expected <name=jql>"@)
    } else {
        let name = trim(value.take(i as int));
        let jql = trim(value.skip(i as int + 1));
        if name.len() == 0 {
            Err("workspace name in --jira-workspace must not be empty"@)
        } else if jql.len() == 0 {
            Err("workspace jql for '"@ + name + "' must not be empty"@)
        } else {
            Ok((name, jql))
        }
    }
}

/// Reads a `name=jql` value.
pub fn parse_workspace_override(value: &str) -> (r: Result<(String, String), String>)
    ensures
        match r {
            Ok((name, jql)) => workspace_override(value@) == Ok::<
                (Seq<char>, Seq<char>),
                Seq<char>,
            >((name@, jql@)),
            Err(m) => workspace_override(value@) == Err::<(Seq<char>, Seq<char>), Seq<char>>(m@),
        },
{
    let v = chars_of(value);
    assert(v@.skip(0) == v@);
    let i = find_char(&v, '=', 0);
    if i >= v.len() {
        let mut out = chars_of("invalid workspace override '");
        push_all(&mut out, &v);
        push_str(&mut out, "': expected <name=jql>");
        return Err(string_of(&out));
    }
    let name = trimmed(&subvec(&v, 0, i));
    let jql = trimmed(&subvec(&v, i + 1, v.len()));
    if name.len() == 0 {
        return Err(owned("workspace name in --jira-workspace must not be empty"));
    }
    if jql.len() == 0 {
        let mut out = chars_of("workspace jql for '");
        push_all(&mut out, &name);
        push_str(&mut out, "' must not be empty");
        return Err(string_of(&out));
    }
    Ok((string_of(&name), string_of(&jql)))
}

} // verus!
