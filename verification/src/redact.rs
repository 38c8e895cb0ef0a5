//! Credential redaction by regular expressions, for rendered documents and for log
//! lines.

use vstd::prelude::*;

verus! {

/// What `regex::Regex::replace_all` returns for the regular expression `pattern`, the
/// text `haystack` and the replacement `replacement`, in which `$1`, `$2` and so on
/// stand for capture groups; `None` where `regex::Regex::new` rejects the pattern.
pub uninterp spec fn regex_replaced(
    pattern: Seq<char>,
    haystack: Seq<char>,
    replacement: Seq<char>,
) -> Option<Seq<char>>;

/// `regex::Regex::new` followed by `regex::Regex::replace_all`. The result depends on
/// the three texts alone.
#[verifier::external_body]
pub(crate) fn regex_replace_all(pattern: &str, haystack: &str, replacement: &str) -> (r: Option<
    String,
>)
    ensures
        crate::text::opt_text(r) == regex_replaced(pattern@, haystack@, replacement@),
{
    match regex::Regex::new(pattern) {
        Ok(re) => Some(re.replace_all(haystack, replacement).into_owned()),
        Err(_) => None,
    }
}

/// `haystack` with every match of `pattern` replaced; unchanged where the pattern is
/// no regular expression.
pub open spec fn replaced(pattern: Seq<char>, haystack: Seq<char>, replacement: Seq<char>) -> Seq<
    char,
> {
    match regex_replaced(pattern, haystack, replacement) {
        Some(t) => t,
        None => haystack,
    }
}

/// `haystack` with every match of `pattern` replaced; unchanged where the pattern is
/// no regular expression.
pub fn replace_matches(pattern: &str, haystack: &str, replacement: &str) -> (r: String)
    ensures
        r@ == replaced(pattern@, haystack@, replacement@),
{
    match regex_replace_all(pattern, haystack, replacement) {
        Some(t) => t,
        None => crate::text::owned(haystack),
    }
}

/// A bearer token: the word, white space, then 16 or more token characters.
pub const BEARER_PATTERN: &'static str = "(?i)bearer\\s+[A-Za-z0-9._\\-]{16,}";

/// A named secret: one of the key words, `:` or `=`, then 8 or more token characters,
/// with optional quotes.
pub const ASSIGNMENT_PATTERN: &'static str =
    "(?i)(api[_-]?key|token|secret|password)\\s*[:=]\\s*['\\\"]?[A-Za-z0-9._\\-]{8,}['\\\"]?";

/// A standalone run of 32 or more token characters.
pub const LONG_TOKEN_PATTERN: &'static str = "\\b[A-Za-z0-9_\\-]{32,}\\b";

/// `input` after the three redaction passes, in this order: bearer tokens, named
/// secrets, long tokens.
pub open spec fn secrets_redacted(input: Seq<char>) -> Seq<char> {
    replaced(
        LONG_TOKEN_PATTERN@,
        replaced(
            ASSIGNMENT_PATTERN@,
            replaced(BEARER_PATTERN@, input, "Bearer [REDACTED]"@),
            "$1=[REDACTED]"@,
        ),
        "[REDACTED]"@,
    )
}

/// Replaces what looks like a credential in `input`.
pub fn redact_secrets(input: &str) -> (r: String)
    ensures
        r@ == secrets_redacted(input@),
{
    let a = replace_matches(BEARER_PATTERN, input, "Bearer [REDACTED]");
    let b = replace_matches(ASSIGNMENT_PATTERN, a.as_str(), "$1=[REDACTED]");
    replace_matches(LONG_TOKEN_PATTERN, b.as_str(), "[REDACTED]")
}

/// An API token in a TOML assignment.
pub const TOML_TOKEN_PATTERN: &'static str = "(?i)(api_token\\s*=\\s*[\"'])([^\"']+)([\"'])";

/// An API token in a TOML assignment whose quotes are escaped.
pub const ESCAPED_TOML_TOKEN_PATTERN: &'static str =
    "(?i)(api_token\\s*=\\s*\\\\+\")([^\"]+)(\\\\+\")";

/// An API token given on the command line.
pub const CLI_TOKEN_PATTERN: &'static str = "(?i)(--jira-api-token\\s+)(\\S+)";

/// An API token in a JSON member.
pub const JSON_TOKEN_PATTERN: &'static str = "(?i)(\\\"api_token\\\"\\s*:\\s*\\\")(.*?)(\\\")";

/// `message` with the API token masked, in the four forms a log line may hold it:
/// a TOML assignment, one with escaped quotes, a command-line flag, a JSON member.
pub open spec fn token_masked(message: Seq<char>) -> Seq<char> {
    replaced(
        JSON_TOKEN_PATTERN@,
        replaced(
            CLI_TOKEN_PATTERN@,
            replaced(
                ESCAPED_TOML_TOKEN_PATTERN@,
                replaced(TOML_TOKEN_PATTERN@, message, "$1***REDACTED***$3"@),
                "$1***REDACTED***$3"@,
            ),
            "$1***REDACTED***"@,
        ),
        "$1***REDACTED***$3"@,
    )
}

/// Masks the API token in a log message.
pub fn redacted(message: &str) -> (r: String)
    ensures
        r@ == token_masked(message@),
{
    let a = replace_matches(TOML_TOKEN_PATTERN, message, "$1***REDACTED***$3");
    let b = replace_matches(ESCAPED_TOML_TOKEN_PATTERN, a.as_str(), "$1***REDACTED***$3");
    let c = replace_matches(CLI_TOKEN_PATTERN, b.as_str(), "$1***REDACTED***");
    replace_matches(JSON_TOKEN_PATTERN, c.as_str(), "$1***REDACTED***$3")
}

} // verus!
