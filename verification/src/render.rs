//! The renderer: from an issue to its two markdown documents.
//!
//! Both documents are functions of the issue alone: the same issue gives the same
//! characters on every run and on every machine.

pub mod rich_text;
pub mod document;
pub mod determinism;

use vstd::prelude::*;
use crate::lines::{lines, seqs, join, joined, split_lines};
use crate::text::{
    chars_of, has_prefix, is_str, lower_ascii, lowered, opt_text, push_str, str_starts_with,
    string_of, trim, trim_end, trimmed, trimmed_end,
};

verus! {

/// A moment as `chrono` counts it: whole seconds since the Unix epoch, and the
/// nanoseconds past them.
pub type Moment = (i64, u32);

/// The moment that `chrono::DateTime::parse_from_rfc3339` reads from `value`; `None`
/// where the text is no RFC 3339 timestamp.
pub uninterp spec fn rfc3339_moment(value: Seq<char>) -> Option<Moment>;

/// The moment that `chrono::DateTime::parse_from_str` reads from `value` under
/// `format`; `None` where the text does not fit the format.
pub uninterp spec fn formatted_moment(value: Seq<char>, format: Seq<char>) -> Option<Moment>;

/// What `chrono::DateTime::to_rfc3339_opts` writes for a moment in UTC, with whole
/// seconds and `Z`; `None` for a moment outside the range of dates.
pub uninterp spec fn utc_text(secs: i64, nanos: u32) -> Option<Seq<char>>;

/// `chrono::DateTime::parse_from_rfc3339`; the result is handed out as its
/// `timestamp` and `timestamp_subsec_nanos`. It depends on the text alone.
#[verifier::external_body]
fn parse_rfc3339(value: &str) -> (r: Option<Moment>)
    ensures
        r == rfc3339_moment(value@),
{
    match chrono::DateTime::parse_from_rfc3339(value) {
        Ok(ts) => Some((ts.timestamp(), ts.timestamp_subsec_nanos())),
        Err(_) => None,
    }
}

/// `chrono::DateTime::parse_from_str`; the result is handed out as its `timestamp` and
/// `timestamp_subsec_nanos`. It depends on the two texts alone.
#[verifier::external_body]
fn parse_with_format(value: &str, format: &str) -> (r: Option<Moment>)
    ensures
        r == formatted_moment(value@, format@),
{
    match chrono::DateTime::parse_from_str(value, format) {
        Ok(ts) => Some((ts.timestamp(), ts.timestamp_subsec_nanos())),
        Err(_) => None,
    }
}

/// `chrono::DateTime::to_rfc3339_opts(SecondsFormat::Secs, true)` on the UTC date and
/// time that `chrono::DateTime::from_timestamp` makes of the moment. It depends on the
/// two numbers alone.
#[verifier::external_body]
fn format_utc(secs: i64, nanos: u32) -> (r: Option<String>)
    ensures
        opt_text(r) == utc_text(secs, nanos),
{
    match chrono::DateTime::from_timestamp(secs, nanos) {
        Some(ts) => Some(ts.to_rfc3339_opts(chrono::SecondsFormat::Secs, true)),
        None => None,
    }
}

/// A timestamp with fractional seconds and a numeric offset.
pub const FRACTION_FORMAT: &'static str = "%Y-%m-%dT%H:%M:%S%.f%z";

/// A timestamp with whole seconds and a numeric offset.
pub const SECONDS_FORMAT: &'static str = "%Y-%m-%dT%H:%M:%S%z";

/// The moment that a trimmed timestamp stands for: read as RFC 3339, else with
/// fractional seconds and a numeric offset, else with whole seconds and a numeric
/// offset.
pub open spec fn moment_of(value: Seq<char>) -> Option<Moment> {
    if rfc3339_moment(value) is Some {
        rfc3339_moment(value)
    } else if formatted_moment(value, FRACTION_FORMAT@) is Some {
        formatted_moment(value, FRACTION_FORMAT@)
    } else {
        formatted_moment(value, SECONDS_FORMAT@)
    }
}

/// The UTC form of a timestamp: the moment that the trimmed text stands for, written
/// in UTC with whole seconds; `None` for an absent, blank or unreadable timestamp.
pub open spec fn iso_utc(raw: Option<Seq<char>>) -> Option<Seq<char>> {
    match raw {
        None => None,
        Some(text) => {
            let value = trim(text);
            if value.len() == 0 {
                None
            } else {
                match moment_of(value) {
                    Some((secs, nanos)) => utc_text(secs, nanos),
                    None => None,
                }
            }
        },
    }
}

/// The UTC form of a timestamp, as `YYYY-MM-DDTHH:MM:SSZ`.
pub fn normalize_iso_utc(raw: &Option<String>) -> (r: Option<String>)
    ensures
        opt_text(r) == iso_utc(opt_text(*raw)),
{
    let text = match raw {
        Some(t) => t,
        None => {
            return None;
        },
    };
    let value = trimmed(&chars_of(text.as_str()));
    if value.len() == 0 {
        return None;
    }
    let value = string_of(&value);
    let moment = match parse_rfc3339(value.as_str()) {
        Some(m) => Some(m),
        None => match parse_with_format(value.as_str(), FRACTION_FORMAT) {
            Some(m) => Some(m),
            None => parse_with_format(value.as_str(), SECONDS_FORMAT),
        },
    };
    match moment {
        Some((secs, nanos)) => format_utc(secs, nanos),
        None => None,
    }
}

/// The text of an optional field, empty where it is absent, in lower case.
pub open spec fn lowered_or_empty(raw: Option<Seq<char>>) -> Seq<char> {
    match raw {
        Some(s) => lower_ascii(s),
        None => Seq::empty(),
    }
}

fn lowered_field(raw: &Option<String>) -> (v: Vec<char>)
    ensures
        v@ == lowered_or_empty(opt_text(*raw)),
{
    match raw {
        Some(s) => lowered(&chars_of(s.as_str())),
        None => Vec::new(),
    }
}

/// The canonical status: `done`, `in_review`, `blocked`, `in_progress`, or `todo` for
/// everything else. The remote name is compared without regard to case.
pub open spec fn canonical_status_of(raw: Option<Seq<char>>) -> Seq<char> {
    let s = lowered_or_empty(raw);
    if s == "done"@ || s == "closed"@ || s == "resolved"@ {
        "done"@
    } else if s == "in review"@ || s == "review"@ || s == "qa"@ {
        "in_review"@
    } else if s == "blocked"@ {
        "blocked"@
    } else if s == "in progress"@ || s == "doing"@ || s == "active"@ {
        "in_progress"@
    } else {
        "todo"@
    }
}

/// The canonical status of a remote status name.
pub fn canonical_status(raw: &Option<String>) -> (r: &'static str)
    ensures
        r@ == canonical_status_of(opt_text(*raw)),
{
    let s = lowered_field(raw);
    if is_str(&s, "done") || is_str(&s, "closed") || is_str(&s, "resolved") {
        "done"
    } else if is_str(&s, "in review") || is_str(&s, "review") || is_str(&s, "qa") {
        "in_review"
    } else if is_str(&s, "blocked") {
        "blocked"
    } else if is_str(&s, "in progress") || is_str(&s, "doing") || is_str(&s, "active") {
        "in_progress"
    } else {
        "todo"
    }
}

/// The canonical type: `epic`, `story`, `bug`, `subtask`, or `task` for everything
/// else. The remote name is compared without regard to case.
pub open spec fn canonical_type_of(raw: Option<Seq<char>>) -> Seq<char> {
    let s = lowered_or_empty(raw);
    if s == "epic"@ {
        "epic"@
    } else if s == "story"@ {
        "story"@
    } else if s == "bug"@ {
        "bug"@
    } else if s == "sub-task"@ || s == "subtask"@ {
        "subtask"@
    } else {
        "task"@
    }
}

/// The canonical type of a remote type name.
pub fn canonical_type(raw: &Option<String>) -> (r: &'static str)
    ensures
        r@ == canonical_type_of(opt_text(*raw)),
{
    let s = lowered_field(raw);
    if is_str(&s, "epic") {
        "epic"
    } else if is_str(&s, "story") {
        "story"
    } else if is_str(&s, "bug") {
        "bug"
    } else if is_str(&s, "sub-task") || is_str(&s, "subtask") {
        "subtask"
    } else {
        "task"
    }
}

/// The canonical priority: `p0` for highest or blocker, `p1` for high, `p2` for
/// medium, `p3` for low, `p4` for everything else. The remote name is compared
/// without regard to case.
pub open spec fn canonical_priority_of(raw: Option<Seq<char>>) -> Seq<char> {
    let s = lowered_or_empty(raw);
    if s == "highest"@ || s == "blocker"@ {
        "p0"@
    } else if s == "high"@ {
        "p1"@
    } else if s == "medium"@ {
        "p2"@
    } else if s == "low"@ {
        "p3"@
    } else {
        "p4"@
    }
}

/// The canonical priority of a remote priority name.
pub fn canonical_priority(raw: &Option<String>) -> (r: &'static str)
    ensures
        r@ == canonical_priority_of(opt_text(*raw)),
{
    let s = lowered_field(raw);
    if is_str(&s, "highest") || is_str(&s, "blocker") {
        "p0"
    } else if is_str(&s, "high") {
        "p1"
    } else if is_str(&s, "medium") {
        "p2"
    } else if is_str(&s, "low") {
        "p3"
    } else {
        "p4"
    }
}

/// `s` with a backslash before every double quote.
pub open spec fn quotes_escaped(s: Seq<char>) -> Seq<char>
    decreases s.len(),
{
    if s.len() == 0 {
        Seq::empty()
    } else if s.last() == '"' {
        quotes_escaped(s.drop_last()).push('\\').push('"')
    } else {
        quotes_escaped(s.drop_last()).push(s.last())
    }
}

/// `s` as a double-quoted YAML string.
pub open spec fn yaml_quoted(s: Seq<char>) -> Seq<char> {
    seq!['"'] + quotes_escaped(s) + seq!['"']
}

/// Appends `s` as a double-quoted YAML string.
pub fn push_yaml_quote(out: &mut Vec<char>, s: &Vec<char>)
    ensures
        final(out)@ == old(out)@ + yaml_quoted(s@),
{
    out.push('"');
    let ghost start = out@;
    let mut i: usize = 0;
    assert(quotes_escaped(s@.take(0)) =~= Seq::<char>::empty());
    while i < s.len()
        invariant
            i <= s.len(),
            start == old(out)@.push('"'),
            out@ == start + quotes_escaped(s@.take(i as int)),
        decreases s.len() - i,
    {
        assert(s@.take(i + 1).drop_last() == s@.take(i as int));
        if s[i] == '"' {
            out.push('\\');
            out.push('"');
        } else {
            out.push(s[i]);
        }
        i += 1;
    }
    assert(s@.take(s.len() as int) == s@);
    out.push('"');
    assert(out@ =~= old(out)@ + yaml_quoted(s@));
}

/// `v` as a double-quoted YAML string.
pub fn yaml_quote(v: &str) -> (r: String)
    ensures
        r@ == yaml_quoted(v@),
{
    let mut out: Vec<char> = Vec::new();
    push_yaml_quote(&mut out, &chars_of(v));
    assert(out@ =~= yaml_quoted(v@));
    string_of(&out)
}

/// An optional text as YAML: `null`, or the double-quoted string.
pub open spec fn yaml_optional(v: Option<Seq<char>>) -> Seq<char> {
    match v {
        Some(s) => yaml_quoted(s),
        None => "null"@,
    }
}

/// Appends an optional text as YAML.
pub fn push_yaml_opt(out: &mut Vec<char>, v: &Option<String>)
    ensures
        final(out)@ == old(out)@ + yaml_optional(opt_text(*v)),
{
    match v {
        Some(s) => push_yaml_quote(out, &chars_of(s.as_str())),
        None => push_str(out, "null"),
    }
}

/// An optional text as YAML.
pub fn yaml_opt(v: &Option<String>) -> (r: String)
    ensures
        r@ == yaml_optional(opt_text(*v)),
{
    let mut out: Vec<char> = Vec::new();
    push_yaml_opt(&mut out, v);
    assert(out@ =~= yaml_optional(opt_text(*v)));
    string_of(&out)
}

/// The double-quoted forms of `values[..n]`, each after the first preceded by a
/// comma and a space.
pub open spec fn yaml_items(values: Seq<String>, n: int) -> Seq<char>
    decreases n,
{
    if n <= 0 {
        Seq::empty()
    } else if n == 1 {
        yaml_quoted(values[0]@)
    } else {
        yaml_items(values, n - 1) + ", "@ + yaml_quoted(values[n - 1]@)
    }
}

/// A list of texts as a YAML flow sequence: `[]` where it is empty.
pub open spec fn yaml_sequence(values: Seq<String>) -> Seq<char> {
    if values.len() == 0 {
        "[]"@
    } else {
        seq!['['] + yaml_items(values, values.len() as int) + seq![']']
    }
}

/// Appends a list of texts as a YAML flow sequence.
pub fn push_yaml_array(out: &mut Vec<char>, values: &Vec<String>)
    ensures
        final(out)@ == old(out)@ + yaml_sequence(values@),
{
    if values.len() == 0 {
        push_str(out, "[]");
        return ;
    }
    out.push('[');
    let ghost start = out@;
    let mut i: usize = 0;
    while i < values.len()
        invariant
            i <= values.len(),
            start == old(out)@.push('['),
            out@ == start + yaml_items(values@, i as int),
        decreases values.len() - i,
    {
        if i > 0 {
            push_str(out, ", ");
        }
        push_yaml_quote(out, &chars_of(values[i].as_str()));
        assert(out@ =~= start + yaml_items(values@, i + 1));
        i += 1;
    }
    out.push(']');
    assert(out@ =~= old(out)@ + yaml_sequence(values@));
}

/// A list of texts as a YAML flow sequence.
pub fn yaml_array(values: &Vec<String>) -> (r: String)
    ensures
        r@ == yaml_sequence(values@),
{
    let mut out: Vec<char> = Vec::new();
    push_yaml_array(&mut out, values);
    assert(out@ =~= yaml_sequence(values@));
    string_of(&out)
}

/// Whether a line is a check-list item: without its trailing white space and without
/// regard to case, it begins with `- [ ]` or `- [x]`.
pub open spec fn is_criterion(line: Seq<char>) -> bool {
    has_prefix(lower_ascii(trim_end(line)), "- [ ]"@) || has_prefix(
        lower_ascii(trim_end(line)),
        "- [x]"@,
    )
}

/// The check-list items among `all[..n]`, each without its trailing white space, in
/// order.
pub open spec fn criteria_of(all: Seq<Seq<char>>, n: int) -> Seq<Seq<char>>
    decreases n,
{
    if n <= 0 {
        Seq::empty()
    } else if is_criterion(all[n - 1]) {
        criteria_of(all, n - 1).push(trim_end(all[n - 1]))
    } else {
        criteria_of(all, n - 1)
    }
}

/// The lines among `all[..n]` that are no check-list items, each without its trailing
/// white space, in order.
pub open spec fn notes_of(all: Seq<Seq<char>>, n: int) -> Seq<Seq<char>>
    decreases n,
{
    if n <= 0 {
        Seq::empty()
    } else if is_criterion(all[n - 1]) {
        notes_of(all, n - 1)
    } else {
        notes_of(all, n - 1).push(trim_end(all[n - 1]))
    }
}

/// The acceptance criteria of a description: its check-list items.
pub open spec fn acceptance_criteria(markdown: Seq<char>) -> Seq<Seq<char>> {
    criteria_of(lines(markdown), lines(markdown).len() as int)
}

/// The implementation notes of a description: every other line, joined again and
/// trimmed.
pub open spec fn implementation_notes(markdown: Seq<char>) -> Seq<char> {
    trim(join(notes_of(lines(markdown), lines(markdown).len() as int), "\n"@))
}

/// Splits a description into acceptance criteria and implementation notes.
pub fn split_acceptance_criteria(markdown: &str) -> (r: (Vec<Vec<char>>, Vec<char>))
    ensures
        seqs(r.0@) == acceptance_criteria(markdown@),
        r.1@ == implementation_notes(markdown@),
{
    let all = split_lines(&chars_of(markdown));
    let mut criteria: Vec<Vec<char>> = Vec::new();
    let mut notes: Vec<Vec<char>> = Vec::new();
    let ghost views = seqs(all@);
    let mut i: usize = 0;
    assert(seqs(criteria@) =~= criteria_of(views, 0));
    assert(seqs(notes@) =~= notes_of(views, 0));
    while i < all.len()
        invariant
            i <= all.len(),
            views == seqs(all@),
            seqs(criteria@) == criteria_of(views, i as int),
            seqs(notes@) == notes_of(views, i as int),
        decreases all.len() - i,
    {
        let line = trimmed_end(&all[i]);
        let lower = lowered(&line);
        assert(views[i as int] == all@[i as int]@);
        let ghost before_c = seqs(criteria@);
        let ghost before_n = seqs(notes@);
        if str_starts_with(&lower, "- [ ]") || str_starts_with(&lower, "- [x]") {
            criteria.push(line);
            assert(seqs(criteria@) =~= before_c.push(trim_end(views[i as int])));
        } else {
            notes.push(line);
            assert(seqs(notes@) =~= before_n.push(trim_end(views[i as int])));
        }
        i += 1;
    }
    let text = joined(&notes, "\n");
    (criteria, trimmed(&text))
}

} // verus!
