//! The base URL of the tracker, as users type it and as requests use it.

use vstd::prelude::*;
use crate::affix::{strip_prefix_all, strip_trailing, stripped_prefix_all, stripped_trailing};
use crate::jira::JiraError;
use crate::text::{
    chars_of, has_prefix, opt_text, owned, push_all, str_starts_with, string_of, subvec, trim,
    trimmed,
};

verus! {

/// What `url::Url::parse` makes of `candidate`, written back by `as_str`; `None`
/// where it is no absolute URL.
pub uninterp spec fn url_serialized(candidate: Seq<char>) -> Option<Seq<char>>;

/// `reqwest::Url::parse`, which is `url::Url::parse`, followed by `as_str`. The
/// result depends on the text alone.
#[verifier::external_body]
fn parse_url(candidate: &str) -> (r: Option<String>)
    ensures
        opt_text(r) == url_serialized(candidate@),
{
    match reqwest::Url::parse(candidate) {
        Ok(url) => Some(url.as_str().to_string()),
        Err(_) => None,
    }
}

/// The trimmed text with the known typos mended and a scheme in front: a doubled
/// scheme that lost its colon (`https://https//x`, `http://http//x`) is collapsed;
/// a scheme that lost its colon (`https//x`, `http//x`) gets it back; a text that
/// still has no scheme gets `https://`.
pub open spec fn url_candidate(trimmed_raw: Seq<char>) -> Seq<char> {
    let c = if has_prefix(trimmed_raw, "https://https//"@) {
        "https://"@ + trimmed_raw.skip("https://https//"@.len() as int)
    } else if has_prefix(trimmed_raw, "http://http//"@) {
        "http://"@ + trimmed_raw.skip("http://http//"@.len() as int)
    } else {
        trimmed_raw
    };
    if has_prefix(c, "https//"@) {
        "https://"@ + strip_prefix_all(c, "https//"@)
    } else if has_prefix(c, "http//"@) {
        "http://"@ + strip_prefix_all(c, "http//"@)
    } else if !has_prefix(c, "https://"@) && !has_prefix(c, "http://"@) {
        "https://"@ + c
    } else {
        c
    }
}

/// The normal form of a base URL: `None` for a blank text and for one that is no URL
/// after mending; else what the URL parser writes back for the mended text, without
/// its trailing slashes.
pub open spec fn normalized_base_url(raw: Seq<char>) -> Option<Seq<char>> {
    let t = trim(raw);
    if t.len() == 0 {
        None
    } else {
        match url_serialized(url_candidate(t)) {
            Some(s) => Some(strip_trailing(s, '/')),
            None => None,
        }
    }
}

fn replace_prefix(v: &Vec<char>, old_prefix: &str, new_prefix: &str) -> (r: Vec<char>)
    requires
        has_prefix(v@, old_prefix@),
    ensures
        r@ == new_prefix@ + v@.skip(old_prefix@.len() as int),
{
    let n = chars_of(old_prefix).len();
    let mut r = chars_of(new_prefix);
    push_all(&mut r, &subvec(v, n, v.len()));
    r
}

/// The mended text for a trimmed base URL.
pub fn mend_base_url(trimmed_raw: &Vec<char>) -> (r: Vec<char>)
    ensures
        r@ == url_candidate(trimmed_raw@),
{
    let c: Vec<char> = if str_starts_with(trimmed_raw, "https://https//") {
        replace_prefix(trimmed_raw, "https://https//", "https://")
    } else if str_starts_with(trimmed_raw, "http://http//") {
        replace_prefix(trimmed_raw, "http://http//", "http://")
    } else {
        subvec(trimmed_raw, 0, trimmed_raw.len())
    };
    assert(trimmed_raw@.subrange(0, trimmed_raw.len() as int) == trimmed_raw@);
    if str_starts_with(&c, "https//") {
        let mut r = chars_of("https://");
        push_all(&mut r, &stripped_prefix_all(&c, "https//"));
        r
    } else if str_starts_with(&c, "http//") {
        let mut r = chars_of("http://");
        push_all(&mut r, &stripped_prefix_all(&c, "http//"));
        r
    } else if !str_starts_with(&c, "https://") && !str_starts_with(&c, "http://") {
        let mut r = chars_of("https://");
        push_all(&mut r, &c);
        r
    } else {
        c
    }
}

/// The normal form of the base URL `raw`, or `InvalidBaseUrl` with the text as it
/// was given, exactly when it has none.
pub fn normalize_base_url(raw: &str) -> (r: Result<String, JiraError>)
    ensures
        match r {
            Ok(url) => normalized_base_url(raw@) == Some(url@),
            Err(e) => normalized_base_url(raw@) is None && (e matches JiraError::InvalidBaseUrl(
                text,
            ) && text@ == raw@),
        },
{
    let t = trimmed(&chars_of(raw));
    if t.len() == 0 {
        return Err(JiraError::InvalidBaseUrl(owned(raw)));
    }
    let candidate = string_of(&mend_base_url(&t));
    match parse_url(candidate.as_str()) {
        Some(s) => Ok(string_of(&stripped_trailing(&chars_of(s.as_str()), '/'))),
        None => Err(JiraError::InvalidBaseUrl(owned(raw))),
    }
}

/// A text that begins with `p` and goes on with `x` has the prefix `p`.
proof fn lemma_prefix_of_concat(p: Seq<char>, x: Seq<char>)
    ensures
        has_prefix(p + x, p),
{
    assert((p + x).subrange(0, p.len() as int) == p);
}

/// The mended text always carries a scheme: it begins with `https://` or `http://`.
pub proof fn lemma_mended_has_scheme(trimmed_raw: Seq<char>)
    ensures
        has_prefix(url_candidate(trimmed_raw), "https://"@) || has_prefix(
            url_candidate(trimmed_raw),
            "http://"@,
        ),
{
    let c = if has_prefix(trimmed_raw, "https://https//"@) {
        "https://"@ + trimmed_raw.skip("https://https//"@.len() as int)
    } else if has_prefix(trimmed_raw, "http://http//"@) {
        "http://"@ + trimmed_raw.skip("http://http//"@.len() as int)
    } else {
        trimmed_raw
    };
    if has_prefix(c, "https//"@) {
        lemma_prefix_of_concat("https://"@, strip_prefix_all(c, "https//"@));
    } else if has_prefix(c, "http//"@) {
        lemma_prefix_of_concat("http://"@, strip_prefix_all(c, "http//"@));
    } else if !has_prefix(c, "https://"@) && !has_prefix(c, "http://"@) {
        lemma_prefix_of_concat("https://"@, c);
    }
}

/// A text that begins with `https://` or `http://`, and not with a doubled scheme
/// (`https://https//` or `http://http//`), needs no mending.
pub proof fn lemma_scheme_needs_no_mending(m: Seq<char>)
    requires
        has_prefix(m, "https://"@) || has_prefix(m, "http://"@),
        !has_prefix(m, "https://https//"@),
        !has_prefix(m, "http://http//"@),
    ensures
        url_candidate(m) == m,
{
    reveal_strlit("https://");
    reveal_strlit("http://");
    reveal_strlit("https//");
    reveal_strlit("http//");
    if has_prefix(m, "https://"@) {
        let lit = "https://"@;
        assert(m.subrange(0, 8) == lit);
        assert(m[4] == m.subrange(0, 8)[4]);
        assert(m[5] == m.subrange(0, 8)[5]);
        assert(m[4] == 's');
        assert(m[5] == ':');
        if has_prefix(m, "https//"@) {
            assert(m.subrange(0, 7)[5] == m[5]);
            assert(false);
        }
        if has_prefix(m, "http//"@) {
            assert(m.subrange(0, 6)[4] == m[4]);
            assert(false);
        }
    } else {
        let lit = "http://"@;
        assert(m.subrange(0, 7) == lit);
        assert(m[4] == m.subrange(0, 7)[4]);
        assert(m[4] == ':');
        if has_prefix(m, "https//"@) {
            assert(m.subrange(0, 7)[4] == m[4]);
            assert(false);
        }
        if has_prefix(m, "http//"@) {
            assert(m.subrange(0, 6)[4] == m[4]);
            assert(false);
        }
    }
}

/// Mending twice is mending once, for every text whose mended form does not itself
/// begin with a doubled scheme (`https://https//` or `http://http//`).
pub proof fn lemma_mending_idempotent(trimmed_raw: Seq<char>)
    requires
        !has_prefix(url_candidate(trimmed_raw), "https://https//"@),
        !has_prefix(url_candidate(trimmed_raw), "http://http//"@),
    ensures
        url_candidate(url_candidate(trimmed_raw)) == url_candidate(trimmed_raw),
{
    lemma_mended_has_scheme(trimmed_raw);
    lemma_scheme_needs_no_mending(url_candidate(trimmed_raw));
}

/// A text is its own normal form where it is not blank and has no white space
/// around it, begins with `https://` or `http://` and not with a doubled scheme, and
/// the URL parser writes it back unchanged but for slashes at the end.
///
/// So normalizing a normal form changes nothing exactly as far as the URL parser
/// writes back what it wrote; of the parser itself nothing is claimed here.
pub proof fn lemma_normal_form_is_kept(y: Seq<char>)
    requires
        y.len() > 0,
        trim(y) == y,
        has_prefix(y, "https://"@) || has_prefix(y, "http://"@),
        !has_prefix(y, "https://https//"@),
        !has_prefix(y, "http://http//"@),
        url_serialized(y) matches Some(s) && strip_trailing(s, '/') == y,
    ensures
        normalized_base_url(y) == Some(y),
{
    lemma_scheme_needs_no_mending(y);
}

} // verus!
