//! Removing repeated beginnings and endings of a text.

use vstd::prelude::*;
use crate::text::{chars_of, has_prefix, has_suffix, subvec};

verus! {

/// `s` without every leading repetition of `p`.
pub open spec fn strip_prefix_all(s: Seq<char>, p: Seq<char>) -> Seq<char>
    decreases s.len(),
{
    if p.len() > 0 && has_prefix(s, p) {
        strip_prefix_all(s.skip(p.len() as int), p)
    } else {
        s
    }
}

/// How many times `c` stands at the end of `s`.
pub open spec fn trailing_run(s: Seq<char>, c: char) -> nat
    decreases s.len(),
{
    if s.len() > 0 && s.last() == c {
        1 + trailing_run(s.drop_last(), c)
    } else {
        0
    }
}

/// `s` without every `c` at its end.
pub open spec fn strip_trailing(s: Seq<char>, c: char) -> Seq<char> {
    s.take(s.len() - trailing_run(s, c))
}

/// `s` without every leading repetition of `p`.
pub fn stripped_prefix_all(s: &Vec<char>, p: &str) -> (r: Vec<char>)
    ensures
        r@ == strip_prefix_all(s@, p@),
{
    let pv = chars_of(p);
    let mut i: usize = 0;
    assert(s@.skip(0) == s@);
    if pv.len() == 0 {
        return subvec(s, 0, s.len());
    }
    while crate::text::matches_at(s, &pv, i)
        invariant
            i <= s.len(),
            pv@ == p@,
            pv.len() > 0,
            strip_prefix_all(s@, p@) == strip_prefix_all(s@.skip(i as int), p@),
        decreases s.len() - i,
    {
        assert(s@.skip(i as int).subrange(0, pv.len() as int) == s@.subrange(
            i as int,
            i + pv.len(),
        ));
        assert(s@.skip(i as int).skip(pv.len() as int) == s@.skip(i + pv.len()));
        i += pv.len();
    }
    assert(!has_prefix(s@.skip(i as int), p@)) by {
        if i + pv.len() <= s.len() {
            assert(s@.skip(i as int).subrange(0, pv.len() as int) == s@.subrange(
                i as int,
                i + pv.len(),
            ));
        }
    }
    subvec(s, i, s.len())
}

/// `s` without every `c` at its end.
pub fn stripped_trailing(s: &Vec<char>, c: char) -> (r: Vec<char>)
    ensures
        r@ == strip_trailing(s@, c),
{
    let mut k: usize = 0;
    assert(s@.take(s.len() as int) == s@);
    while k < s.len() && s[s.len() - k - 1] == c
        invariant
            k <= s.len(),
            trailing_run(s@, c) == k + trailing_run(s@.take(s.len() - k), c),
        decreases s.len() - k,
    {
        assert(s@.take(s.len() - k).drop_last() == s@.take(s.len() - k - 1));
        k += 1;
    }
    subvec(s, 0, s.len() - k)
}

/// `s` without every trailing repetition of `p`.
pub open spec fn strip_suffix_all(s: Seq<char>, p: Seq<char>) -> Seq<char>
    decreases s.len(),
{
    if p.len() > 0 && has_suffix(s, p) {
        strip_suffix_all(s.take(s.len() - p.len()), p)
    } else {
        s
    }
}

/// `s` without every trailing repetition of `p`.
pub fn stripped_suffix_all(s: &Vec<char>, p: &str) -> (r: Vec<char>)
    ensures
        r@ == strip_suffix_all(s@, p@),
{
    let pv = chars_of(p);
    let mut end: usize = s.len();
    assert(s@.take(s.len() as int) == s@);
    if pv.len() == 0 {
        return subvec(s, 0, s.len());
    }
    while end >= pv.len() && crate::text::matches_at(s, &pv, end - pv.len())
        invariant
            end <= s.len(),
            pv@ == p@,
            pv.len() > 0,
            strip_suffix_all(s@, p@) == strip_suffix_all(s@.take(end as int), p@),
        decreases end,
    {
        assert(s@.take(end as int).subrange(end - pv.len(), end as int) == s@.subrange(
            end - pv.len(),
            end as int,
        ));
        assert(s@.take(end as int).take(end - pv.len()) == s@.take(end - pv.len()));
        end = end - pv.len();
    }
    assert(!has_suffix(s@.take(end as int), p@)) by {
        if end >= pv.len() {
            assert(s@.take(end as int).subrange(end - pv.len(), end as int) == s@.subrange(
                end - pv.len(),
                end as int,
            ));
        }
    }
    subvec(s, 0, end)
}

} // verus!
