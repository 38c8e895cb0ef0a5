//! The order of texts by code point, and sorting by it.

use vstd::prelude::*;
use crate::jira::{IssueRef, ref_views};
use crate::lines::texts;
use crate::text::chars_of;

verus! {

/// `a` comes before `b`, or is `b`, in the order that compares texts character by
/// character by code point, a text coming before every longer text it begins.
pub open spec fn lex_le(a: Seq<char>, b: Seq<char>) -> bool
    decreases a.len(),
{
    if a.len() == 0 {
        true
    } else if b.len() == 0 {
        false
    } else if a[0] != b[0] {
        (a[0] as u32) < (b[0] as u32)
    } else {
        lex_le(a.drop_first(), b.drop_first())
    }
}

/// `a` comes strictly before `b`.
pub open spec fn lex_lt(a: Seq<char>, b: Seq<char>) -> bool {
    lex_le(a, b) && a != b
}

/// Of two texts, one comes before the other or they are the same.
pub proof fn lemma_lex_total(a: Seq<char>, b: Seq<char>)
    ensures
        lex_le(a, b) || lex_le(b, a),
    decreases a.len(),
{
    if a.len() > 0 && b.len() > 0 {
        if a[0] == b[0] {
            lemma_lex_total(a.drop_first(), b.drop_first());
        } else {
            vstd::utf8::char_u32_cast(a[0], a[0] as u32);
            vstd::utf8::char_u32_cast(b[0], b[0] as u32);
        }
    }
}

/// The order is transitive.
pub proof fn lemma_lex_trans(a: Seq<char>, b: Seq<char>, c: Seq<char>)
    requires
        lex_le(a, b),
        lex_le(b, c),
    ensures
        lex_le(a, c),
    decreases a.len(),
{
    if a.len() > 0 && b.len() > 0 && c.len() > 0 && a[0] == b[0] && b[0] == c[0] {
        lemma_lex_trans(a.drop_first(), b.drop_first(), c.drop_first());
    }
}

/// Two texts that come before each other are the same.
pub proof fn lemma_lex_antisym(a: Seq<char>, b: Seq<char>)
    requires
        lex_le(a, b),
        lex_le(b, a),
    ensures
        a == b,
    decreases a.len(),
{
    if a.len() > 0 && b.len() > 0 {
        lemma_lex_antisym(a.drop_first(), b.drop_first());
        assert(a =~= seq![a[0]] + a.drop_first());
        assert(b =~= seq![b[0]] + b.drop_first());
    } else {
        assert(a =~= b);
    }
}

/// Whether `a` comes before `b` or is `b`.
pub fn chars_le(a: &Vec<char>, b: &Vec<char>) -> (r: bool)
    ensures
        r == lex_le(a@, b@),
{
    let mut i: usize = 0;
    assert(a@.skip(0) == a@);
    assert(b@.skip(0) == b@);
    while i < a.len() && i < b.len()
        invariant
            i <= a.len(),
            i <= b.len(),
            lex_le(a@, b@) == lex_le(a@.skip(i as int), b@.skip(i as int)),
        decreases a.len() - i,
    {
        if a[i] != b[i] {
            return (a[i] as u32) < (b[i] as u32);
        }
        assert(a@.skip(i as int).drop_first() == a@.skip(i + 1));
        assert(b@.skip(i as int).drop_first() == b@.skip(i + 1));
        i += 1;
    }
    i == a.len()
}

/// Whether the text `a` comes before the text `b` or is `b`.
pub fn str_le(a: &str, b: &str) -> (r: bool)
    ensures
        r == lex_le(a@, b@),
{
    chars_le(&chars_of(a), &chars_of(b))
}

/// The entries are in ascending order of their keys.
pub open spec fn sorted_by_key(refs: Seq<(Seq<char>, Option<Seq<char>>)>) -> bool {
    forall|i: int, j: int| 0 <= i < j < refs.len() ==> lex_le(#[trigger] refs[i].0, #[trigger] refs[j].0)
}

/// The entries of `refs` with the key `key`, in their order.
pub open spec fn with_key(refs: Seq<(Seq<char>, Option<Seq<char>>)>, key: Seq<char>) -> Seq<
    (Seq<char>, Option<Seq<char>>),
>
    decreases refs.len(),
{
    if refs.len() == 0 {
        Seq::empty()
    } else if refs.last().0 == key {
        with_key(refs.drop_last(), key).push(refs.last())
    } else {
        with_key(refs.drop_last(), key)
    }
}

/// Entries with the same key stand in `b` in the order in which they stand in `a`.
pub open spec fn same_order_per_key(
    a: Seq<(Seq<char>, Option<Seq<char>>)>,
    b: Seq<(Seq<char>, Option<Seq<char>>)>,
) -> bool {
    forall|key: Seq<char>| #[trigger] with_key(a, key) == with_key(b, key)
}

/// The entries with a key in a listing made of two parts are those of the first part
/// followed by those of the second.
pub proof fn lemma_with_key_concat(
    a: Seq<(Seq<char>, Option<Seq<char>>)>,
    b: Seq<(Seq<char>, Option<Seq<char>>)>,
    key: Seq<char>,
)
    ensures
        with_key(a + b, key) == with_key(a, key) + with_key(b, key),
    decreases b.len(),
{
    if b.len() == 0 {
        assert(a + b == a);
        assert(with_key(a, key) + with_key(b, key) == with_key(a, key));
    } else {
        assert((a + b).drop_last() == a + b.drop_last());
        lemma_with_key_concat(a, b.drop_last(), key);
        if b.last().0 == key {
            assert(with_key(a, key) + with_key(b.drop_last(), key).push(b.last()) == (with_key(
                a,
                key,
            ) + with_key(b.drop_last(), key)).push(b.last()));
        }
    }
}

/// A listing in which no entry has the key holds no entry with the key.
pub proof fn lemma_with_key_none(refs: Seq<(Seq<char>, Option<Seq<char>>)>, key: Seq<char>)
    requires
        forall|i: int| 0 <= i < refs.len() ==> (#[trigger] refs[i]).0 != key,
    ensures
        with_key(refs, key) == Seq::<(Seq<char>, Option<Seq<char>>)>::empty(),
    decreases refs.len(),
{
    if refs.len() > 0 {
        assert forall|i: int| 0 <= i < refs.drop_last().len() implies (#[trigger] refs.drop_last()[i]).0
            != key by {
            assert(refs[i].0 != key);
        }
        lemma_with_key_none(refs.drop_last(), key);
        assert(refs[refs.len() - 1].0 != key);
    }
}

/// Sorts a listing by key, ascending. The result holds the same entries, each as often
/// as before, and entries with the same key keep their order.
pub fn sort_refs_by_key(input: &Vec<IssueRef>) -> (out: Vec<IssueRef>)
    ensures
        sorted_by_key(ref_views(out@)),
        ref_views(out@).to_multiset() == ref_views(input@).to_multiset(),
        same_order_per_key(ref_views(out@), ref_views(input@)),
        out.len() == input.len(),
{
    let mut out: Vec<IssueRef> = Vec::new();
    let mut i: usize = 0;
    assert(ref_views(out@) =~= ref_views(input@.take(0)));
    while i < input.len()
        invariant
            i <= input.len(),
            out.len() == i,
            sorted_by_key(ref_views(out@)),
            ref_views(out@).to_multiset() == ref_views(input@.take(i as int)).to_multiset(),
            same_order_per_key(ref_views(out@), ref_views(input@.take(i as int))),
        decreases input.len() - i,
    {
        let x = input[i].copy();
        let mut pos: usize = 0;
        while pos < out.len() && str_le(out[pos].key.as_str(), x.key.as_str())
            invariant
                pos <= out.len(),
                forall|k: int| 0 <= k < pos ==> lex_le(#[trigger] ref_views(out@)[k].0, x.key@),
            decreases out.len() - pos,
        {
            pos += 1;
        }
        let ghost before = ref_views(out@);
        let ghost seen = ref_views(input@.take(i as int));
        proof {
            assert forall|k: int| pos <= k < before.len() implies lex_le(
                x.key@,
                #[trigger] before[k].0,
            ) && before[k].0 != x.key@ by {
                lemma_lex_total(before[pos as int].0, x.key@);
                if k > pos {
                    lemma_lex_trans(x.key@, before[pos as int].0, before[k].0);
                    if before[k].0 == x.key@ {
                        assert(lex_le(before[pos as int].0, before[k].0));
                    }
                }
            }
            vstd::seq_lib::to_multiset_insert(before, pos as int, x@);
            vstd::seq_lib::to_multiset_build(seen, x@);
            assert(ref_views(input@.take(i + 1)) =~= seen.push(x@));
            assert(before.insert(pos as int, x@) =~= before.take(pos as int).push(x@) + before.skip(
                pos as int,
            ));
            assert(before =~= before.take(pos as int) + before.skip(pos as int));
            assert forall|key: Seq<char>| #[trigger]
                with_key(before.insert(pos as int, x@), key) == with_key(seen.push(x@), key) by {
                let head = before.take(pos as int);
                let tail = before.skip(pos as int);
                lemma_with_key_concat(head.push(x@), tail, key);
                lemma_with_key_concat(head, tail, key);
                assert(head.push(x@).drop_last() == head);
                assert(seen.push(x@).drop_last() == seen);
                assert(with_key(before, key) == with_key(seen, key));
                if key == x.key@ {
                    assert forall|j: int| 0 <= j < tail.len() implies (#[trigger] tail[j]).0
                        != key by {
                        assert(tail[j] == before[pos + j]);
                    }
                    lemma_with_key_none(tail, key);
                    assert(with_key(head, key) + Seq::<(Seq<char>, Option<Seq<char>>)>::empty()
                        == with_key(head, key));
                    assert(with_key(head.push(x@), key) + Seq::<
                        (Seq<char>, Option<Seq<char>>),
                    >::empty() == with_key(head.push(x@), key));
                }
            }
        }
        out.insert(pos, x);
        assert(ref_views(out@) =~= before.insert(pos as int, x@));
        assert(sorted_by_key(ref_views(out@))) by {
            let after = ref_views(out@);
            assert forall|a: int, b: int| 0 <= a < b < after.len() implies lex_le(
                #[trigger] after[a].0,
                #[trigger] after[b].0,
            ) by {
                if a < pos && b == pos {
                } else if a == pos {
                    assert(after[b] == before[b - 1]);
                } else if a < pos && b > pos {
                    assert(after[b] == before[b - 1]);
                    assert(after[a] == before[a]);
                } else if a < pos && b < pos {
                    assert(after[b] == before[b]);
                    assert(after[a] == before[a]);
                } else {
                    assert(after[b] == before[b - 1]);
                    assert(after[a] == before[a - 1]);
                }
            }
        }
        i += 1;
    }
    assert(input@.take(input.len() as int) == input@);
    out
}

/// The texts are in strictly ascending order: sorted, and none occurs twice.
pub open spec fn strictly_sorted(s: Seq<Seq<char>>) -> bool {
    forall|i: int, j: int| 0 <= i < j < s.len() ==> lex_lt(#[trigger] s[i], #[trigger] s[j])
}

/// The texts of `input`, sorted, each once.
pub fn sorted_unique(input: &Vec<String>) -> (out: Vec<String>)
    ensures
        strictly_sorted(texts(out@)),
        texts(out@).to_set() == texts(input@).to_set(),
{
    let mut out: Vec<String> = Vec::new();
    let mut i: usize = 0;
    assert(texts(out@).to_set() =~= texts(input@.take(0)).to_set());
    while i < input.len()
        invariant
            i <= input.len(),
            strictly_sorted(texts(out@)),
            texts(out@).to_set() == texts(input@.take(i as int)).to_set(),
        decreases input.len() - i,
    {
        let x = &input[i];
        let mut pos: usize = 0;
        while pos < out.len() && str_le(out[pos].as_str(), x.as_str()) && !crate::text::str_eq(
            out[pos].as_str(),
            x.as_str(),
        )
            invariant
                pos <= out.len(),
                forall|k: int| 0 <= k < pos ==> lex_lt(#[trigger] texts(out@)[k], x@),
            decreases out.len() - pos,
        {
            pos += 1;
        }
        let ghost before = texts(out@);
        let ghost seen = texts(input@.take(i as int));
        assert(texts(input@.take(i + 1)) =~= seen.push(x@));
        assert(seen.push(x@).to_set() =~= seen.to_set().insert(x@)) by {
            assert forall|y: Seq<char>| seen.push(x@).to_set().contains(y) implies seen.to_set().insert(
                x@,
            ).contains(y) by {
                let k = choose|k: int| 0 <= k < seen.push(x@).len() && seen.push(x@)[k] == y;
                if k < seen.len() {
                    assert(seen[k] == y);
                }
            }
            assert forall|y: Seq<char>| seen.to_set().insert(x@).contains(y) implies seen.push(
                x@,
            ).to_set().contains(y) by {
                if y == x@ {
                    assert(seen.push(x@)[seen.len() as int] == y);
                } else {
                    let k = choose|k: int| 0 <= k < seen.len() && seen[k] == y;
                    assert(seen.push(x@)[k] == y);
                }
            }
        }
        if pos < out.len() && crate::text::str_eq(out[pos].as_str(), x.as_str()) {
            assert(before[pos as int] == x@);
            assert(before.to_set().contains(x@));
            assert(before.to_set().insert(x@) =~= before.to_set());
        } else {
            proof {
                assert forall|k: int| pos <= k < before.len() implies lex_lt(
                    x@,
                    #[trigger] before[k],
                ) by {
                    lemma_lex_total(before[pos as int], x@);
                    if k > pos {
                        lemma_lex_trans(x@, before[pos as int], before[k]);
                        if x@ == before[k] {
                            lemma_lex_antisym(before[pos as int], before[k]);
                        }
                    }
                }
            }
            out.insert(pos, x.clone());
            let ghost after = texts(out@);
            assert(after =~= before.insert(pos as int, x@));
            assert(strictly_sorted(after)) by {
                assert forall|a: int, b: int| 0 <= a < b < after.len() implies lex_lt(
                    #[trigger] after[a],
                    #[trigger] after[b],
                ) by {
                    if a < pos && b == pos {
                    } else if a == pos {
                        assert(after[b] == before[b - 1]);
                    } else if a < pos && b > pos {
                        assert(after[b] == before[b - 1]);
                        assert(after[a] == before[a]);
                    } else if a < pos && b < pos {
                        assert(after[b] == before[b]);
                        assert(after[a] == before[a]);
                    } else {
                        assert(after[b] == before[b - 1]);
                        assert(after[a] == before[a - 1]);
                    }
                }
            }
            assert(after.to_set() =~= before.to_set().insert(x@)) by {
                assert forall|y: Seq<char>| after.to_set().contains(y) implies before.to_set().insert(
                    x@,
                ).contains(y) by {
                    let k = choose|k: int| 0 <= k < after.len() && after[k] == y;
                    if k < pos {
                        assert(before[k] == y);
                    } else if k > pos {
                        assert(before[k - 1] == y);
                    }
                }
                assert forall|y: Seq<char>| before.to_set().insert(x@).contains(y) implies after.to_set().contains(
                    y,
                ) by {
                    if y == x@ {
                        assert(after[pos as int] == y);
                    } else {
                        let k = choose|k: int| 0 <= k < before.len() && before[k] == y;
                        if k < pos {
                            assert(after[k] == y);
                        } else {
                            assert(after[k + 1] == y);
                        }
                    }
                }
            }
        }
        i += 1;
    }
    assert(input@.take(input.len() as int) == input@);
    out
}

} // verus!
