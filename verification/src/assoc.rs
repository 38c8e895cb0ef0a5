//! Maps keyed by text, kept as vectors of pairs in which the first pair with a
//! given key counts.

use vstd::prelude::*;

verus! {

/// The index of the first pair of `entries` whose key is `key`, if there is one.
pub open spec fn first_index<V>(entries: Seq<(String, V)>, key: Seq<char>) -> Option<int>
    decreases entries.len(),
{
    if entries.len() == 0 {
        None
    } else if entries.last().0@ == key && first_index(entries.drop_last(), key) is None {
        Some(entries.len() - 1)
    } else {
        first_index(entries.drop_last(), key)
    }
}

/// The map that `entries` stands for.
pub open spec fn to_map<V>(entries: Seq<(String, V)>) -> Map<Seq<char>, V> {
    Map::new(
        |k: Seq<char>| first_index(entries, k) is Some,
        |k: Seq<char>| entries[first_index(entries, k).unwrap()].1,
    )
}

/// `first_index` finds the first pair with the key, and none only if there is none.
pub proof fn lemma_first_index<V>(entries: Seq<(String, V)>, key: Seq<char>)
    ensures
        match first_index(entries, key) {
            Some(i) => 0 <= i < entries.len() && entries[i].0@ == key && forall|j: int|
                0 <= j < i ==> (#[trigger] entries[j]).0@ != key,
            None => forall|j: int| 0 <= j < entries.len() ==> (#[trigger] entries[j]).0@ != key,
        },
    decreases entries.len(),
{
    if entries.len() > 0 {
        lemma_first_index(entries.drop_last(), key);
        assert(forall|j: int|
            0 <= j < entries.len() - 1 ==> entries.drop_last()[j] == #[trigger] entries[j]);
    }
}

/// An index that meets the description of the first match is the first match.
pub proof fn lemma_first_index_is<V>(entries: Seq<(String, V)>, key: Seq<char>, i: int)
    requires
        0 <= i < entries.len(),
        entries[i].0@ == key,
        forall|j: int| 0 <= j < i ==> (#[trigger] entries[j]).0@ != key,
    ensures
        first_index(entries, key) == Some(i),
{
    lemma_first_index(entries, key);
}

/// Where no pair has the key, there is no first match.
pub proof fn lemma_first_index_none<V>(entries: Seq<(String, V)>, key: Seq<char>)
    requires
        forall|j: int| 0 <= j < entries.len() ==> (#[trigger] entries[j]).0@ != key,
    ensures
        first_index(entries, key) is None,
{
    lemma_first_index(entries, key);
}

/// The index of the first pair with the key `key`.
pub fn find<V>(entries: &Vec<(String, V)>, key: &str) -> (r: Option<usize>)
    ensures
        match r {
            Some(i) => first_index(entries@, key@) == Some(i as int) && i < entries.len(),
            None => first_index(entries@, key@) is None,
        },
{
    let mut i: usize = 0;
    while i < entries.len()
        invariant
            i <= entries.len(),
            forall|j: int| 0 <= j < i ==> (#[trigger] entries@[j]).0@ != key@,
        decreases entries.len() - i,
    {
        if crate::text::str_eq(entries[i].0.as_str(), key) {
            proof {
                lemma_first_index_is(entries@, key@, i as int);
            }
            return Some(i);
        }
        i += 1;
    }
    proof {
        lemma_first_index_none(entries@, key@);
    }
    None
}

/// Binds `key` to `value`: the first pair with that key is replaced, or a new pair
/// is added where there is none.
pub fn put<V>(entries: &mut Vec<(String, V)>, key: &str, value: V)
    ensures
        to_map(final(entries)@) == to_map(old(entries)@).insert(key@, value),
{
    let ghost before = entries@;
    let found = find(entries, key);
    match found {
        Some(i) => {
            entries.set(i, (key.to_owned(), value));
            proof {
                lemma_first_index(before, key@);
                assert(entries@.len() == before.len());
                assert forall|j: int| 0 <= j < before.len() implies (#[trigger] entries@[j]).0@
                    == before[j].0@ by {}
                assert forall|k: Seq<char>| first_index(entries@, k) == first_index(before, k) by {
                    lemma_first_index(before, k);
                    match first_index(before, k) {
                        Some(j) => {
                            lemma_first_index_is(entries@, k, j);
                        },
                        None => {
                            lemma_first_index_none(entries@, k);
                        },
                    }
                }
                assert forall|k: Seq<char>| to_map(before).insert(key@, value).dom().contains(k)
                    implies #[trigger] to_map(entries@)[k] == to_map(before).insert(key@, value)[k] by {
                    lemma_first_index(before, k);
                }
                assert(to_map(entries@) =~= to_map(before).insert(key@, value));
            }
        },
        None => {
            entries.push((key.to_owned(), value));
            proof {
                assert(entries@.drop_last() == before);
                assert forall|k: Seq<char>|
                    first_index(entries@, k) == (if first_index(before, k) is Some {
                        first_index(before, k)
                    } else if k == key@ {
                        Some(before.len() as int)
                    } else {
                        None
                    }) by {}
                lemma_first_index(before, key@);
                assert(to_map(entries@) =~= to_map(before).insert(key@, value)) by {
                    assert forall|k: Seq<char>| to_map(before).insert(key@, value).dom().contains(k)
                        implies #[trigger] to_map(entries@)[k] == to_map(before).insert(key@, value)[k] by {
                        lemma_first_index(before, k);
                    }
                }
            }
        },
    }
}

} // verus!
