//! Issue links by kind: what an issue blocks, what blocks it, what it relates to.

use vstd::prelude::*;
use crate::lexical::{sorted_unique, strictly_sorted};
use crate::lines::texts;
use crate::text::{chars_of, has_substring, lowercase_string, str_contains, unicode_lowercase};

verus! {

/// The kind of a link: the words for its two directions and its name.
#[derive(Debug, Clone)]
pub struct IssueLinkType {
    pub inward: Option<String>,
    pub outward: Option<String>,
    pub name: Option<String>,
}

/// A link of an issue: its kind and the key of the issue at either end.
#[derive(Debug, Clone)]
pub struct IssueLink {
    pub link_type: Option<IssueLinkType>,
    pub outward_issue: Option<String>,
    pub inward_issue: Option<String>,
}

/// The relation word of the outward direction: the kind's outward word, else its
/// name, else `relates to`; in lower case.
pub open spec fn outward_relation(link: IssueLink) -> Seq<char> {
    unicode_lowercase(
        match link.link_type {
            Some(t) => match t.outward {
                Some(w) => w@,
                None => match t.name {
                    Some(n) => n@,
                    None => "relates to"@,
                },
            },
            None => "relates to"@,
        },
    )
}

/// The relation word of the inward direction: the kind's inward word, else its name,
/// else `relates to`; in lower case.
pub open spec fn inward_relation(link: IssueLink) -> Seq<char> {
    unicode_lowercase(
        match link.link_type {
            Some(t) => match t.inward {
                Some(w) => w@,
                None => match t.name {
                    Some(n) => n@,
                    None => "relates to"@,
                },
            },
            None => "relates to"@,
        },
    )
}

/// Whether a relation word speaks of blocking.
pub open spec fn blocking(relation: Seq<char>) -> bool {
    has_substring(relation, "block"@)
}

/// The keys that `links[..n]` say the issue blocks: outward issues of a blocking
/// relation.
pub open spec fn blocks_of(links: Seq<IssueLink>, n: int) -> Seq<Seq<char>>
    decreases n,
{
    if n <= 0 {
        Seq::empty()
    } else {
        match links[n - 1].outward_issue {
            Some(key) => if blocking(outward_relation(links[n - 1])) {
                blocks_of(links, n - 1).push(key@)
            } else {
                blocks_of(links, n - 1)
            },
            None => blocks_of(links, n - 1),
        }
    }
}

/// The keys that `links[..n]` say block the issue: inward issues of a blocking
/// relation.
pub open spec fn blocked_by_of(links: Seq<IssueLink>, n: int) -> Seq<Seq<char>>
    decreases n,
{
    if n <= 0 {
        Seq::empty()
    } else {
        match links[n - 1].inward_issue {
            Some(key) => if blocking(inward_relation(links[n - 1])) {
                blocked_by_of(links, n - 1).push(key@)
            } else {
                blocked_by_of(links, n - 1)
            },
            None => blocked_by_of(links, n - 1),
        }
    }
}

/// The keys that `links[..n]` say the issue relates to: issues at either end of a
/// relation that does not speak of blocking, the outward one first.
pub open spec fn relates_to_of(links: Seq<IssueLink>, n: int) -> Seq<Seq<char>>
    decreases n,
{
    if n <= 0 {
        Seq::empty()
    } else {
        let before = relates_to_of(links, n - 1);
        let with_outward = match links[n - 1].outward_issue {
            Some(key) => if blocking(outward_relation(links[n - 1])) {
                before
            } else {
                before.push(key@)
            },
            None => before,
        };
        match links[n - 1].inward_issue {
            Some(key) => if blocking(inward_relation(links[n - 1])) {
                with_outward
            } else {
                with_outward.push(key@)
            },
            None => with_outward,
        }
    }
}

fn relation_word(
    direction: &Option<String>,
    name: &Option<String>,
) -> (r: String)
    ensures
        r@ == unicode_lowercase(
            match *direction {
                Some(w) => w@,
                None => match *name {
                    Some(n) => n@,
                    None => "relates to"@,
                },
            },
        ),
{
    match direction {
        Some(w) => lowercase_string(w.as_str()),
        None => match name {
            Some(n) => lowercase_string(n.as_str()),
            None => lowercase_string("relates to"),
        },
    }
}

fn outward_word(link: &IssueLink) -> (r: String)
    ensures
        r@ == outward_relation(*link),
{
    match &link.link_type {
        Some(t) => relation_word(&t.outward, &t.name),
        None => lowercase_string("relates to"),
    }
}

fn inward_word(link: &IssueLink) -> (r: String)
    ensures
        r@ == inward_relation(*link),
{
    match &link.link_type {
        Some(t) => relation_word(&t.inward, &t.name),
        None => lowercase_string("relates to"),
    }
}

/// The three lists of an issue's links: what it blocks, what blocks it, what it
/// relates to. Each list is sorted and holds each key once.
pub fn categorize_links(links: &Vec<IssueLink>) -> (r: (Vec<String>, Vec<String>, Vec<String>))
    ensures
        strictly_sorted(texts(r.0@)),
        texts(r.0@).to_set() == blocks_of(links@, links.len() as int).to_set(),
        strictly_sorted(texts(r.1@)),
        texts(r.1@).to_set() == blocked_by_of(links@, links.len() as int).to_set(),
        strictly_sorted(texts(r.2@)),
        texts(r.2@).to_set() == relates_to_of(links@, links.len() as int).to_set(),
{
    let mut blocks: Vec<String> = Vec::new();
    let mut blocked_by: Vec<String> = Vec::new();
    let mut relates_to: Vec<String> = Vec::new();
    let mut i: usize = 0;
    assert(texts(blocks@) =~= blocks_of(links@, 0));
    assert(texts(blocked_by@) =~= blocked_by_of(links@, 0));
    assert(texts(relates_to@) =~= relates_to_of(links@, 0));
    while i < links.len()
        invariant
            i <= links.len(),
            texts(blocks@) == blocks_of(links@, i as int),
            texts(blocked_by@) == blocked_by_of(links@, i as int),
            texts(relates_to@) == relates_to_of(links@, i as int),
        decreases links.len() - i,
    {
        let link = &links[i];
        let ghost b0 = texts(blocks@);
        let ghost y0 = texts(blocked_by@);
        let ghost r0 = texts(relates_to@);
        match &link.outward_issue {
            Some(key) => {
                let relation = outward_word(link);
                if str_contains(&chars_of(relation.as_str()), "block") {
                    blocks.push(key.clone());
                    assert(texts(blocks@) =~= b0.push(key@));
                } else {
                    relates_to.push(key.clone());
                    assert(texts(relates_to@) =~= r0.push(key@));
                }
            },
            None => {},
        }
        let ghost r1 = texts(relates_to@);
        match &link.inward_issue {
            Some(key) => {
                let relation = inward_word(link);
                if str_contains(&chars_of(relation.as_str()), "block") {
                    blocked_by.push(key.clone());
                    assert(texts(blocked_by@) =~= y0.push(key@));
                } else {
                    relates_to.push(key.clone());
                    assert(texts(relates_to@) =~= r1.push(key@));
                }
            },
            None => {},
        }
        i += 1;
    }
    (sorted_unique(&blocks), sorted_unique(&blocked_by), sorted_unique(&relates_to))
}

} // verus!
