//! A JSON document as a tree of plain values, as rich-text fields arrive in it.

use vstd::prelude::*;

verus! {

/// A JSON value.
#[derive(Debug)]
pub enum Json {
    /// `null`.
    Null,
    /// `true` or `false`.
    Bool(bool),
    /// A number, kept as its text.
    Number(String),
    /// A string.
    Text(String),
    /// An array.
    Array(Vec<Json>),
    /// An object: its members in order, each a name and a value.
    Object(Vec<(String, Json)>),
}

/// The first member of `members` named `name`, if there is one.
pub open spec fn member(members: Seq<(String, Json)>, name: Seq<char>) -> Option<Json>
    decreases members.len(),
{
    if members.len() == 0 {
        None
    } else if members[0].0@ == name {
        Some(members[0].1)
    } else {
        member(members.drop_first(), name)
    }
}

/// The index of the first member of `members` named `name`, if there is one.
pub open spec fn member_index(members: Seq<(String, Json)>, name: Seq<char>) -> Option<int>
    decreases members.len(),
{
    if members.len() == 0 {
        None
    } else if members[0].0@ == name {
        Some(0)
    } else {
        match member_index(members.drop_first(), name) {
            Some(i) => Some(i + 1),
            None => None,
        }
    }
}

/// `member` returns the member at `member_index`.
pub proof fn lemma_member_index(members: Seq<(String, Json)>, name: Seq<char>)
    ensures
        match member_index(members, name) {
            Some(i) => 0 <= i < members.len() && member(members, name) == Some(members[i].1),
            None => member(members, name) is None,
        },
    decreases members.len(),
{
    if members.len() > 0 && members[0].0@ != name {
        lemma_member_index(members.drop_first(), name);
    }
}

/// The first member of `members` named `name`, if there is one.
pub fn get_member<'a>(members: &'a Vec<(String, Json)>, name: &str) -> (r: Option<&'a Json>)
    ensures
        match r {
            Some(j) => member(members@, name@) == Some(*j) && member_index(members@, name@) is Some
                && *j == members@[member_index(members@, name@).unwrap()].1,
            None => member(members@, name@) is None,
        },
{
    let mut i: usize = 0;
    assert(members@.skip(0) == members@);
    while i < members.len()
        invariant
            i <= members.len(),
            member(members@, name@) == member(members@.skip(i as int), name@),
            member_index(members@, name@) == (match member_index(
                members@.skip(i as int),
                name@,
            ) {
                Some(k) => Some(k + i),
                None => None,
            }),
        decreases members.len() - i,
    {
        if crate::text::str_eq(members[i].0.as_str(), name) {
            return Some(&members[i].1);
        }
        assert(members@.skip(i as int).drop_first() == members@.skip(i + 1));
        i += 1;
    }
    None
}

impl Json {
    /// The characters of a string value.
    pub open spec fn text_of(self) -> Option<Seq<char>> {
        match self {
            Json::Text(s) => Some(s@),
            _ => None,
        }
    }

    /// The characters of this value if it is a string.
    pub fn as_str(&self) -> (r: Option<&str>)
        ensures
            match r {
                Some(s) => self.text_of() == Some(s@),
                None => self.text_of() is None,
            },
    {
        match self {
            Json::Text(s) => Some(s.as_str()),
            _ => None,
        }
    }
}

} // verus!
