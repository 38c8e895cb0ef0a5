//! Rich-text documents: from a tree of typed nodes to markdown text.

use vstd::prelude::*;
use crate::json::{Json, member, member_index, get_member, lemma_member_index};
use crate::lines::{join, joined, seqs};
use crate::text::{chars_of, push_str, push_all, trim, trimmed, has_prefix, str_starts_with, is_str};

verus! {

/// The text of the member `name` of an object, if it is a string.
pub open spec fn str_member(members: Seq<(String, Json)>, name: Seq<char>) -> Option<Seq<char>> {
    match member(members, name) {
        Some(Json::Text(s)) => Some(s@),
        _ => None,
    }
}

/// The members of the member `name` of an object, if it is an object.
pub open spec fn object_member(members: Seq<(String, Json)>, name: Seq<char>) -> Option<
    Seq<(String, Json)>,
> {
    match member(members, name) {
        Some(Json::Object(m)) => Some(m@),
        _ => None,
    }
}

/// A text, or the empty text where there is none.
pub open spec fn or_empty(t: Option<Seq<char>>) -> Seq<char> {
    match t {
        Some(s) => s,
        None => Seq::empty(),
    }
}

/// The target of a mark if it is a link with a target.
pub open spec fn link_of_mark(mark: Json) -> Option<Seq<char>> {
    match mark {
        Json::Object(m) => if or_empty(str_member(m@, "type"@)) == "link"@ {
            match object_member(m@, "attrs"@) {
                Some(attrs) => str_member(attrs, "href"@),
                None => None,
            }
        } else {
            None
        },
        _ => None,
    }
}

/// The target of the first of `marks` that is a link with a target.
pub open spec fn first_link(marks: Seq<Json>) -> Option<Seq<char>>
    decreases marks.len(),
{
    if marks.len() == 0 {
        None
    } else if link_of_mark(marks[0]) is Some {
        link_of_mark(marks[0])
    } else {
        first_link(marks.drop_first())
    }
}

/// The link target among the marks of a text node.
pub open spec fn mark_link(marks: Option<Json>) -> Option<Seq<char>> {
    match marks {
        Some(Json::Array(items)) => first_link(items@),
        _ => None,
    }
}

fn str_member_of<'a>(members: &'a Vec<(String, Json)>, name: &str) -> (r: Option<&'a str>)
    ensures
        match r {
            Some(s) => str_member(members@, name@) == Some(s@),
            None => str_member(members@, name@) is None,
        },
{
    match get_member(members, name) {
        Some(Json::Text(s)) => Some(s.as_str()),
        _ => None,
    }
}

fn object_member_of<'a>(members: &'a Vec<(String, Json)>, name: &str) -> (r: Option<
    &'a Vec<(String, Json)>,
>)
    ensures
        match r {
            Some(m) => object_member(members@, name@) == Some(m@),
            None => object_member(members@, name@) is None,
        },
{
    match get_member(members, name) {
        Some(Json::Object(m)) => Some(m),
        _ => None,
    }
}

fn link_of<'a>(mark: &'a Json) -> (r: Option<&'a str>)
    ensures
        match r {
            Some(s) => link_of_mark(*mark) == Some(s@),
            None => link_of_mark(*mark) is None,
        },
{
    match mark {
        Json::Object(m) => {
            let kind = match str_member_of(m, "type") {
                Some(k) => chars_of(k),
                None => Vec::new(),
            };
            if !is_str(&kind, "link") {
                return None;
            }
            match object_member_of(m, "attrs") {
                Some(attrs) => str_member_of(attrs, "href"),
                None => None,
            }
        },
        _ => None,
    }
}

fn first_link_of<'a>(items: &'a Vec<Json>) -> (r: Option<&'a str>)
    ensures
        match r {
            Some(s) => first_link(items@) == Some(s@),
            None => first_link(items@) is None,
        },
{
    let mut i: usize = 0;
    assert(items@.skip(0) == items@);
    while i < items.len()
        invariant
            i <= items.len(),
            first_link(items@) == first_link(items@.skip(i as int)),
        decreases items.len() - i,
    {
        assert(items@.skip(i as int)[0] == items@[i as int]);
        match link_of(&items[i]) {
            Some(s) => {
                return Some(s);
            },
            None => {},
        }
        assert(items@.skip(i as int).drop_first() == items@.skip(i + 1));
        i += 1;
    }
    None
}

/// The JSON value behind an optional reference.
pub open spec fn deref_opt(j: Option<&Json>) -> Option<Json> {
    match j {
        Some(v) => Some(*v),
        None => None,
    }
}

/// The link target among the marks of a text node: that of the first mark of type
/// `link` that has one.
pub fn extract_mark_link<'a>(marks: Option<&'a Json>) -> (r: Option<&'a str>)
    ensures
        match r {
            Some(s) => mark_link(deref_opt(marks)) == Some(s@),
            None => mark_link(deref_opt(marks)) is None,
        },
{
    match marks {
        Some(Json::Array(items)) => first_link_of(items),
        _ => None,
    }
}

/// The name shown for a mention: the text of its attributes, else their display
/// name, else `unknown`.
pub open spec fn mention_display(members: Seq<(String, Json)>) -> Seq<char> {
    match object_member(members, "attrs"@) {
        Some(attrs) => match str_member(attrs, "text"@) {
            Some(t) => t,
            None => match str_member(attrs, "displayName"@) {
                Some(d) => d,
                None => "unknown"@,
            },
        },
        None => "unknown"@,
    }
}

/// The text of an emoji: the short name of its attributes, else their text, else
/// `:emoji:`.
pub open spec fn emoji_text(members: Seq<(String, Json)>) -> Seq<char> {
    match object_member(members, "attrs"@) {
        Some(attrs) => match str_member(attrs, "shortName"@) {
            Some(t) => t,
            None => match str_member(attrs, "text"@) {
                Some(d) => d,
                None => ":emoji:"@,
            },
        },
        None => ":emoji:"@,
    }
}

/// The address of a card: the `url` of its attributes, else empty.
pub open spec fn card_url(members: Seq<(String, Json)>) -> Seq<char> {
    match object_member(members, "attrs"@) {
        Some(attrs) => or_empty(str_member(attrs, "url"@)),
        None => Seq::empty(),
    }
}

/// The markdown of an object node, given the markdown of its `content` member and of
/// its `text` member where it has them.
///
/// - `text`: the text, as `[text](href)` where a link mark gives a target and the text
///   is not empty;
/// - `hardBreak`: a line feed;
/// - `paragraph`, `heading`: the trimmed content and a line feed;
/// - `mention`: the name with `@` before it, unless it begins with one;
/// - `emoji`: the short name;
/// - `inlineCard`, `blockCard`: `[url](url)`, or nothing without an address;
/// - `media`, `file`: nothing;
/// - anything else: the content, else the text, else nothing.
pub open spec fn node_text(
    members: Seq<(String, Json)>,
    content: Option<Seq<char>>,
    text: Option<Seq<char>>,
) -> Seq<char> {
    let kind = or_empty(str_member(members, "type"@));
    if kind == "text"@ {
        let t = or_empty(str_member(members, "text"@));
        match mark_link(member(members, "marks"@)) {
            Some(link) => if t.len() > 0 {
                "["@ + t + "]("@ + link + ")"@
            } else {
                t
            },
            None => t,
        }
    } else if kind == "hardBreak"@ {
        "\n"@
    } else if kind == "paragraph"@ || kind == "heading"@ {
        trim(or_empty(content)) + "\n"@
    } else if kind == "mention"@ {
        let display = mention_display(members);
        if has_prefix(display, "@"@) {
            display
        } else {
            "@"@ + display
        }
    } else if kind == "emoji"@ {
        emoji_text(members)
    } else if kind == "inlineCard"@ || kind == "blockCard"@ {
        let url = card_url(members);
        if url.len() == 0 {
            Seq::empty()
        } else {
            "["@ + url + "]("@ + url + ")"@
        }
    } else if kind == "media"@ || kind == "file"@ {
        Seq::empty()
    } else {
        match content {
            Some(c) => c,
            None => or_empty(text),
        }
    }
}

/// The markdown of the items `items[..n]` that is not blank, in order.
pub open spec fn array_parts(items: Seq<Json>, n: int) -> Seq<Seq<char>>
    decreases items, n,
{
    if n <= 0 || n > items.len() {
        Seq::empty()
    } else if trim(adf_text(items[n - 1])).len() == 0 {
        array_parts(items, n - 1)
    } else {
        array_parts(items, n - 1).push(adf_text(items[n - 1]))
    }
}

/// The markdown of a rich-text value: a string is itself; an array is the markdown of
/// its items that is not blank, one below the other; an object is rendered by its
/// `type` (see `node_text`); anything else is nothing.
pub open spec fn adf_text(j: Json) -> Seq<char>
    decreases j, 0int,
{
    match j {
        Json::Text(s) => s@,
        Json::Array(items) => join(array_parts(items@, items@.len() as int), "\n"@),
        Json::Object(members) => {
            let content = match member_index(members@, "content"@) {
                Some(i) => if 0 <= i < members@.len() {
                    Some(adf_text(members@[i].1))
                } else {
                    None
                },
                None => None,
            };
            let text = match member_index(members@, "text"@) {
                Some(i) => if 0 <= i < members@.len() {
                    Some(adf_text(members@[i].1))
                } else {
                    None
                },
                None => None,
            };
            node_text(members@, content, text)
        },
        _ => Seq::empty(),
    }
}

/// The markdown of a rich-text document: that of its root, trimmed.
pub open spec fn adf_markdown(j: Json) -> Seq<char> {
    trim(adf_text(j))
}

fn member_text(members: &Vec<(String, Json)>, name: &str, Ghost(parent): Ghost<Json>) -> (r: Option<
    Vec<char>,
>)
    requires
        parent == Json::Object(*members),
    ensures
        match r {
            Some(t) => member_index(members@, name@) matches Some(i) && 0 <= i < members@.len()
                && t@ == adf_text(members@[i].1),
            None => member_index(members@, name@) is None,
        },
    decreases parent, 0int,
{
    proof {
        lemma_member_index(members@, name@);
    }
    match get_member(members, name) {
        Some(j) => {
            proof {
                let i = member_index(members@, name@).unwrap();
                assert(decreases_to!(parent => parent->Object_0));
                assert(decreases_to!(parent->Object_0 => parent->Object_0@));
                assert(decreases_to!(parent->Object_0@ => parent->Object_0@[i]));
                assert(decreases_to!(parent->Object_0@[i] => parent->Object_0@[i].1));
            }
            Some(adf_to_markdown_inner(j))
        },
        None => None,
    }
}

/// The markdown of a rich-text value.
pub fn adf_to_markdown_inner(value: &Json) -> (r: Vec<char>)
    ensures
        r@ == adf_text(*value),
    decreases *value, 1int,
{
    match value {
        Json::Text(s) => chars_of(s.as_str()),
        Json::Array(items) => {
            let mut parts: Vec<Vec<char>> = Vec::new();
            let mut i: usize = 0;
            assert(seqs(parts@) =~= array_parts(items@, 0));
            while i < items.len()
                invariant
                    i <= items.len(),
                    *value == Json::Array(*items),
                    seqs(parts@) == array_parts(items@, i as int),
                decreases items.len() - i,
            {
                proof {
                    assert(decreases_to!(*value => (*value)->Array_0));
                    assert(decreases_to!((*value)->Array_0 => (*value)->Array_0@));
                    assert(decreases_to!((*value)->Array_0@ => (*value)->Array_0@[i as int]));
                }
                let t = adf_to_markdown_inner(&items[i]);
                let ghost before = seqs(parts@);
                if trimmed(&t).len() > 0 {
                    parts.push(t);
                    assert(seqs(parts@) =~= before.push(adf_text(items@[i as int])));
                }
                i += 1;
            }
            joined(&parts, "\n")
        },
        Json::Object(members) => {
            let kind = match str_member_of(members, "type") {
                Some(k) => chars_of(k),
                None => Vec::new(),
            };
            let mut out: Vec<char> = Vec::new();
            if is_str(&kind, "text") {
                let t = match str_member_of(members, "text") {
                    Some(t) => chars_of(t),
                    None => Vec::new(),
                };
                match extract_mark_link(get_member(members, "marks")) {
                    Some(link) => {
                        if t.len() > 0 {
                            push_str(&mut out, "[");
                            push_all(&mut out, &t);
                            push_str(&mut out, "](");
                            push_str(&mut out, link);
                            push_str(&mut out, ")");
                            assert(out@ =~= "["@ + t@ + "]("@ + link@ + ")"@);
                            return out;
                        }
                    },
                    None => {},
                }
                t
            } else if is_str(&kind, "hardBreak") {
                push_str(&mut out, "\n");
                assert(out@ =~= "\n"@);
                out
            } else if is_str(&kind, "paragraph") || is_str(&kind, "heading") {
                let content = match member_text(members, "content", Ghost(*value)) {
                    Some(c) => c,
                    None => Vec::new(),
                };
                push_all(&mut out, &trimmed(&content));
                push_str(&mut out, "\n");
                assert(out@ =~= trim(content@) + "\n"@);
                out
            } else if is_str(&kind, "mention") {
                let display: &str = match object_member_of(members, "attrs") {
                    Some(attrs) => match str_member_of(attrs, "text") {
                        Some(t) => t,
                        None => match str_member_of(attrs, "displayName") {
                            Some(d) => d,
                            None => "unknown",
                        },
                    },
                    None => "unknown",
                };
                let d = chars_of(display);
                if str_starts_with(&d, "@") {
                    d
                } else {
                    push_str(&mut out, "@");
                    push_all(&mut out, &d);
                    assert(out@ =~= "@"@ + d@);
                    out
                }
            } else if is_str(&kind, "emoji") {
                let text: &str = match object_member_of(members, "attrs") {
                    Some(attrs) => match str_member_of(attrs, "shortName") {
                        Some(t) => t,
                        None => match str_member_of(attrs, "text") {
                            Some(d) => d,
                            None => ":emoji:",
                        },
                    },
                    None => ":emoji:",
                };
                chars_of(text)
            } else if is_str(&kind, "inlineCard") || is_str(&kind, "blockCard") {
                let url: Vec<char> = match object_member_of(members, "attrs") {
                    Some(attrs) => match str_member_of(attrs, "url") {
                        Some(u) => chars_of(u),
                        None => Vec::new(),
                    },
                    None => Vec::new(),
                };
                if url.len() == 0 {
                    out
                } else {
                    push_str(&mut out, "[");
                    push_all(&mut out, &url);
                    push_str(&mut out, "](");
                    push_all(&mut out, &url);
                    push_str(&mut out, ")");
                    assert(out@ =~= "["@ + url@ + "]("@ + url@ + ")"@);
                    out
                }
            } else if is_str(&kind, "media") || is_str(&kind, "file") {
                out
            } else {
                match member_text(members, "content", Ghost(*value)) {
                    Some(c) => c,
                    None => match member_text(members, "text", Ghost(*value)) {
                        Some(t) => t,
                        None => out,
                    },
                }
            }
        },
        _ => Vec::new(),
    }
}

/// The markdown of a rich-text document.
pub fn adf_to_markdown(value: &Json) -> (r: Vec<char>)
    ensures
        r@ == adf_markdown(*value),
{
    trimmed(&adf_to_markdown_inner(value))
}

} // verus!
