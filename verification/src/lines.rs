//! Splitting text into lines and joining pieces of text.

use vstd::prelude::*;

verus! {

/// The character sequences held by a sequence of vectors.
pub open spec fn seqs(v: Seq<Vec<char>>) -> Seq<Seq<char>> {
    v.map_values(|l: Vec<char>| l@)
}

/// The character sequences held by a sequence of strings.
pub open spec fn texts(v: Seq<String>) -> Seq<Seq<char>> {
    v.map_values(|l: String| l@)
}

/// The index of the first `c` in `s`, or the length of `s` if there is none.
pub open spec fn first_index_of(s: Seq<char>, c: char) -> nat
    decreases s.len(),
{
    if s.len() == 0 || s[0] == c {
        0
    } else {
        1 + first_index_of(s.drop_first(), c)
    }
}

/// The index of the first `c` in `v[from..]`, counted from `from`.
pub fn find_char(v: &Vec<char>, c: char, from: usize) -> (n: usize)
    requires
        from <= v.len(),
    ensures
        n == first_index_of(v@.skip(from as int), c),
        from + n <= v.len(),
{
    let mut i: usize = from;
    assert(v@.skip(from as int).skip(0) == v@.skip(from as int));
    while i < v.len() && v[i] != c
        invariant
            from <= i <= v.len(),
            first_index_of(v@.skip(from as int), c) == (i - from) + first_index_of(
                v@.skip(i as int),
                c,
            ),
        decreases v.len() - i,
    {
        assert(v@.skip(i as int).drop_first() == v@.skip(i + 1));
        i += 1;
    }
    i - from
}

/// `line` without one trailing carriage return, if it has one.
pub open spec fn strip_cr(line: Seq<char>) -> Seq<char> {
    if line.len() > 0 && line.last() == '\r' {
        line.drop_last()
    } else {
        line
    }
}

/// The lines of `s`. A line ends at a line feed, or at a carriage return directly
/// followed by one; the terminator is not part of the line. The last line needs no
/// terminator, and a carriage return at its end without a line feed stays.
pub open spec fn lines(s: Seq<char>) -> Seq<Seq<char>>
    decreases s.len(),
{
    if s.len() == 0 {
        Seq::empty()
    } else {
        let i = first_index_of(s, '\n');
        if i >= s.len() {
            seq![s]
        } else {
            seq![strip_cr(s.take(i as int))] + lines(s.skip(i as int + 1))
        }
    }
}

/// The lines of `v`.
pub fn split_lines(v: &Vec<char>) -> (r: Vec<Vec<char>>)
    ensures
        seqs(r@) == lines(v@),
{
    let mut r: Vec<Vec<char>> = Vec::new();
    let mut pos: usize = 0;
    assert(v@.skip(0) == v@);
    assert(seqs(r@) == Seq::<Seq<char>>::empty());
    while pos < v.len()
        invariant
            pos <= v.len(),
            lines(v@) == seqs(r@) + lines(v@.skip(pos as int)),
        decreases v.len() - pos,
    {
        let n = find_char(v, '\n', pos);
        let ghost rest = v@.skip(pos as int);
        let ghost before = seqs(r@);
        if pos + n >= v.len() {
            let line = crate::text::subvec(v, pos, v.len());
            assert(line@ == rest);
            r.push(line);
            assert(seqs(r@) == before.push(rest));
            assert(lines(rest) == seq![rest]);
            pos = v.len();
            assert(lines(v@.skip(pos as int)) == Seq::<Seq<char>>::empty());
        } else {
            let mut end: usize = pos + n;
            assert(rest.take(n as int) == v@.subrange(pos as int, pos + n));
            if end > pos && v[end - 1] == '\r' {
                end = end - 1;
            }
            let line = crate::text::subvec(v, pos, end);
            assert(line@ == strip_cr(rest.take(n as int)));
            r.push(line);
            assert(seqs(r@) == before.push(strip_cr(rest.take(n as int))));
            assert(rest.skip(n + 1) == v@.skip(pos + n + 1));
            pos = pos + n + 1;
        }
    }
    r
}

/// The pieces of `parts` in order, with `sep` between each two neighbours.
pub open spec fn join(parts: Seq<Seq<char>>, sep: Seq<char>) -> Seq<char>
    decreases parts.len(),
{
    if parts.len() == 0 {
        Seq::empty()
    } else if parts.len() == 1 {
        parts[0]
    } else {
        join(parts.drop_last(), sep) + sep + parts.last()
    }
}

/// Joins `parts` with `sep` between each two neighbours.
pub fn joined(parts: &Vec<Vec<char>>, sep: &str) -> (r: Vec<char>)
    ensures
        r@ == join(seqs(parts@), sep@),
{
    let mut r: Vec<char> = Vec::new();
    let mut i: usize = 0;
    while i < parts.len()
        invariant
            i <= parts.len(),
            r@ == join(seqs(parts@).take(i as int), sep@),
        decreases parts.len() - i,
    {
        if i > 0 {
            crate::text::push_str(&mut r, sep);
        }
        crate::text::push_all(&mut r, &parts[i]);
        assert(seqs(parts@).take(i + 1).drop_last() == seqs(parts@).take(i as int));
        i += 1;
    }
    assert(seqs(parts@).take(parts.len() as int) == seqs(parts@));
    r
}

} // verus!
