//! Character sequences: reading a string, splitting at a separator, joining.

use vstd::prelude::*;
use vstd::slice::slice_subrange;

verus! {

/// The pieces of `s` that lie between the occurrences of `sep`, in order. A
/// sequence with `n` separators has `n + 1` pieces, some of which may be empty.
pub open spec fn split(s: Seq<char>, sep: char) -> Seq<Seq<char>>
    decreases s.len(),
{
    if s.len() == 0 {
        seq![Seq::<char>::empty()]
    } else {
        let front = split(s.drop_last(), sep);
        if s.last() == sep {
            front.push(Seq::<char>::empty())
        } else {
            front.update(front.len() - 1, front.last().push(s.last()))
        }
    }
}

/// The pieces of `parts` in order, with `sep` between each two neighbours.
pub open spec fn join(parts: Seq<Seq<char>>, sep: char) -> Seq<char>
    decreases parts.len(),
{
    if parts.len() == 0 {
        Seq::<char>::empty()
    } else if parts.len() == 1 {
        parts[0]
    } else {
        join(parts.drop_last(), sep).push(sep) + parts.last()
    }
}

/// The views of a sequence of slices.
pub open spec fn views(pieces: Seq<&[char]>) -> Seq<Seq<char>> {
    Seq::new(pieces.len(), |i: int| pieces[i]@)
}

/// A split has at least one piece.
pub proof fn lemma_split_len(s: Seq<char>, sep: char)
    ensures
        split(s, sep).len() >= 1,
    decreases s.len(),
{
    if s.len() > 0 {
        lemma_split_len(s.drop_last(), sep);
    }
}

/// Appending text without a separator lengthens the last piece.
pub proof fn lemma_split_append(a: Seq<char>, b: Seq<char>, sep: char)
    requires
        !b.contains(sep),
    ensures
        split(a, sep).len() >= 1,
        split(a + b, sep) == split(a, sep).update(
            split(a, sep).len() - 1,
            split(a, sep).last() + b,
        ),
    decreases b.len(),
{
    lemma_split_len(a, sep);
    if b.len() > 0 {
        let b0 = b.drop_last();
        lemma_split_append(a, b0, sep);
        assert((a + b).drop_last() =~= a + b0);
        assert((split(a, sep).last() + b0).push(b.last()) =~= split(a, sep).last() + b);
    }
}

/// Joining pieces that hold no separator and splitting the result gives the
/// pieces back.
pub proof fn lemma_split_join(parts: Seq<Seq<char>>, sep: char)
    requires
        parts.len() >= 1,
        forall|i: int| 0 <= i < parts.len() ==> !(#[trigger] parts[i]).contains(sep),
    ensures
        split(join(parts, sep), sep) == parts,
    decreases parts.len(),
{
    if parts.len() == 1 {
        lemma_split_append(Seq::<char>::empty(), parts[0], sep);
    } else {
        let front = parts.drop_last();
        lemma_split_join(front, sep);
        let head = join(front, sep).push(sep);
        assert(head.drop_last() =~= join(front, sep));
        lemma_split_append(head, parts.last(), sep);
    }
}

/// Splitting a sequence and joining the pieces gives the sequence back, and no
/// piece holds a separator.
pub proof fn lemma_join_split(s: Seq<char>, sep: char)
    ensures
        join(split(s, sep), sep) == s,
        forall|i: int|
            0 <= i < split(s, sep).len() ==> !(#[trigger] split(s, sep)[i]).contains(sep),
    decreases s.len(),
{
    if s.len() > 0 {
        let s0 = s.drop_last();
        let front = split(s0, sep);
        lemma_join_split(s0, sep);
        let whole = split(s, sep);
        assert(s =~= s0.push(s.last()));
        if s.last() == sep {
            assert(whole.drop_last() =~= front);
        } else if front.len() > 1 {
            assert(whole.drop_last() =~= front.drop_last());
        }
    }
}

/// A sequence without a separator is its own single piece.
pub proof fn lemma_split_plain(s: Seq<char>, sep: char)
    requires
        !s.contains(sep),
    ensures
        split(s, sep) == seq![s],
{
    lemma_split_append(Seq::<char>::empty(), s, sep);
}

/// A character that is not the separator and occurs in no piece does not
/// occur in the joined pieces.
pub proof fn lemma_join_without(parts: Seq<Seq<char>>, sep: char, c: char)
    requires
        c != sep,
        forall|i: int| 0 <= i < parts.len() ==> !(#[trigger] parts[i]).contains(c),
    ensures
        !join(parts, sep).contains(c),
    decreases parts.len(),
{
    if parts.len() > 1 {
        lemma_join_without(parts.drop_last(), sep, c);
    }
}

/// Where no piece is empty or holds a separator, the joined pieces neither
/// start nor end with a separator, and no two separators follow each other.
pub proof fn lemma_join_single_separators(parts: Seq<Seq<char>>, sep: char)
    requires
        parts.len() >= 1,
        forall|i: int| 0 <= i < parts.len() ==> (#[trigger] parts[i]).len() >= 1,
        forall|i: int| 0 <= i < parts.len() ==> !(#[trigger] parts[i]).contains(sep),
    ensures
        join(parts, sep).len() >= 1,
        join(parts, sep).first() != sep,
        join(parts, sep).last() != sep,
        forall|k: int|
            0 <= k && k + 1 < join(parts, sep).len() ==> !(join(parts, sep)[k] == sep
                && #[trigger] join(parts, sep)[k + 1] == sep),
    decreases parts.len(),
{
    if parts.len() > 1 {
        lemma_join_single_separators(parts.drop_last(), sep);
    }
}

/// The characters of a string.
pub fn chars_of(s: &str) -> (chars: Vec<char>)
    ensures
        chars@ == s@,
{
    let mut chars: Vec<char> = Vec::new();
    for c in it: s.chars()
        invariant
            chars@ == it.seq().take(it.index()),
            it.seq() == s@,
    {
        chars.push(c);
    }
    chars
}

/// The index of the first occurrence of `needle` in `s`, if there is one.
pub fn find_first(s: &[char], needle: char) -> (found: Option<usize>)
    ensures
        match found {
            Some(k) => k < s.len() && s@.index_of_first(needle) == Some(k as int),
            None => s@.index_of_first(needle) is None,
        },
{
    let mut pos: usize = 0;
    while pos < s.len()
        invariant
            pos <= s.len(),
            forall|j: int| 0 <= j < pos ==> s@[j] != needle,
        decreases s.len() - pos,
    {
        if s[pos] == needle {
            proof {
                s@.index_of_first_ensures(needle);
            }
            return Some(pos);
        }
        pos += 1;
    }
    proof {
        s@.index_of_first_ensures(needle);
    }
    None
}

/// Splits a slice at every occurrence of `sep`.
pub fn split_slice<'a>(s: &'a [char], sep: char) -> (pieces: Vec<&'a [char]>)
    ensures
        views(pieces@) == split(s@, sep),
{
    let mut pieces: Vec<&'a [char]> = Vec::new();
    let mut start: usize = 0;
    let mut pos: usize = 0;
    proof {
        assert(s@.subrange(0, 0) =~= Seq::<char>::empty());
    }
    while pos < s.len()
        invariant
            start <= pos <= s.len(),
            split(s@.take(pos as int), sep) == views(pieces@).push(
                s@.subrange(start as int, pos as int),
            ),
        decreases s.len() - pos,
    {
        let ghost current = s@.subrange(start as int, pos as int);
        proof {
            assert(s@.take(pos + 1).drop_last() =~= s@.take(pos as int));
        }
        if s[pos] == sep {
            pieces.push(slice_subrange(s, start, pos));
            start = pos + 1;
            proof {
                assert(s@.subrange(start as int, pos + 1) =~= Seq::<char>::empty());
            }
        } else {
            proof {
                assert(s@.subrange(start as int, pos + 1) =~= current.push(s@[pos as int]));
            }
        }
        pos += 1;
    }
    pieces.push(slice_subrange(s, start, pos));
    proof {
        assert(s@.take(pos as int) =~= s@);
    }
    pieces
}

} // verus!
