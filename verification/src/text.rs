//! Small verified helpers over strings, seen as sequences of characters.

use vstd::prelude::*;

verus! {

/// The character sequences of a sequence of strings.
pub open spec fn views(strings: Seq<String>) -> Seq<Seq<char>> {
    strings.map_values(|s: String| s@)
}

/// The pieces of `s` between occurrences of the separators `first` and
/// `second`. There is always one piece more than there are separators, so a
/// string without separator is its own single piece, and a trailing
/// separator is followed by an empty piece.
pub open spec fn split_either(s: Seq<char>, first: char, second: char) -> Seq<Seq<char>>
    decreases s.len(),
{
    if s.len() == 0 {
        seq![Seq::<char>::empty()]
    } else {
        let before = split_either(s.drop_last(), first, second);
        if s.last() == first || s.last() == second {
            before.push(Seq::<char>::empty())
        } else {
            before.drop_last().push(before.last().push(s.last()))
        }
    }
}

/// The pieces of `s` between occurrences of `sep`.
pub open spec fn split(s: Seq<char>, sep: char) -> Seq<Seq<char>> {
    split_either(s, sep, sep)
}

/// Splitting never yields an empty list of pieces.
pub proof fn lemma_split_nonempty(s: Seq<char>, first: char, second: char)
    ensures
        split_either(s, first, second).len() >= 1,
    decreases s.len(),
{
    if s.len() > 0 {
        lemma_split_nonempty(s.drop_last(), first, second);
    }
}

/// No piece of a split holds a separator.
pub proof fn lemma_split_pieces_lack_separators(s: Seq<char>, first: char, second: char)
    ensures
        forall|i: int, k: int|
            0 <= i < split_either(s, first, second).len() && 0 <= k < split_either(
                s,
                first,
                second,
            )[i].len() ==> {
                let c = #[trigger] split_either(s, first, second)[i][k];
                c != first && c != second
            },
    decreases s.len(),
{
    if s.len() > 0 {
        lemma_split_nonempty(s.drop_last(), first, second);
        lemma_split_pieces_lack_separators(s.drop_last(), first, second);
    }
}

/// A string without separator is its own single piece.
pub proof fn lemma_split_without_separator(s: Seq<char>, first: char, second: char)
    requires
        forall|k: int| 0 <= k < s.len() ==> s[k] != first && s[k] != second,
    ensures
        split_either(s, first, second) == seq![s],
    decreases s.len(),
{
    if s.len() > 0 {
        let front = s.drop_last();
        lemma_split_without_separator(front, first, second);
        let before = split_either(front, first, second);
        assert(before.last() == front);
        assert(front.push(s.last()) == s);
        assert(before.drop_last().push(s) == seq![s]);
    } else {
        assert(s == Seq::<char>::empty());
    }
}

/// The characters of `s`, in order.
pub fn chars_of(s: &str) -> (out: Vec<char>)
    ensures
        out@ == s@,
{
    let mut out: Vec<char> = Vec::new();
    for c in it: s.chars()
        invariant
            it.seq() == s@,
            out@ == it.seq().take(it.index()),
    {
        out.push(c);
    }
    out
}

/// Splits `s` at every occurrence of `first` and of `second`.
pub fn split_on_either(s: &str, first: char, second: char) -> (parts: Vec<String>)
    ensures
        views(parts@) == split_either(s@, first, second),
        parts@.len() >= 1,
{
    let chars = chars_of(s);
    let n: usize = chars.len();
    let mut parts: Vec<String> = Vec::new();
    let mut start: usize = 0;
    let mut i: usize = 0;
    assert(s@.take(0) == Seq::<char>::empty());
    assert(views(parts@).push(s@.subrange(0, 0)) == seq![Seq::<char>::empty()]);
    while i < n
        invariant
            chars@ == s@,
            n == chars.len(),
            start <= i <= n,
            split_either(s@.take(i as int), first, second) == views(parts@).push(
                s@.subrange(start as int, i as int),
            ),
        decreases n - i,
    {
        let ghost before = split_either(s@.take(i as int), first, second);
        let ghost old_parts = parts@;
        assert(s@.take(i + 1).drop_last() == s@.take(i as int));
        assert(s@.take(i + 1).last() == s@[i as int]);
        if chars[i] == first || chars[i] == second {
            let part = String::from_str(s.substring_char(start, i));
            parts.push(part);
            assert(views(parts@) == views(old_parts).push(part@));
            start = i + 1;
            assert(s@.subrange(start as int, i + 1) == Seq::<char>::empty());
        } else {
            assert(before.drop_last() == views(old_parts));
            assert(s@.subrange(start as int, i as int).push(s@[i as int]) == s@.subrange(
                start as int,
                i + 1,
            ));
        }
        i += 1;
    }
    assert(s@.take(n as int) == s@);
    let ghost old_parts = parts@;
    let part = String::from_str(s.substring_char(start, n));
    parts.push(part);
    assert(views(parts@) == views(old_parts).push(part@));
    parts
}

/// Splits `s` at every occurrence of `sep`.
pub fn split_on(s: &str, sep: char) -> (parts: Vec<String>)
    ensures
        views(parts@) == split(s@, sep),
        parts@.len() >= 1,
{
    split_on_either(s, sep, sep)
}

} // verus!
