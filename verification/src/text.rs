//! Character-level helpers shared by the parsers and renderers.
//!
//! Every text in this crate is modelled by its sequence of characters, the
//! view of a `str` or a `String`.

use vstd::prelude::*;

verus! {

/// The characters of `s`, in order.
pub fn chars_of(s: &str) -> (r: Vec<char>)
    ensures
        r@ == s@,
{
    let mut out: Vec<char> = Vec::new();
    for c in it: s.chars()
        invariant
            out@ == it.seq().take(it.index()),
    {
        out.push(c);
    }
    out
}

/// Whether two character vectors hold the same text.
pub fn same_chars(a: &Vec<char>, b: &Vec<char>) -> (r: bool)
    ensures
        r == (a@ == b@),
{
    if a.len() != b.len() {
        return false;
    }
    let mut i: usize = 0;
    while i < a.len()
        invariant
            a.len() == b.len(),
            i <= a.len(),
            a@.take(i as int) == b@.take(i as int),
        decreases a.len() - i,
    {
        if a[i] != b[i] {
            assert(a@[i as int] != b@[i as int]);
            return false;
        }
        assert(a@.take(i + 1) == a@.take(i as int).push(a@[i as int]));
        assert(b@.take(i + 1) == b@.take(i as int).push(b@[i as int]));
        i += 1;
    }
    assert(a@ == a@.take(a.len() as int));
    assert(b@ == b@.take(b.len() as int));
    true
}

/// Whether the characters `a` spell the text `word`.
pub fn spells(a: &Vec<char>, word: &str) -> (r: bool)
    ensures
        r == (a@ == word@),
{
    let b = chars_of(word);
    same_chars(a, &b)
}

/// Whether `a` and `b` are the same text.
pub fn same_text(a: &str, b: &str) -> (r: bool)
    ensures
        r == (a@ == b@),
{
    let x = chars_of(a);
    spells(&x, b)
}

/// Whether `a` ends with the characters of `tail`.
pub fn chars_end_with(a: &Vec<char>, tail: &Vec<char>) -> (r: bool)
    ensures
        r == tail@.is_suffix_of(a@),
{
    if tail.len() > a.len() {
        return false;
    }
    let off: usize = a.len() - tail.len();
    let mut i: usize = 0;
    while i < tail.len()
        invariant
            off + tail.len() == a.len(),
            i <= tail.len(),
            forall|k: int| 0 <= k < i ==> a@[off + k] == tail@[k],
        decreases tail.len() - i,
    {
        if a[off + i] != tail[i] {
            assert(a@.subrange(off as int, a.len() as int)[i as int] != tail@[i as int]);
            return false;
        }
        i += 1;
    }
    assert(tail@ =~= a@.subrange(off as int, a.len() as int));
    true
}

/// Whether the text `s` ends with the text `tail`.
pub fn ends_with(s: &str, tail: &str) -> (r: bool)
    ensures
        r == tail@.is_suffix_of(s@),
{
    let a = chars_of(s);
    let b = chars_of(tail);
    chars_end_with(&a, &b)
}

/// The index of the first `c` in `s`, or the length of `s` where `s` holds
/// none.
pub open spec fn first_index(s: Seq<char>, c: char) -> int
    decreases s.len(),
{
    if s.len() == 0 || s[0] == c {
        0
    } else {
        1 + first_index(s.skip(1), c)
    }
}

/// The pieces of `s` between the occurrences of `separator`: one more piece
/// than there are separators, so at least one.
pub open spec fn split(s: Seq<char>, separator: char) -> Seq<Seq<char>>
    decreases s.len(),
{
    let i = first_index(s, separator);
    if i < 0 || i >= s.len() {
        seq![s]
    } else {
        seq![s.take(i)] + split(s.skip(i + 1), separator)
    }
}

/// A text always splits into at least one piece.
pub proof fn lemma_split_nonempty(s: Seq<char>, separator: char)
    ensures
        split(s, separator).len() >= 1,
{
}

/// `line` without a carriage return at its end.
pub open spec fn without_return(line: Seq<char>) -> Seq<char> {
    if line.len() > 0 && line.last() == '\r' {
        line.drop_last()
    } else {
        line
    }
}

/// The lines of `s`. A line ends at a line feed, and a carriage return just
/// before that line feed belongs to the line ending; the last line need not
/// be ended, and an empty text has no line.
pub open spec fn lines(s: Seq<char>) -> Seq<Seq<char>>
    decreases s.len(),
{
    if s.len() == 0 {
        Seq::empty()
    } else {
        let i = first_index(s, '\n');
        if i < 0 || i >= s.len() {
            seq![s]
        } else {
            seq![without_return(s.take(i))] + lines(s.skip(i + 1))
        }
    }
}

/// The texts that the index pairs in `ranges` cut out of `s`.
pub open spec fn cuts(s: Seq<char>, ranges: Seq<(usize, usize)>) -> Seq<Seq<char>> {
    Seq::new(ranges.len(), |i: int| s.subrange(ranges[i].0 as int, ranges[i].1 as int))
}

/// Whether every pair in `ranges` is a range within a text of length `len`.
pub open spec fn ranges_within(ranges: Seq<(usize, usize)>, len: nat) -> bool {
    forall|i: int| 0 <= i < ranges.len() ==> (#[trigger] ranges[i]).0 <= ranges[i].1 <= len
}

/// `first_index` is the position `m` before which `s` holds no `c` and at
/// which it holds one, or ends.
pub proof fn lemma_first_index(s: Seq<char>, c: char, m: int)
    requires
        0 <= m <= s.len(),
        forall|k: int| 0 <= k < m ==> s[k] != c,
        m == s.len() || s[m] == c,
    ensures
        first_index(s, c) == m,
    decreases m,
{
    if m > 0 {
        lemma_first_index(s.skip(1), c, m - 1);
    }
}

/// The position of the first `c` among the characters from `from` up to `to`,
/// or `to` where there is none.
pub fn find_char(chars: &Vec<char>, from: usize, to: usize, c: char) -> (r: usize)
    requires
        from <= to <= chars@.len(),
    ensures
        from <= r <= to,
        r - from == first_index(chars@.subrange(from as int, to as int), c),
        r < to ==> chars@[r as int] == c,
{
    let mut i: usize = from;
    while i < to && chars[i] != c
        invariant
            from <= i <= to <= chars@.len(),
            forall|k: int| from <= k < i ==> chars@[k] != c,
        decreases to - i,
    {
        i += 1;
    }
    proof {
        lemma_first_index(chars@.subrange(from as int, to as int), c, i - from);
    }
    i
}

/// The lines of a text, as index ranges into its characters.
pub fn line_ranges(chars: &Vec<char>) -> (r: Vec<(usize, usize)>)
    ensures
        ranges_within(r@, chars@.len()),
        cuts(chars@, r@) == lines(chars@),
{
    let n: usize = chars.len();
    let mut ranges: Vec<(usize, usize)> = Vec::new();
    let mut pos: usize = 0;
    assert(chars@.skip(0) == chars@);
    while pos < n
        invariant
            pos <= n == chars@.len(),
            ranges_within(ranges@, chars@.len()),
            cuts(chars@, ranges@) + lines(chars@.skip(pos as int)) == lines(chars@),
        decreases n - pos,
    {
        let ghost rest = chars@.skip(pos as int);
        let ghost before = cuts(chars@, ranges@);
        let end = find_char(chars, pos, n, '\n');
        assert(chars@.subrange(pos as int, n as int) == rest);
        if end == n {
            ranges.push((pos, n));
            assert(lines(rest) == seq![rest]);
            assert(cuts(chars@, ranges@) == before + seq![rest]);
            pos = n;
            assert(lines(chars@.skip(pos as int)) == Seq::<Seq<char>>::empty());
        } else {
            let stop: usize = if end > pos && chars[end - 1] == '\r' {
                end - 1
            } else {
                end
            };
            ranges.push((pos, stop));
            assert(rest.take(end - pos) == chars@.subrange(pos as int, end as int));
            assert(without_return(rest.take(end - pos)) == chars@.subrange(pos as int, stop as int));
            assert(rest.skip(end - pos + 1) == chars@.skip(end + 1));
            assert(lines(rest) == seq![chars@.subrange(pos as int, stop as int)] + lines(
                chars@.skip(end + 1),
            ));
            assert(cuts(chars@, ranges@) == before + seq![chars@.subrange(pos as int, stop as int)]);
            pos = end + 1;
        }
    }
    assert(lines(chars@.skip(pos as int)) == Seq::<Seq<char>>::empty());
    ranges
}

/// Whether `s` holds no `c`.
pub open spec fn free_of(s: Seq<char>, c: char) -> bool {
    forall|i: int| 0 <= i < s.len() ==> s[i] != c
}

/// A text without the separator is its own single piece.
pub proof fn lemma_split_whole(s: Seq<char>, separator: char)
    requires
        free_of(s, separator),
    ensures
        split(s, separator) == seq![s],
{
    lemma_first_index(s, separator, s.len() as int);
}

/// Where the first piece holds no separator, the text splits right after it.
pub proof fn lemma_split_first(head: Seq<char>, rest: Seq<char>, separator: char)
    requires
        free_of(head, separator),
    ensures
        split(head + seq![separator] + rest, separator) == seq![head] + split(rest, separator),
{
    let s = head + seq![separator] + rest;
    lemma_first_index(s, separator, head.len() as int);
    assert(s.take(head.len() as int) == head);
    assert(s.skip(head.len() as int + 1) == rest);
}

/// Whether the `count` characters of `s` from `from` on all lie between
/// `low` and `high`.
pub open spec fn is_run(s: Seq<char>, low: char, high: char, from: int, count: nat) -> bool {
    &&& 0 <= from
    &&& from + count <= s.len()
    &&& forall|k: int| from <= k < from + count ==> low <= #[trigger] s[k] <= high
}

/// Whether `s` holds `count` characters in a row that all lie between `low`
/// and `high`.
pub open spec fn has_run(s: Seq<char>, low: char, high: char, count: nat) -> bool {
    exists|from: int| is_run(s, low, high, from, count)
}

/// Whether `s` holds `count` characters in a row that all lie between `low`
/// and `high`.
pub fn holds_run(s: &str, low: char, high: char, count: usize) -> (r: bool)
    requires
        count > 0,
    ensures
        r == has_run(s@, low, high, count as nat),
{
    let chars = chars_of(s);
    let mut run: usize = 0;
    let mut i: usize = 0;
    while i < chars.len()
        invariant
            i <= chars@.len(),
            chars@ == s@,
            count > 0,
            run < count,
            run <= i,
            forall|k: int| i - run <= k < i ==> low <= #[trigger] chars@[k] <= high,
            run < i ==> !(low <= chars@[i - run - 1] <= high),
            forall|from: int| from + count <= i ==> !is_run(chars@, low, high, from, count as nat),
        decreases chars@.len() - i,
    {
        if low <= chars[i] && chars[i] <= high {
            run += 1;
            if run == count {
                assert(is_run(chars@, low, high, i + 1 - count, count as nat));
                return true;
            }
        } else {
            run = 0;
        }
        i += 1;
        assert forall|from: int| from + count <= i implies !is_run(
            chars@,
            low,
            high,
            from,
            count as nat,
        ) by {
            if from + count == i && from >= 0 {
                if run == 0 {
                    assert(!(low <= chars@[i - 1] <= high));
                } else {
                    assert(!(low <= chars@[i - run - 1] <= high));
                }
            }
        }
    }
    assert forall|from: int| !is_run(chars@, low, high, from, count as nat) by {
        if 0 <= from && from + count <= chars@.len() {
            assert(from + count <= i);
        }
    }
    false
}

} // verus!
