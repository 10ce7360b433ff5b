//! Text as sequences of characters: searching, splitting and trimming.
//!
//! Every executable function here is stated against a spec function over
//! `Seq<char>`, the view of `str` and `String`.

use vstd::prelude::*;
use vstd::string::*;

verus! {

/// The index of the first `c` in `s`, or `s.len()` where `s` holds none.
pub open spec fn find(s: Seq<char>, c: char) -> int
    decreases s.len(),
{
    if s.len() == 0 {
        0
    } else if s[0] == c {
        0
    } else {
        1 + find(s.skip(1), c)
    }
}

/// The pieces of `s` between the occurrences of `sep`. There is always at
/// least one piece, no piece holds `sep`, and an empty text has the one
/// empty piece.
pub open spec fn split(s: Seq<char>, sep: char) -> Seq<Seq<char>>
    decreases s.len(),
{
    let i = find(s, sep);
    if 0 <= i < s.len() {
        seq![s.take(i)] + split(s.skip(i + 1), sep)
    } else {
        seq![s]
    }
}

/// `s` without the run of `c` at its end.
pub open spec fn trim_end(s: Seq<char>, c: char) -> Seq<char>
    decreases s.len(),
{
    if s.len() > 0 && s.last() == c {
        trim_end(s.drop_last(), c)
    } else {
        s
    }
}

/// `needle` stands in `hay` at position `at`.
pub open spec fn occurs_at(hay: Seq<char>, needle: Seq<char>, at: int) -> bool {
    &&& 0 <= at
    &&& at + needle.len() <= hay.len()
    &&& hay.subrange(at, at + needle.len()) == needle
}

/// `needle` stands somewhere in `hay`. The empty text stands in every text.
pub open spec fn is_substring(hay: Seq<char>, needle: Seq<char>) -> bool {
    exists|at: int| occurs_at(hay, needle, at)
}

/// The pieces with `sep` between each two neighbours. No pieces give the
/// empty text.
pub open spec fn join(parts: Seq<Seq<char>>, sep: char) -> Seq<char>
    decreases parts.len(),
{
    if parts.len() == 0 {
        Seq::empty()
    } else if parts.len() == 1 {
        parts[0]
    } else {
        join(parts.drop_last(), sep) + seq![sep] + parts.last()
    }
}

/// The views of a vector of strings.
pub open spec fn texts(parts: Seq<String>) -> Seq<Seq<char>> {
    Seq::new(parts.len(), |i: int| parts[i]@)
}

/// The views of a vector of string slices.
pub open spec fn views(parts: Seq<&str>) -> Seq<Seq<char>> {
    Seq::new(parts.len(), |i: int| parts[i]@)
}

/// `find` gives a position within `s` or its length, nothing before it is
/// `c`, and `c` stands there unless the position is the length.
pub proof fn lemma_find(s: Seq<char>, c: char)
    ensures
        0 <= find(s, c) <= s.len(),
        forall|k: int| 0 <= k < find(s, c) ==> s[k] != c,
        find(s, c) < s.len() ==> s[find(s, c)] == c,
    decreases s.len(),
{
    if s.len() > 0 && s[0] != c {
        let rest = s.skip(1);
        lemma_find(rest, c);
        assert forall|k: int| 0 <= k < find(s, c) implies s[k] != c by {
            if k > 0 {
                assert(rest[k - 1] == s[k]);
            }
        }
        assert(find(rest, c) < rest.len() ==> rest[find(rest, c)] == s[find(s, c)]);
    }
}

/// A position with no `c` before it, which is the length or holds `c`, is
/// the one that `find` gives.
pub proof fn lemma_find_unique(s: Seq<char>, c: char, at: int)
    requires
        0 <= at <= s.len(),
        forall|k: int| 0 <= k < at ==> s[k] != c,
        at < s.len() ==> s[at] == c,
    ensures
        find(s, c) == at,
    decreases s.len(),
{
    if s.len() > 0 && s[0] != c {
        let rest = s.skip(1);
        assert forall|k: int| 0 <= k < at - 1 implies rest[k] != c by {
            assert(rest[k] == s[k + 1]);
        }
        assert(at - 1 < rest.len() ==> rest[at - 1] == s[at]);
        lemma_find_unique(rest, c, at - 1);
    }
}

/// Every piece of a split is free of the separator, and there is a piece.
pub proof fn lemma_split_pieces(s: Seq<char>, sep: char)
    ensures
        split(s, sep).len() >= 1,
        forall|i: int| 0 <= i < split(s, sep).len() ==> !(#[trigger] split(s, sep)[i]).contains(sep),
    decreases s.len(),
{
    lemma_find(s, sep);
    let i = find(s, sep);
    if 0 <= i < s.len() {
        let rest = s.skip(i + 1);
        lemma_split_pieces(rest, sep);
        let head = s.take(i);
        assert(!head.contains(sep)) by {
            if head.contains(sep) {
                let k = choose|k: int| 0 <= k < head.len() && head[k] == sep;
                assert(s[k] == sep);
            }
        }
        assert forall|j: int| 0 <= j < split(s, sep).len() implies !(#[trigger] split(
            s,
            sep,
        )[j]).contains(sep) by {
            if j > 0 {
                assert(split(s, sep)[j] == split(rest, sep)[j - 1]);
            }
        }
    } else {
        assert(!s.contains(sep)) by {
            if s.contains(sep) {
                let k = choose|k: int| 0 <= k < s.len() && s[k] == sep;
                assert(s[k] == sep);
            }
        }
    }
}

/// A text without the separator is its own single piece.
pub proof fn lemma_split_single(s: Seq<char>, sep: char)
    requires
        !s.contains(sep),
    ensures
        split(s, sep) == seq![s],
{
    lemma_find(s, sep);
    if find(s, sep) < s.len() {
        assert(s.contains(sep));
    }
}

/// A piece free of the separator, the separator, and more text split into
/// that piece followed by the pieces of the rest.
pub proof fn lemma_split_cons(head: Seq<char>, sep: char, rest: Seq<char>)
    requires
        !head.contains(sep),
    ensures
        split(head + seq![sep] + rest, sep) == seq![head] + split(rest, sep),
{
    let s = head + seq![sep] + rest;
    assert forall|k: int| 0 <= k < head.len() implies s[k] != sep by {
        assert(s[k] == head[k]);
        assert(head.contains(head[k]));
    }
    assert(s[head.len() as int] == sep);
    lemma_find_unique(s, sep, head.len() as int);
    assert(s.take(head.len() as int) =~= head);
    assert(s.skip(head.len() as int + 1) =~= rest);
}

/// One more piece at the end adds the separator and the piece, or the piece
/// alone where it is the first.
pub proof fn lemma_join_push(parts: Seq<Seq<char>>, sep: char, last: Seq<char>)
    ensures
        join(parts.push(last), sep) == if parts.len() == 0 {
            last
        } else {
            join(parts, sep) + seq![sep] + last
        },
{
    assert(parts.push(last).drop_last() =~= parts);
}

/// Joining two or more pieces is the first piece, the separator, and the
/// other pieces joined.
pub proof fn lemma_join_first(parts: Seq<Seq<char>>, sep: char)
    requires
        parts.len() >= 2,
    ensures
        join(parts, sep) == parts[0] + seq![sep] + join(parts.drop_first(), sep),
    decreases parts.len(),
{
    let init = parts.drop_last();
    let tail = parts.drop_first();
    assert(join(parts, sep) == join(init, sep) + seq![sep] + parts.last());
    if parts.len() == 2 {
        assert(init.len() == 1 && init[0] == parts[0]);
        assert(tail.len() == 1 && tail[0] == parts[1]);
        assert(join(init, sep) == parts[0]);
        assert(join(tail, sep) == parts[1]);
    } else {
        lemma_join_first(init, sep);
        assert(init.drop_first() =~= tail.drop_last());
        assert(tail.last() == parts.last());
        assert(join(tail, sep) == join(tail.drop_last(), sep) + seq![sep] + tail.last());
        assert(join(parts, sep) =~= parts[0] + seq![sep] + join(tail, sep));
    }
}

/// Cutting joined pieces at the separator gives the pieces back, provided
/// there is a piece and none of them holds the separator.
pub proof fn lemma_split_join(parts: Seq<Seq<char>>, sep: char)
    requires
        parts.len() >= 1,
        forall|i: int| 0 <= i < parts.len() ==> !(#[trigger] parts[i]).contains(sep),
    ensures
        split(join(parts, sep), sep) == parts,
    decreases parts.len(),
{
    if parts.len() == 1 {
        lemma_split_single(parts[0], sep);
        assert(parts =~= seq![parts[0]]);
    } else {
        let tail = parts.drop_first();
        lemma_join_first(parts, sep);
        assert forall|i: int| 0 <= i < tail.len() implies !(#[trigger] tail[i]).contains(sep) by {
            assert(tail[i] == parts[i + 1]);
        }
        lemma_split_join(tail, sep);
        lemma_split_cons(parts[0], sep, join(tail, sep));
        assert(seq![parts[0]] + tail =~= parts);
    }
}

/// Joined pieces hold a character only if one of the pieces holds it or it
/// is the separator.
pub proof fn lemma_join_contains(parts: Seq<Seq<char>>, sep: char, c: char)
    requires
        c != sep,
        forall|i: int| 0 <= i < parts.len() ==> !(#[trigger] parts[i]).contains(c),
    ensures
        !join(parts, sep).contains(c),
    decreases parts.len(),
{
    let joined = join(parts, sep);
    if parts.len() >= 2 {
        let init = parts.drop_last();
        assert forall|i: int| 0 <= i < init.len() implies !(#[trigger] init[i]).contains(c) by {
            assert(init[i] == parts[i]);
        }
        lemma_join_contains(init, sep, c);
        let left = join(init, sep);
        let last = parts.last();
        assert(!last.contains(c));
        if joined.contains(c) {
            let k = choose|k: int| 0 <= k < joined.len() && joined[k] == c;
            if k < left.len() {
                assert(left[k] == c);
                assert(left.contains(c));
            } else if k > left.len() {
                assert(last[k - left.len() - 1] == c);
                assert(last.contains(c));
            }
        }
    } else if parts.len() == 1 {
        assert(!parts[0].contains(c));
    }
}

/// Trimming leaves a prefix of the text that does not end in `c`, and all
/// that was cut is `c`.
pub proof fn lemma_trim_end(s: Seq<char>, c: char)
    ensures
        trim_end(s, c).len() <= s.len(),
        trim_end(s, c) == s.take(trim_end(s, c).len() as int),
        trim_end(s, c).len() > 0 ==> trim_end(s, c).last() != c,
        forall|k: int| trim_end(s, c).len() <= k < s.len() ==> s[k] == c,
    decreases s.len(),
{
    if s.len() > 0 && s.last() == c {
        let init = s.drop_last();
        lemma_trim_end(init, c);
        let t = trim_end(init, c);
        assert(init.take(t.len() as int) =~= s.take(t.len() as int));
        assert forall|k: int| t.len() <= k < s.len() implies s[k] == c by {
            if k < init.len() {
                assert(init[k] == s[k]);
            }
        }
    } else {
        assert(s.take(s.len() as int) =~= s);
    }
}

/// A text that ends in something other than `c`, followed by a run of `c`,
/// trims back to that text.
pub proof fn lemma_trim_end_unique(s: Seq<char>, c: char, keep: int)
    requires
        0 <= keep <= s.len(),
        keep > 0 ==> s[keep - 1] != c,
        forall|k: int| keep <= k < s.len() ==> s[k] == c,
    ensures
        trim_end(s, c) == s.take(keep),
    decreases s.len(),
{
    if keep == s.len() {
        assert(s.take(keep) =~= s);
    } else {
        let init = s.drop_last();
        lemma_trim_end_unique(init, c, keep);
        assert(init.take(keep) =~= s.take(keep));
    }
}

/// The characters of `s`, in order.
pub fn chars_of(s: &str) -> (v: Vec<char>)
    ensures
        v@ == s@,
{
    broadcast use vstd::string::axiom_spec_iter;

    let mut v: Vec<char> = Vec::new();
    for c in it: s.chars()
        invariant
            it.seq() == s@,
            v@ == s@.take(it.index() as int),
    {
        assert(s@.take(it.index() + 1) =~= s@.take(it.index() as int).push(c));
        v.push(c);
    }
    assert(s@.take(s@.len() as int) =~= s@);
    v
}

/// Cuts `s` at every `sep`: the pieces in order, as slices of `s`.
pub fn split_str<'a>(s: &'a str, sep: char) -> (parts: Vec<&'a str>)
    ensures
        views(parts@) == split(s@, sep),
{
    let chars = chars_of(s);
    let n = chars.len();
    let mut parts: Vec<&'a str> = Vec::new();
    let mut start: usize = 0;
    let mut i: usize = 0;
    assert(s@.skip(0) =~= s@);
    assert(views(parts@) + split(s@, sep) =~= split(s@, sep));
    while i < n
        invariant
            chars@ == s@,
            n == chars.len(),
            start <= i <= n,
            forall|k: int| start <= k < i ==> chars@[k] != sep,
            split(s@, sep) == views(parts@) + split(s@.skip(start as int), sep),
        decreases n - i,
    {
        if chars[i] == sep {
            let piece = s.substring_char(start, i);
            proof {
                let tail = s@.skip(start as int);
                assert forall|k: int| 0 <= k < i - start implies tail[k] != sep by {
                    assert(tail[k] == chars@[start + k]);
                }
                assert(tail[i - start] == sep);
                lemma_find_unique(tail, sep, i - start);
                assert(tail.take(i - start) =~= piece@);
                assert(tail.skip(i - start + 1) =~= s@.skip(i + 1));
                assert(views(parts@.push(piece)) =~= views(parts@) + seq![piece@]);
            }
            parts.push(piece);
            start = i + 1;
        }
        i += 1;
    }
    let piece = s.substring_char(start, n);
    proof {
        let tail = s@.skip(start as int);
        assert forall|k: int| 0 <= k < tail.len() implies tail[k] != sep by {
            assert(tail[k] == chars@[start + k]);
        }
        lemma_find_unique(tail, sep, tail.len() as int);
        assert(tail =~= piece@);
        assert(views(parts@.push(piece)) =~= views(parts@) + seq![piece@]);
    }
    parts.push(piece);
    parts
}

/// `s` without the run of `c` at its end, as a slice of `s`.
pub fn trim_end_str<'a>(s: &'a str, c: char) -> (t: &'a str)
    ensures
        t@ == trim_end(s@, c),
{
    let chars = chars_of(s);
    let mut keep: usize = chars.len();
    while keep > 0 && chars[keep - 1] == c
        invariant
            chars@ == s@,
            keep <= chars.len(),
            forall|k: int| keep <= k < chars.len() ==> chars@[k] == c,
        decreases keep,
    {
        keep -= 1;
    }
    proof {
        lemma_trim_end_unique(s@, c, keep as int);
    }
    s.substring_char(0, keep)
}

/// The strings with a tab between each two neighbours.
pub fn join_tabs(parts: &Vec<String>) -> (s: String)
    ensures
        s@ == join(texts(parts@), '\t'),
{
    let mut s = String::new();
    let n = parts.len();
    let mut i: usize = 0;
    while i < n
        invariant
            n == parts.len(),
            i <= n,
            s@ == join(texts(parts@).take(i as int), '\t'),
        decreases n - i,
    {
        if i > 0 {
            proof {
                reveal_strlit("\t");
            }
            s.append("\t");
        }
        s.append(parts[i].as_str());
        proof {
            let done = texts(parts@).take(i as int);
            let more = texts(parts@).take(i + 1);
            assert(more.drop_last() =~= done);
            assert(more.last() == parts@[i as int]@);
            if i > 0 {
                assert("\t"@ =~= seq!['\t']);
            } else {
                assert(s@ =~= parts@[i as int]@);
            }
        }
        i += 1;
    }
    assert(texts(parts@).take(n as int) =~= texts(parts@));
    s
}

/// Whether `needle` stands at position `at` of `hay`.
fn matches_at(hay: &Vec<char>, needle: &Vec<char>, at: usize) -> (b: bool)
    requires
        at + needle.len() <= hay.len(),
    ensures
        b == occurs_at(hay@, needle@, at as int),
{
    let m = needle.len();
    let mut j: usize = 0;
    while j < m
        invariant
            m == needle.len(),
            at + m <= hay.len(),
            j <= m,
            forall|k: int| 0 <= k < j ==> hay@[at + k] == needle@[k],
        decreases m - j,
    {
        if hay[at + j] != needle[j] {
            proof {
                let window = hay@.subrange(at as int, at + m);
                assert(window[j as int] == hay@[at + j]);
            }
            return false;
        }
        j += 1;
    }
    assert(hay@.subrange(at as int, at + m) =~= needle@);
    true
}

/// Whether `needle` stands somewhere in `hay`.
pub fn contains_text(hay: &Vec<char>, needle: &Vec<char>) -> (b: bool)
    ensures
        b == is_substring(hay@, needle@),
{
    let n = hay.len();
    let m = needle.len();
    if m > n {
        return false;
    }
    let last = n - m;
    let mut at: usize = 0;
    while at < last
        invariant
            n == hay.len(),
            m == needle.len(),
            last == n - m,
            at <= last,
            forall|k: int| 0 <= k < at ==> !occurs_at(hay@, needle@, k),
        decreases last - at,
    {
        if matches_at(hay, needle, at) {
            return true;
        }
        at += 1;
    }
    matches_at(hay, needle, last)
}

} // verus!
