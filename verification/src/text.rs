//! Character-level string operations with specifications over `Seq<char>`.

use vstd::prelude::*;

verus! {

/// `s` begins with `p`.
pub open spec fn has_prefix(s: Seq<char>, p: Seq<char>) -> bool {
    p.len() <= s.len() && s.subrange(0, p.len() as int) == p
}

/// `s` ends with `p`.
pub open spec fn has_suffix(s: Seq<char>, p: Seq<char>) -> bool {
    p.len() <= s.len() && s.subrange(s.len() - p.len(), s.len() as int) == p
}

/// `p` occurs in `s` starting at index `i`.
pub open spec fn occurs_at(s: Seq<char>, p: Seq<char>, i: int) -> bool {
    0 <= i && i + p.len() <= s.len() && s.subrange(i, i + p.len()) == p
}

/// Index of the leftmost occurrence of `p` in `s` that starts at or after `from`.
pub open spec fn first_occurrence(s: Seq<char>, p: Seq<char>, from: int) -> Option<int>
    decreases s.len() + 1 - from,
{
    if from < 0 || from + p.len() > s.len() {
        None
    } else if occurs_at(s, p, from) {
        Some(from)
    } else {
        first_occurrence(s, p, from + 1)
    }
}

/// The first occurrence found from `from` on is an occurrence, and none starts earlier.
pub proof fn lemma_first_occurrence(s: Seq<char>, p: Seq<char>, from: int)
    requires
        0 <= from,
    ensures
        first_occurrence(s, p, from) matches Some(i) ==> from <= i && occurs_at(s, p, i) && (
        forall|j: int| from <= j < i ==> !occurs_at(s, p, j)),
        first_occurrence(s, p, from) is None ==> forall|j: int| from <= j ==> !occurs_at(s, p, j),
    decreases s.len() + 1 - from,
{
    if from + p.len() > s.len() {
    } else if occurs_at(s, p, from) {
    } else {
        lemma_first_occurrence(s, p, from + 1);
    }
}

/// `s` with every occurrence of `c` left out.
pub open spec fn without_char(s: Seq<char>, c: char) -> Seq<char>
    decreases s.len(),
{
    if s.len() == 0 {
        s
    } else if s.last() == c {
        without_char(s.drop_last(), c)
    } else {
        without_char(s.drop_last(), c).push(s.last())
    }
}

/// Whether `p` occurs in `s` starting at character index `i`.
pub fn matches_at(s: &str, p: &str, i: usize) -> (r: bool)
    ensures
        r == occurs_at(s@, p@, i as int),
{
    let n = s.unicode_len();
    let m = p.unicode_len();
    if i > n || m > n - i {
        return false;
    }
    let mut j: usize = 0;
    while j < m
        invariant
            n == s@.len(),
            m == p@.len(),
            i + m <= n,
            j <= m,
            forall|k: int| 0 <= k < j ==> s@[i + k] == p@[k],
        decreases m - j,
    {
        if s.get_char(i + j) != p.get_char(j) {
            assert(s@.subrange(i as int, i + m)[j as int] != p@[j as int]);
            return false;
        }
        j = j + 1;
    }
    assert(s@.subrange(i as int, i + m) =~= p@);
    true
}

/// Leftmost occurrence of `p` in `s` at or after character index `from`.
pub fn find_from(s: &str, p: &str, from: usize) -> (r: Option<usize>)
    ensures
        match r {
            Some(i) => first_occurrence(s@, p@, from as int) == Some(i as int),
            None => first_occurrence(s@, p@, from as int) is None,
        },
{
    let n = s.unicode_len();
    let m = p.unicode_len();
    if m > n || from > n - m {
        return None;
    }
    let mut i = from;
    loop
        invariant
            n == s@.len(),
            m == p@.len(),
            m <= n,
            from <= i,
            i <= n - m,
            first_occurrence(s@, p@, from as int) == first_occurrence(s@, p@, i as int),
        decreases n - m - i,
    {
        if matches_at(s, p, i) {
            return Some(i);
        }
        if i == n - m {
            assert(first_occurrence(s@, p@, i + 1) is None);
            return None;
        }
        i = i + 1;
    }
}

/// `s` with every occurrence of `c` left out.
pub fn remove_char(s: &str, c: char) -> (r: String)
    ensures
        r@ == without_char(s@, c),
{
    let n = s.unicode_len();
    let mut out = String::new();
    let mut i: usize = 0;
    while i < n
        invariant
            n == s@.len(),
            i <= n,
            out@ == without_char(s@.subrange(0, i as int), c),
        decreases n - i,
    {
        let ch = s.get_char(i);
        assert(s@.subrange(0, i + 1).drop_last() =~= s@.subrange(0, i as int));
        if ch != c {
            let piece = s.substring_char(i, i + 1);
            out.append(piece);
            assert(out@ =~= without_char(s@.subrange(0, i + 1), c));
        }
        i = i + 1;
    }
    assert(s@.subrange(0, n as int) =~= s@);
    out
}

/// Whether `s` begins with `p`.
pub fn starts_with(s: &str, p: &str) -> (r: bool)
    ensures
        r == has_prefix(s@, p@),
{
    let r = matches_at(s, p, 0);
    proof {
        if r {
            assert(has_prefix(s@, p@));
        }
        if has_prefix(s@, p@) {
            assert(occurs_at(s@, p@, 0));
        }
    }
    r
}

/// Whether `s` ends with `p`.
pub fn ends_with(s: &str, p: &str) -> (r: bool)
    ensures
        r == has_suffix(s@, p@),
{
    let n = s.unicode_len();
    let m = p.unicode_len();
    if m > n {
        return false;
    }
    matches_at(s, p, n - m)
}

/// Characters `from..to` of `s` as an owned string.
pub fn substring(s: &str, from: usize, to: usize) -> (r: String)
    requires
        from <= to <= s@.len(),
    ensures
        r@ == s@.subrange(from as int, to as int),
{
    let piece = s.substring_char(from, to);
    String::from_str(piece)
}


/// Index of the last `c` in `s`, or -1 when `s` has none.
pub open spec fn last_index_of(s: Seq<char>, c: char) -> int
    decreases s.len(),
{
    if s.len() == 0 {
        -1
    } else if s.last() == c {
        s.len() - 1
    } else {
        last_index_of(s.drop_last(), c)
    }
}

/// `last_index_of` is -1 or an index holding `c`.
pub proof fn lemma_last_index_of(s: Seq<char>, c: char)
    ensures
        -1 <= last_index_of(s, c) < s.len(),
        last_index_of(s, c) >= 0 ==> s[last_index_of(s, c)] == c,
    decreases s.len(),
{
    if s.len() > 0 && s.last() != c {
        lemma_last_index_of(s.drop_last(), c);
    }
}

/// Index of the last `c` in `s`.
pub fn last_index(s: &str, c: char) -> (r: Option<usize>)
    ensures
        match r {
            Some(i) => last_index_of(s@, c) == i as int,
            None => last_index_of(s@, c) == -1,
        },
{
    let n = s.unicode_len();
    let mut found: Option<usize> = None;
    let mut i: usize = 0;
    while i < n
        invariant
            n == s@.len(),
            i <= n,
            match found {
                Some(k) => last_index_of(s@.subrange(0, i as int), c) == k as int,
                None => last_index_of(s@.subrange(0, i as int), c) == -1,
            },
        decreases n - i,
    {
        assert(s@.subrange(0, i + 1).drop_last() =~= s@.subrange(0, i as int));
        if s.get_char(i) == c {
            found = Some(i);
        }
        i = i + 1;
    }
    assert(s@.subrange(0, n as int) =~= s@);
    found
}

/// The part of `s` before the first `sep`, or all of `s` when there is none
/// (the first piece of `s.split(sep)`).
pub open spec fn first_piece(s: Seq<char>, sep: Seq<char>) -> Seq<char> {
    match first_occurrence(s, sep, 0) {
        Some(b) => s.subrange(0, b),
        None => s,
    }
}

/// The part of `s` between the first and the second `sep`, or after the first `sep` to
/// the end when there is no second one (the second piece of `s.split(sep)`).
pub open spec fn second_piece(s: Seq<char>, sep: Seq<char>) -> Seq<char> {
    match first_occurrence(s, sep, 0) {
        Some(a) => match first_occurrence(s, sep, a + sep.len()) {
            Some(b) => s.subrange(a + sep.len(), b),
            None => s.subrange(a + sep.len(), s.len() as int),
        },
        None => Seq::empty(),
    }
}

/// The part of `s` after its last `c` (the last piece of `s.split(c)`).
pub open spec fn last_piece(s: Seq<char>, c: char) -> Seq<char> {
    s.subrange(last_index_of(s, c) + 1, s.len() as int)
}

/// The first piece of `s.split(sep)`.
pub fn split_first(s: &str, sep: &str) -> (r: String)
    ensures
        r@ == first_piece(s@, sep@),
{
    proof {
        lemma_first_occurrence(s@, sep@, 0);
    }
    match find_from(s, sep, 0) {
        Some(b) => substring(s, 0, b),
        None => {
            let n = s.unicode_len();
            let r = substring(s, 0, n);
            assert(s@.subrange(0, n as int) =~= s@);
            r
        },
    }
}

/// The second piece of `s.split(sep)`; `s` holds `sep`.
pub fn split_second(s: &str, sep: &str) -> (r: String)
    requires
        first_occurrence(s@, sep@, 0) is Some,
    ensures
        r@ == second_piece(s@, sep@),
{
    proof {
        lemma_first_occurrence(s@, sep@, 0);
    }
    let n = s.unicode_len();
    let m = sep.unicode_len();
    let a = match find_from(s, sep, 0) {
        Some(a) => a,
        None => {
            proof {
                assert(false);
            }
            0
        },
    };
    let start = a + m;
    proof {
        lemma_first_occurrence(s@, sep@, start as int);
    }
    match find_from(s, sep, start) {
        Some(b) => substring(s, start, b),
        None => substring(s, start, n),
    }
}

/// The last piece of `s.split(c)`.
pub fn split_last(s: &str, c: char) -> (r: String)
    ensures
        r@ == last_piece(s@, c),
{
    proof {
        lemma_last_index_of(s@, c);
    }
    let n = s.unicode_len();
    match last_index(s, c) {
        Some(i) => substring(s, i + 1, n),
        None => substring(s, 0, n),
    }
}

} // verus!
