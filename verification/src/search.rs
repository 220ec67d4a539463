//! First-occurrence text searching over `&str`, shared by the time
//! parser and the page scraper: find a character, find a substring, and
//! find the last character before a position.

use vstd::prelude::*;

verus! {

/// The position of the first `c` in `s` at or after `from`, if any.
pub open spec fn find_char_spec(s: Seq<char>, c: char, from: int) -> Option<int>
    decreases s.len() - from when 0 <= from <= s.len()
{
    if from >= s.len() {
        None
    } else if s[from] == c {
        Some(from)
    } else {
        find_char_spec(s, c, from + 1)
    }
}

/// `pat` occurs in `h` at position `i`.
pub open spec fn occurs_at(h: Seq<char>, pat: Seq<char>, i: int) -> bool {
    0 <= i && i + pat.len() <= h.len() && h.subrange(i, i + pat.len()) =~= pat
}

/// The first position at or after `from` where `pat` occurs in `h`.
pub open spec fn find_sub_spec(h: Seq<char>, pat: Seq<char>, from: int) -> Option<int>
    decreases h.len() - from when 0 <= from <= h.len()
{
    if from + pat.len() > h.len() {
        None
    } else if occurs_at(h, pat, from) {
        Some(from)
    } else {
        find_sub_spec(h, pat, from + 1)
    }
}

/// The last position strictly before `end` where `c` stands in `h`.
pub open spec fn rfind_char_spec(h: Seq<char>, c: char, end: int) -> Option<int>
    decreases end when 0 <= end <= h.len()
{
    if end <= 0 {
        None
    } else if h[end - 1] == c {
        Some(end - 1)
    } else {
        rfind_char_spec(h, c, end - 1)
    }
}

/// The position of the first `c` in `s` at or after `from`.
pub(crate) fn find_char_at(s: &str, c: char, from: usize) -> (position: Option<usize>)
    requires
        from <= s@.len(),
    ensures
        s@.len() <= usize::MAX,
        match position {
            Option::Some(p) => find_char_spec(s@, c, from as int) == Option::Some(p as int)
                && from <= p < s@.len(),
            Option::None => find_char_spec(s@, c, from as int) is None,
        },
{
    let n = s.unicode_len();
    let mut i = from;
    while i < n
        invariant
            from <= i <= n,
            n == s@.len(),
            find_char_spec(s@, c, from as int) == find_char_spec(s@, c, i as int),
        decreases n - i,
    {
        if s.get_char(i) == c {
            return Some(i);
        }
        i = i + 1;
    }
    None
}

/// Whether `pat` occurs in `h` at position `i`.
fn matches_at(h: &str, pat: &str, i: usize) -> (found: bool)
    requires
        i + pat@.len() <= h@.len() <= usize::MAX,
    ensures
        found == occurs_at(h@, pat@, i as int),
{
    let m = pat.unicode_len();
    let mut j: usize = 0;
    while j < m
        invariant
            m == pat@.len(),
            i + m <= h@.len() <= usize::MAX,
            j <= m,
            forall|k: int| 0 <= k < j ==> h@[i + k] == pat@[k],
        decreases m - j,
    {
        if h.get_char(i + j) != pat.get_char(j) {
            proof {
                assert(h@.subrange(i as int, i + m) != pat@) by {
                    assert(h@.subrange(i as int, i + m)[j as int] == h@[i + j]);
                }
            }
            return false;
        }
        j = j + 1;
    }
    proof {
        assert(h@.subrange(i as int, i + m) =~= pat@);
    }
    true
}

/// Past the point where `pat` still fits, the search finds nothing.
proof fn lemma_find_sub_none_when_short(h: Seq<char>, pat: Seq<char>, from: int)
    requires
        0 <= from <= h.len(),
        from + pat.len() > h.len(),
    ensures
        find_sub_spec(h, pat, from) is None,
{
}

/// The first position at or after `from` where `pat` occurs in `h`.
pub(crate) fn find_sub(h: &str, pat: &str, from: usize) -> (position: Option<usize>)
    requires
        from <= h@.len(),
    ensures
        h@.len() <= usize::MAX,
        match position {
            Option::Some(p) => {
                &&& find_sub_spec(h@, pat@, from as int) == Option::Some(p as int)
                &&& from <= p
                &&& p + pat@.len() <= h@.len()
                &&& occurs_at(h@, pat@, p as int)
            },
            Option::None => find_sub_spec(h@, pat@, from as int) is None,
        },
{
    let n = h.unicode_len();
    let m = pat.unicode_len();
    if m > n - from {
        proof {
            lemma_find_sub_none_when_short(h@, pat@, from as int);
        }
        return None;
    }
    if m == 0 {
        proof {
            assert(h@.subrange(from as int, from as int) =~= pat@);
        }
        return Some(from);
    }
    let bound = n - m;
    let mut i = from;
    while i <= bound
        invariant
            n == h@.len(),
            m == pat@.len(),
            1 <= m <= n,
            bound == n - m,
            from <= i <= bound + 1,
            find_sub_spec(h@, pat@, from as int) == find_sub_spec(h@, pat@, i as int),
        decreases n - i,
    {
        if matches_at(h, pat, i) {
            return Some(i);
        }
        i = i + 1;
    }
    None
}

/// The last position strictly before `end` where `c` stands in `h`.
pub(crate) fn rfind_char(h: &str, c: char, end: usize) -> (position: Option<usize>)
    requires
        end <= h@.len(),
    ensures
        match position {
            Option::Some(p) => rfind_char_spec(h@, c, end as int) == Option::Some(p as int) && p
                < end,
            Option::None => rfind_char_spec(h@, c, end as int) is None,
        },
{
    let mut e = end;
    while e > 0
        invariant
            e <= end <= h@.len(),
            rfind_char_spec(h@, c, end as int) == rfind_char_spec(h@, c, e as int),
        decreases e,
    {
        if h.get_char(e - 1) == c {
            return Some(e - 1);
        }
        e = e - 1;
    }
    None
}

} // verus!
