//! Verified scanning over strings: equality, substring search from a
//! position, and single-character search, each pinned to a recursive
//! specification.

use vstd::prelude::*;
use vstd::string::StrSliceExecFns;

verus! {

/// Compares two strings character by character.
pub fn str_eq(a: &str, b: &str) -> (r: bool)
    ensures
        r == (a@ == b@),
{
    let a_len = a.unicode_len();
    let b_len = b.unicode_len();
    if a_len != b_len {
        proof {
            assert(a@ != b@) by {
                if a@ == b@ {
                    assert(a@.len() == b@.len());
                }
            }
        }
        return false;
    }
    let mut i: usize = 0;
    while i < a_len
        invariant
            i <= a_len,
            a_len == a@.len(),
            b_len == b@.len(),
            a_len == b_len,
            forall|j: int| 0 <= j < i ==> a@[j] == b@[j],
        decreases a_len - i,
    {
        if a.get_char(i) != b.get_char(i) {
            proof {
                assert(a@ != b@) by {
                    if a@ == b@ {
                        assert(a@[i as int] == b@[i as int]);
                    }
                }
            }
            return false;
        }
        i += 1;
    }
    proof {
        assert(a@ =~= b@);
    }
    true
}

/// The first position at or after `from` holding the character `c`.
pub open spec fn find_char_at(s: Seq<char>, from: int, c: char) -> Option<int>
    decreases s.len() - from,
{
    if from < 0 || from >= s.len() {
        None
    } else if s[from] == c {
        Some(from)
    } else {
        find_char_at(s, from + 1, c)
    }
}

/// Whatever `find_char_at` returns lies in range and holds `c`.
pub proof fn lemma_find_char_at_bounds(s: Seq<char>, from: int, c: char)
    ensures
        match find_char_at(s, from, c) {
            None => true,
            Some(i) => from <= i < s.len() && s[i] == c,
        },
    decreases s.len() - from,
{
    if 0 <= from < s.len() && s[from] != c {
        lemma_find_char_at_bounds(s, from + 1, c);
    }
}

/// Scans forward from `from` for the character `c`.
pub fn find_char(s: &str, from: usize, c: char) -> (r: Option<usize>)
    requires
        from <= s@.len(),
    ensures
        match find_char_at(s@, from as int, c) {
            None => r is None,
            Some(i) => r == Some(i as usize),
        },
{
    let len = s.unicode_len();
    let mut i: usize = from;
    while i < len
        invariant
            from <= i <= len,
            len == s@.len(),
            find_char_at(s@, from as int, c) == find_char_at(s@, i as int, c),
        decreases len - i,
    {
        if s.get_char(i) == c {
            return Some(i);
        }
        i += 1;
    }
    None
}

/// Whether `pat` occurs in `s` starting exactly at position `at`.
pub open spec fn occurs_at(s: Seq<char>, at: int, pat: Seq<char>) -> bool {
    0 <= at && at + pat.len() <= s.len() && s.subrange(at, at + pat.len()) == pat
}

/// Tests whether `pat` occurs in `s` at position `at`.
pub fn contains_at(s: &str, at: usize, pat: &str) -> (r: bool)
    requires
        at <= s@.len(),
    ensures
        r == occurs_at(s@, at as int, pat@),
{
    let s_len = s.unicode_len();
    let pat_len = pat.unicode_len();
    if pat_len > s_len - at {
        return false;
    }
    let mut i: usize = 0;
    while i < pat_len
        invariant
            i <= pat_len,
            s_len == s@.len(),
            pat_len == pat@.len(),
            at + pat_len <= s_len,
            forall|j: int| 0 <= j < i ==> s@[at + j] == pat@[j],
        decreases pat_len - i,
    {
        if s.get_char(at + i) != pat.get_char(i) {
            proof {
                assert(!occurs_at(s@, at as int, pat@)) by {
                    if occurs_at(s@, at as int, pat@) {
                        assert(s@.subrange(at as int, at + pat@.len())[i as int] == pat@[i as int]);
                    }
                }
            }
            return false;
        }
        i += 1;
    }
    proof {
        assert(s@.subrange(at as int, at + pat@.len()) =~= pat@);
    }
    true
}

/// The first position at or after `from` where `pat` occurs in `s`.
pub open spec fn find_sub_at(s: Seq<char>, from: int, pat: Seq<char>) -> Option<int>
    decreases s.len() - from + 1,
{
    if from < 0 || from + pat.len() > s.len() {
        None
    } else if occurs_at(s, from, pat) {
        Some(from)
    } else {
        find_sub_at(s, from + 1, pat)
    }
}

/// Whatever `find_sub_at` returns is a real occurrence.
pub proof fn lemma_find_sub_at_bounds(s: Seq<char>, from: int, pat: Seq<char>)
    ensures
        match find_sub_at(s, from, pat) {
            None => true,
            Some(i) => from <= i && i + pat.len() <= s.len() && occurs_at(s, i, pat),
        },
    decreases s.len() - from + 1,
{
    if 0 <= from && from + pat.len() <= s.len() && !occurs_at(s, from, pat) {
        lemma_find_sub_at_bounds(s, from + 1, pat);
    }
}

/// Scans forward from `from` for the first occurrence of `pat`.
pub fn find_sub(s: &str, from: usize, pat: &str) -> (r: Option<usize>)
    requires
        from <= s@.len(),
    ensures
        match find_sub_at(s@, from as int, pat@) {
            None => r is None,
            Some(i) => r == Some(i as usize),
        },
{
    let s_len = s.unicode_len();
    let pat_len = pat.unicode_len();
    if pat_len > s_len - from {
        return None;
    }
    let limit = s_len - pat_len;
    let mut i: usize = from;
    loop
        invariant
            from <= i <= limit,
            limit == s_len - pat_len,
            from <= s_len,
            s_len == s@.len(),
            pat_len == pat@.len(),
            find_sub_at(s@, from as int, pat@) == find_sub_at(s@, i as int, pat@),
        decreases limit - i,
    {
        if contains_at(s, i, pat) {
            return Some(i);
        }
        proof {
            assert(find_sub_at(s@, i as int, pat@) == find_sub_at(s@, i + 1, pat@));
        }
        if i == limit {
            proof {
                assert(find_sub_at(s@, i + 1, pat@) is None);
            }
            return None;
        }
        i += 1;
    }
}

} // verus!
