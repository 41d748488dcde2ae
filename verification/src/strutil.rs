//! Character-level helpers on `&str` and `String`.
//!
//! Everything in the library speaks of strings through their `Seq<char>`
//! views; these helpers supply the handful of executable operations the
//! rest of the crate needs: equality, substring search, and splitting.

use vstd::prelude::*;

verus! {

/// Holds when `needle` occurs in `s` starting at index `i`.
pub open spec fn contains_at(s: Seq<char>, needle: Seq<char>, i: int) -> bool {
    &&& 0 <= i
    &&& i + needle.len() <= s.len()
    &&& s.subrange(i, i + needle.len() as int) == needle
}

/// Holds when `needle` occurs somewhere in `s`.
pub open spec fn contains_seq(s: Seq<char>, needle: Seq<char>) -> bool {
    exists|i: int| contains_at(s, needle, i)
}

/// String equality, decided character by character.
pub fn str_eq(a: &str, b: &str) -> (r: bool)
    ensures
        r == (a@ == b@),
{
    let n = a.unicode_len();
    if n != b.unicode_len() {
        return false;
    }
    for i in 0..n
        invariant
            n == a@.len(),
            n == b@.len(),
            forall|j: int| 0 <= j < i ==> a@[j] == b@[j],
    {
        if a.get_char(i) != b.get_char(i) {
            return false;
        }
    }
    proof {
        assert(a@ =~= b@);
    }
    true
}

/// Whether `needle` occurs at position `i` of `s`; helper for `contains`.
fn matches_at(s: &str, needle: &str, i: usize) -> (r: bool)
    requires
        i + needle@.len() <= s@.len(),
        s@.len() <= usize::MAX,
    ensures
        r == contains_at(s@, needle@, i as int),
{
    let m = needle.unicode_len();
    for j in 0..m
        invariant
            m == needle@.len(),
            i + m <= s@.len(),
            s@.len() <= usize::MAX,
            forall|k: int| 0 <= k < j ==> s@[i + k] == needle@[k],
    {
        if s.get_char(i + j) != needle.get_char(j) {
            proof {
                assert(s@.subrange(i as int, i + needle@.len() as int)[j as int] == s@[i + j]);
            }
            return false;
        }
    }
    proof {
        assert(s@.subrange(i as int, i + needle@.len() as int) =~= needle@);
    }
    true
}

/// Substring search: whether `needle` occurs anywhere in `s`.
pub fn contains(s: &str, needle: &str) -> (r: bool)
    ensures
        r == contains_seq(s@, needle@),
{
    let n = s.unicode_len();
    let m = needle.unicode_len();
    if m > n {
        return false;
    }
    if m == 0 {
        proof {
            assert(contains_at(s@, needle@, 0)) by {
                assert(s@.subrange(0, 0) =~= needle@);
            }
        }
        return true;
    }
    let last = n - m;
    for i in 0..last + 1
        invariant
            n == s@.len(),
            m == needle@.len(),
            m <= n,
            last == n - m,
            forall|k: int| 0 <= k < i ==> !contains_at(s@, needle@, k),
    {
        if matches_at(s, needle, i) {
            return true;
        }
    }
    false
}

/// Index of the first occurrence of `c` in `s`, or a negative value if
/// there is none.
pub open spec fn first_index(s: Seq<char>, c: char) -> int
    decreases s.len(),
{
    if s.len() == 0 {
        -1
    } else if s.first() == c {
        0
    } else if first_index(s.drop_first(), c) < 0 {
        -1
    } else {
        1 + first_index(s.drop_first(), c)
    }
}

/// `first_index` is exactly the position of the first occurrence.
pub proof fn lemma_first_index(s: Seq<char>, c: char)
    ensures
        first_index(s, c) < 0 ==> forall|j: int| 0 <= j < s.len() ==> s[j] != c,
        first_index(s, c) >= 0 ==> {
            &&& first_index(s, c) < s.len()
            &&& s[first_index(s, c)] == c
            &&& forall|j: int| 0 <= j < first_index(s, c) ==> s[j] != c
        },
    decreases s.len(),
{
    if s.len() > 0 {
        lemma_first_index(s.drop_first(), c);
        if s.first() != c {
            assert forall|j: int| 0 <= j < s.len() && s[j] == c implies j >= 1
                && s.drop_first()[j - 1] == c by {}
        }
    }
}

/// First index of character `c` in `s`, if any.
pub fn find_char(s: &str, c: char) -> (r: Option<usize>)
    ensures
        match r {
            Some(i) => {
                &&& i < s@.len()
                &&& s@[i as int] == c
                &&& forall|j: int| 0 <= j < i ==> s@[j] != c
            },
            None => forall|j: int| 0 <= j < s@.len() ==> s@[j] != c,
        },
{
    let n = s.unicode_len();
    for i in 0..n
        invariant
            n == s@.len(),
            forall|j: int| 0 <= j < i ==> s@[j] != c,
    {
        if s.get_char(i) == c {
            return Some(i);
        }
    }
    None
}

/// Copies a `&str` into an owned `String`.
pub fn to_owned_string(s: &str) -> (r: String)
    ensures
        r@ == s@,
{
    String::from_str(s)
}

/// Appends `tail` to `base`, returning the concatenation.
pub fn concat_str(base: String, tail: &str) -> (r: String)
    ensures
        r@ == base@ + tail@,
{
    base.concat(tail)
}

} // verus!
