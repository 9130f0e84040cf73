//! Verified string helpers over the character view of `str` and `String`.

use vstd::prelude::*;
use vstd::string::StrSliceExecFns;
use vstd::string::StringExecFns;

verus! {

/// The value of `s` with `suffix` removed once from its end, when `s` ends with it.
pub open spec fn spec_strip_suffix(s: Seq<char>, suffix: Seq<char>) -> Option<Seq<char>> {
    if suffix.len() <= s.len() && s.subrange(s.len() - suffix.len(), s.len() as int) == suffix {
        Some(s.subrange(0, s.len() - suffix.len()))
    } else {
        None
    }
}

/// Compares two string slices character by character.
pub fn str_equals(a: &str, b: &str) -> (r: bool)
    ensures
        r == (a@ == b@),
{
    let n = a.unicode_len();
    if n != b.unicode_len() {
        return false;
    }
    let mut i: usize = 0;
    while i < n
        invariant
            n == a@.len(),
            n == b@.len(),
            i <= n,
            forall|j: int| 0 <= j < i ==> a@[j] == b@[j],
        decreases n - i,
    {
        if a.get_char(i) != b.get_char(i) {
            return false;
        }
        i = i + 1;
    }
    assert(a@ =~= b@);
    true
}

/// Removes `suffix` once from the end of `s`; `None` when `s` does not end with it.
pub fn strip_suffix<'a>(s: &'a str, suffix: &str) -> (r: Option<&'a str>)
    ensures
        match r {
            Some(p) => spec_strip_suffix(s@, suffix@) == Some(p@),
            None => spec_strip_suffix(s@, suffix@) is None,
        },
{
    let n = s.unicode_len();
    let m = suffix.unicode_len();
    if m > n {
        return None;
    }
    let start = n - m;
    let mut i: usize = 0;
    while i < m
        invariant
            n == s@.len(),
            m == suffix@.len(),
            start == n - m,
            i <= m,
            forall|j: int| 0 <= j < i ==> s@[start + j] == suffix@[j],
        decreases m - i,
    {
        if s.get_char(start + i) != suffix.get_char(i) {
            assert(s@.subrange(start as int, n as int)[i as int] != suffix@[i as int]);
            return None;
        }
        i = i + 1;
    }
    assert(s@.subrange(start as int, n as int) =~= suffix@);
    Some(s.substring_char(0, start))
}

/// Concatenates two string slices into a new `String`.
pub fn concat_str(a: &str, b: &str) -> (r: String)
    ensures
        r@ == a@ + b@,
{
    let s = String::from_str(a);
    s.concat(b)
}

/// Taking a suffix off leaves the part that, followed by the suffix, is the whole string.
pub proof fn lemma_strip_suffix_restores(s: Seq<char>, suffix: Seq<char>)
    requires
        spec_strip_suffix(s, suffix) is Some,
    ensures
        spec_strip_suffix(s, suffix)->0 + suffix == s,
{
    let k = s.len() - suffix.len();
    assert(s.subrange(0, k) + s.subrange(k, s.len() as int) =~= s);
}

/// A suffix appended to a string is taken off again, and nothing more.
pub proof fn lemma_strip_appended_suffix(p: Seq<char>, suffix: Seq<char>)
    ensures
        spec_strip_suffix(p + suffix, suffix) == Some(p),
{
    let s = p + suffix;
    assert(s.subrange(p.len() as int, s.len() as int) =~= suffix);
    assert(s.subrange(0, p.len() as int) =~= p);
}

} // verus!
