//! Character-level comparisons on strings, proved against their views.

use vstd::prelude::*;
use vstd::string::StrSliceExecFns;

verus! {

/// Whether `s` holds exactly the characters of `t`.
pub fn text_eq(s: &String, t: &str) -> (r: bool)
    ensures
        r == (s@ == t@),
{
    let a = s.as_str();
    let n = a.unicode_len();
    if n != t.unicode_len() {
        return false;
    }
    let mut i: usize = 0;
    while i < n
        invariant
            n == a@.len(),
            n == t@.len(),
            a@ == s@,
            i <= n,
            forall|j: int| 0 <= j < i ==> a@[j] == t@[j],
        decreases n - i,
    {
        if a.get_char(i) != t.get_char(i) {
            return false;
        }
        i += 1;
    }
    assert(s@ =~= t@);
    true
}

/// Whether `s` begins with the characters of `p`.
pub fn starts_with(s: &String, p: &str) -> (r: bool)
    ensures
        r == p@.is_prefix_of(s@),
{
    let a = s.as_str();
    let n = p.unicode_len();
    if n > a.unicode_len() {
        return false;
    }
    let mut i: usize = 0;
    while i < n
        invariant
            n == p@.len(),
            n <= a@.len(),
            a@ == s@,
            i <= n,
            forall|j: int| 0 <= j < i ==> p@[j] == a@[j],
        decreases n - i,
    {
        if a.get_char(i) != p.get_char(i) {
            return false;
        }
        i += 1;
    }
    true
}

/// Whether `s` ends with the characters of `p`.
pub fn ends_with(s: &String, p: &str) -> (r: bool)
    ensures
        r == p@.is_suffix_of(s@),
{
    let a = s.as_str();
    let n = p.unicode_len();
    let m = a.unicode_len();
    if n > m {
        return false;
    }
    let off = m - n;
    let mut i: usize = 0;
    while i < n
        invariant
            n == p@.len(),
            m == a@.len(),
            off + n == m,
            a@ == s@,
            i <= n,
            forall|j: int| 0 <= j < i ==> p@[j] == a@[off + j],
        decreases n - i,
    {
        if a.get_char(off + i) != p.get_char(i) {
            assert(p@[i as int] != a@.subrange(off as int, m as int)[i as int]);
            return false;
        }
        i += 1;
    }
    assert(p@ =~= s@.subrange(off as int, m as int));
    true
}

} // verus!
