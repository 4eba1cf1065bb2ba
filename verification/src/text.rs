//! Character-level scanning helpers shared by the address resolver and the
//! destination-name derivation: character classes, maximal runs, and
//! fixed-marker matching, all over the character view of a string.

use vstd::prelude::*;
use vstd::string::StrSliceExecFns;

verus! {

/// A decimal digit.
pub open spec fn is_digit(c: char) -> bool {
    '0' <= c && c <= '9'
}

/// An ASCII letter.
pub open spec fn is_alpha(c: char) -> bool {
    ('a' <= c && c <= 'z') || ('A' <= c && c <= 'Z')
}

/// Length of the maximal run of digits starting at `i`.
pub open spec fn digit_run(s: Seq<char>, i: int) -> int
    decreases s.len() - i
        when i <= s.len()
{
    if i < 0 || i >= s.len() || !is_digit(s[i]) {
        0
    } else {
        1 + digit_run(s, i + 1)
    }
}

/// Length of the maximal run of ASCII letters starting at `i`.
pub open spec fn alpha_run(s: Seq<char>, i: int) -> int
    decreases s.len() - i
        when i <= s.len()
{
    if i < 0 || i >= s.len() || !is_alpha(s[i]) {
        0
    } else {
        1 + alpha_run(s, i + 1)
    }
}

/// Whether `c` is a decimal digit.
pub fn is_digit_exec(c: char) -> (b: bool)
    ensures
        b == is_digit(c),
{
    '0' <= c && c <= '9'
}

/// Whether `c` is an ASCII letter.
pub fn is_alpha_exec(c: char) -> (b: bool)
    ensures
        b == is_alpha(c),
{
    ('a' <= c && c <= 'z') || ('A' <= c && c <= 'Z')
}

/// Length of the maximal digit run of `s` starting at character `i`.
pub fn digit_run_from(s: &str, i: usize) -> (r: usize)
    requires
        i <= s@.len(),
    ensures
        r == digit_run(s@, i as int),
        i + r <= s@.len(),
    decreases s@.len() - i,
{
    if i < s.unicode_len() {
        let c = s.get_char(i);
        if is_digit_exec(c) {
            let rest = digit_run_from(s, i + 1);
            return 1 + rest;
        }
    }
    0
}

/// Length of the maximal letter run of `s` starting at character `i`.
pub fn alpha_run_from(s: &str, i: usize) -> (r: usize)
    requires
        i <= s@.len(),
    ensures
        r == alpha_run(s@, i as int),
        i + r <= s@.len(),
    decreases s@.len() - i,
{
    if i < s.unicode_len() {
        let c = s.get_char(i);
        if is_alpha_exec(c) {
            let rest = alpha_run_from(s, i + 1);
            return 1 + rest;
        }
    }
    0
}

/// Whether the characters of `s` starting at `i` begin with the marker `m`.
pub fn has_marker_at(s: &str, i: usize, m: &str) -> (b: bool)
    requires
        i + m@.len() <= s@.len(),
    ensures
        b == (s@.subrange(i as int, i as int + m@.len() as int) == m@),
{
    let n = s.unicode_len();
    let len = m.unicode_len();
    let mut k: usize = 0;
    while k < len
        invariant
            0 <= k <= len,
            len == m@.len(),
            n == s@.len(),
            i + len <= n,
            forall|j: int| 0 <= j < k ==> s@[i + j] == m@[j],
        decreases len - k,
    {
        if s.get_char(i + k) != m.get_char(k) {
            proof {
                assert(s@.subrange(i as int, i as int + m@.len() as int)[k as int] != m@[k as int]);
            }
            return false;
        }
        k = k + 1;
    }
    proof {
        assert(s@.subrange(i as int, i as int + m@.len() as int) =~= m@);
    }
    true
}

} // verus!
