//! Case-insensitive substring matching over strings.
//!
//! The detectors flag a device, a process or a CPU vendor when a descriptive
//! string contains a keyword regardless of letter case. Case folding here is
//! ASCII: an upper-case ASCII letter compares equal to its lower-case form,
//! every other character only to itself. All keywords the detectors use are
//! ASCII.

use vstd::prelude::*;

verus! {

/// Code point of a character after ASCII case folding.
pub open spec fn lower_code(c: char) -> u32 {
    if 65 <= c as u32 && c as u32 <= 90 {
        (c as u32 + 32) as u32
    } else {
        c as u32
    }
}

/// Two characters are equal up to ASCII case.
pub open spec fn char_eq_ci(a: char, b: char) -> bool {
    lower_code(a) == lower_code(b)
}

/// `needle` occurs in `hay` at offset `i`, comparing characters up to ASCII case.
pub open spec fn matches_ci_at(hay: Seq<char>, needle: Seq<char>, i: int) -> bool {
    0 <= i && i + needle.len() <= hay.len() && forall|j: int|
        0 <= j < needle.len() ==> char_eq_ci(hay[i + j], needle[j])
}

/// `needle` occurs somewhere in `hay`, comparing characters up to ASCII case.
pub open spec fn contains_ci(hay: Seq<char>, needle: Seq<char>) -> bool {
    exists|i: int| matches_ci_at(hay, needle, i)
}

/// Decide `char_eq_ci` on two characters.
pub fn char_eq_ci_exec(a: char, b: char) -> (r: bool)
    ensures
        r == char_eq_ci(a, b),
{
    let ca: u32 = a as u32;
    let cb: u32 = b as u32;
    let la: u32 = if 65 <= ca && ca <= 90 {
        ca + 32
    } else {
        ca
    };
    let lb: u32 = if 65 <= cb && cb <= 90 {
        cb + 32
    } else {
        cb
    };
    la == lb
}

/// Decide `matches_ci_at` at a given offset.
fn str_matches_ci_at(hay: &str, needle: &str, i: usize) -> (r: bool)
    requires
        i + needle@.len() <= hay@.len(),
    ensures
        r == matches_ci_at(hay@, needle@, i as int),
{
    let hlen: usize = hay.unicode_len();
    let nlen: usize = needle.unicode_len();
    let mut j: usize = 0;
    while j < nlen
        invariant
            hlen == hay@.len(),
            nlen == needle@.len(),
            i + nlen <= hlen,
            j <= nlen,
            forall|t: int| 0 <= t < j ==> char_eq_ci(hay@[i + t], needle@[t]),
        decreases nlen - j,
    {
        let hc = hay.get_char(i + j);
        let nc = needle.get_char(j);
        if !char_eq_ci_exec(hc, nc) {
            assert(!char_eq_ci(hay@[i + j], needle@[j as int]));
            return false;
        }
        j = j + 1;
    }
    true
}

/// Decide `contains_ci`: does `hay` contain `needle` up to ASCII case?
pub fn str_contains_ci(hay: &str, needle: &str) -> (r: bool)
    ensures
        r == contains_ci(hay@, needle@),
{
    let hlen: usize = hay.unicode_len();
    let nlen: usize = needle.unicode_len();
    if nlen > hlen {
        assert(forall|i: int| !matches_ci_at(hay@, needle@, i));
        return false;
    }
    let last: usize = hlen - nlen;
    let mut i: usize = 0;
    while i <= last
        invariant
            hlen == hay@.len(),
            nlen == needle@.len(),
            nlen <= hlen,
            last == hlen - nlen,
            i <= last + 1,
            forall|k: int| 0 <= k < i ==> !matches_ci_at(hay@, needle@, k),
        decreases last + 1 - i,
    {
        if str_matches_ci_at(hay, needle, i) {
            assert(contains_ci(hay@, needle@));
            return true;
        }
        i = i + 1;
    }
    assert(forall|k: int| matches_ci_at(hay@, needle@, k) ==> 0 <= k <= last);
    false
}

/// `needle` occurs in `hay` at offset `i`, character for character.
pub open spec fn matches_at(hay: Seq<char>, needle: Seq<char>, i: int) -> bool {
    0 <= i && i + needle.len() <= hay.len() && forall|j: int|
        0 <= j < needle.len() ==> hay[i + j] == needle[j]
}

/// `needle` occurs somewhere in `hay`, character for character.
pub open spec fn contains_seq(hay: Seq<char>, needle: Seq<char>) -> bool {
    exists|i: int| matches_at(hay, needle, i)
}

/// Decide `matches_at` at a given offset.
pub fn str_matches_at(hay: &str, needle: &str, i: usize) -> (r: bool)
    requires
        i + needle@.len() <= hay@.len(),
    ensures
        r == matches_at(hay@, needle@, i as int),
{
    let hlen: usize = hay.unicode_len();
    let nlen: usize = needle.unicode_len();
    let mut j: usize = 0;
    while j < nlen
        invariant
            hlen == hay@.len(),
            nlen == needle@.len(),
            i + nlen <= hlen,
            j <= nlen,
            forall|t: int| 0 <= t < j ==> hay@[i + t] == needle@[t],
        decreases nlen - j,
    {
        let hc = hay.get_char(i + j);
        let nc = needle.get_char(j);
        if hc != nc {
            assert(hay@[i + j] != needle@[j as int]);
            return false;
        }
        j = j + 1;
    }
    true
}

/// Decide `contains_seq`: does `hay` contain `needle` character for
/// character?
pub fn str_contains(hay: &str, needle: &str) -> (r: bool)
    ensures
        r == contains_seq(hay@, needle@),
{
    let hlen: usize = hay.unicode_len();
    let nlen: usize = needle.unicode_len();
    if nlen > hlen {
        assert(forall|i: int| !matches_at(hay@, needle@, i));
        return false;
    }
    let last: usize = hlen - nlen;
    let mut i: usize = 0;
    while i <= last
        invariant
            hlen == hay@.len(),
            nlen == needle@.len(),
            nlen <= hlen,
            last == hlen - nlen,
            i <= last + 1,
            forall|k: int| 0 <= k < i ==> !matches_at(hay@, needle@, k),
        decreases last + 1 - i,
    {
        if str_matches_at(hay, needle, i) {
            assert(contains_seq(hay@, needle@));
            return true;
        }
        i = i + 1;
    }
    assert(forall|k: int| matches_at(hay@, needle@, k) ==> 0 <= k <= last);
    false
}

} // verus!
