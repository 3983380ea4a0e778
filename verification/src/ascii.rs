//! ASCII case-insensitive substring search over bytes.

use vstd::prelude::*;

verus! {

/// The byte with an ASCII upper-case letter turned into its lower-case form;
/// every other byte is left as it is.
pub open spec fn lower_byte(b: u8) -> u8 {
    if 65 <= b <= 90 {
        (b + 32) as u8
    } else {
        b
    }
}

/// Every byte of `s` taken through `lower_byte`.
pub open spec fn lower_bytes(s: Seq<u8>) -> Seq<u8> {
    s.map_values(|b: u8| lower_byte(b))
}

/// `needle` stands in `hay` at offset `i`.
pub open spec fn occurs_at(hay: Seq<u8>, needle: Seq<u8>, i: int) -> bool {
    &&& 0 <= i
    &&& i + needle.len() <= hay.len()
    &&& hay.subrange(i, i + needle.len()) == needle
}

/// `needle` occurs in `hay` once ASCII letters on both sides are folded to
/// lower case.
pub open spec fn contains_ignoring_ascii_case(hay: Seq<u8>, needle: Seq<u8>) -> bool {
    exists|i: int| occurs_at(lower_bytes(hay), lower_bytes(needle), i)
}

/// Folds an ASCII upper-case letter to lower case.
pub fn to_ascii_lower(b: u8) -> (r: u8)
    ensures
        r == lower_byte(b),
        65 <= b <= 90 ==> r == b + 32,
        !(65 <= b <= 90) ==> r == b,
{
    if b >= 65 && b <= 90 {
        b + 32
    } else {
        b
    }
}

/// Whether `needle` stands at offset `i` of `hay`, ASCII case aside.
pub fn matches_at_ignoring_ascii_case(hay: &[u8], needle: &[u8], i: usize) -> (r: bool)
    requires
        i + needle@.len() <= hay@.len(),
    ensures
        r == occurs_at(lower_bytes(hay@), lower_bytes(needle@), i as int),
{
    let n = needle.len();
    let ghost lh = lower_bytes(hay@);
    let ghost ln = lower_bytes(needle@);
    let mut j: usize = 0;
    while j < n
        invariant
            n == needle@.len(),
            i + n <= hay@.len(),
            hay@.len() == hay.len(),
            j <= n,
            lh == lower_bytes(hay@),
            ln == lower_bytes(needle@),
            forall|k: int| 0 <= k < j ==> lh[i + k] == ln[k],
        decreases n - j,
    {
        if to_ascii_lower(hay[i + j]) != to_ascii_lower(needle[j]) {
            assert(lh.subrange(i as int, i + n)[j as int] != ln[j as int]);
            return false;
        }
        j = j + 1;
    }
    assert(lh.subrange(i as int, i + n) =~= ln);
    true
}

/// Whether `needle` occurs anywhere in `hay`, ASCII case aside. An empty
/// `needle` occurs in every `hay`.
pub fn contains_ignore_ascii_case(hay: &[u8], needle: &[u8]) -> (r: bool)
    ensures
        r == contains_ignoring_ascii_case(hay@, needle@),
{
    let ghost lh = lower_bytes(hay@);
    let ghost ln = lower_bytes(needle@);
    if needle.len() > hay.len() {
        assert forall|i: int| !occurs_at(lh, ln, i) by {}
        return false;
    }
    let last = hay.len() - needle.len();
    let mut i: usize = 0;
    loop
        invariant
            i <= last,
            last + needle@.len() == hay@.len(),
            lh == lower_bytes(hay@),
            ln == lower_bytes(needle@),
            forall|k: int| 0 <= k < i ==> !occurs_at(lh, ln, k),
        decreases last - i,
    {
        if matches_at_ignoring_ascii_case(hay, needle, i) {
            return true;
        }
        if i == last {
            assert forall|k: int| !occurs_at(lh, ln, k) by {
                if 0 <= k < i {
                }
            }
            return false;
        }
        i = i + 1;
    }
}

} // verus!
