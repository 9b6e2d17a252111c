//! End-of-game outcome detection.
//!
//! The end-of-game text payload is expected to hold the winning player's
//! identifier. The local player has won exactly when their identifier,
//! written as a decimal string, occurs as a substring of the payload. The
//! substring policy is deliberately loose — a numeric identifier that is a
//! prefix or suffix of another can collide — and is preserved here as the
//! protocol's documented behaviour rather than silently tightened.

use vstd::prelude::*;
use vstd::string::StringSliceAdditionalSpecFns;

verus! {

/// The ASCII decimal digits of `n`, most significant first.
pub open spec fn spec_decimal_digits(n: nat) -> Seq<u8>
    decreases n,
{
    if n < 10 {
        seq![(0x30 + n) as u8]
    } else {
        spec_decimal_digits(n / 10).push((0x30 + n % 10) as u8)
    }
}

/// Render an identifier as its ASCII decimal digits.
pub fn decimal_digits(n: u64) -> (r: Vec<u8>)
    ensures
        r@ == spec_decimal_digits(n as nat),
    decreases n,
{
    if n < 10 {
        let mut v: Vec<u8> = Vec::new();
        v.push(0x30 + (n as u8));
        proof {
            assert(v@ =~= spec_decimal_digits(n as nat));
        }
        v
    } else {
        let mut v = decimal_digits(n / 10);
        v.push(0x30 + ((n % 10) as u8));
        proof {
            assert(v@ =~= spec_decimal_digits(n as nat));
        }
        v
    }
}

/// `needle` occurs in `hay` starting at position `i`.
pub open spec fn contains_needle_at(hay: Seq<u8>, needle: Seq<u8>, i: int) -> bool {
    &&& 0 <= i
    &&& i + needle.len() <= hay.len()
    &&& hay.subrange(i, i + needle.len() as int) == needle
}

/// `needle` occurs somewhere in `hay`.
pub open spec fn has_substring(hay: Seq<u8>, needle: Seq<u8>) -> bool {
    exists|i: int| contains_needle_at(hay, needle, i)
}

/// Search `hay` for `needle` as a contiguous byte substring.
pub fn find_substring(hay: &[u8], needle: &[u8]) -> (r: bool)
    ensures
        r == has_substring(hay@, needle@),
{
    let h = hay.len();
    let n = needle.len();
    if n > h {
        return false;
    }
    if n == 0 {
        proof {
            assert(hay@.subrange(0, 0) =~= needle@);
            assert(contains_needle_at(hay@, needle@, 0));
        }
        return true;
    }
    let mut i: usize = 0;
    while i <= h - n
        invariant
            1 <= n <= h,
            h == hay@.len(),
            n == needle@.len(),
            i <= h - n + 1,
            forall|k: int| 0 <= k < i ==> !contains_needle_at(hay@, needle@, k),
        decreases h - n - i + 1,
    {
        let mut j: usize = 0;
        let mut mismatch = false;
        while j < n && !mismatch
            invariant
                n <= h,
                h == hay@.len(),
                n == needle@.len(),
                i <= h - n,
                j <= n,
                !mismatch ==> forall|t: int| 0 <= t < j ==> hay@[i + t] == needle@[t],
                mismatch ==> !contains_needle_at(hay@, needle@, i as int),
            decreases n - j + (if mismatch { 0int } else { 1int }),
        {
            if *vstd::slice::slice_index_get(hay, i + j) != *vstd::slice::slice_index_get(
                needle,
                j,
            ) {
                proof {
                    let w = hay@.subrange(i as int, i + n as int);
                    assert(w.len() == n);
                    assert(w[j as int] == hay@[i + j]);
                }
                mismatch = true;
            } else {
                j = j + 1;
            }
        }
        if !mismatch {
            proof {
                assert(hay@.subrange(i as int, i + n as int) =~= needle@);
                assert(contains_needle_at(hay@, needle@, i as int));
            }
            return true;
        }
        i = i + 1;
    }
    proof {
        assert forall|k: int| !contains_needle_at(hay@, needle@, k) by {
            if 0 <= k < i {
            } else {
            }
        }
    }
    false
}

/// Decide whether the local player won, from the end-of-game text payload.
///
/// True exactly when the local player's identifier, as a decimal string,
/// is a substring of the payload. The match is byte-wise on the payload's
/// UTF-8 form; the digits themselves are plain ASCII.
pub fn determine_outcome(text: &str, local_player_id: u64) -> (r: bool)
    ensures
        r == has_substring(text.spec_bytes(), spec_decimal_digits(local_player_id as nat)),
{
    let digits = decimal_digits(local_player_id);
    find_substring(text.as_bytes(), digits.as_slice())
}

} // verus!
