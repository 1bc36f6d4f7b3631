//! Fixed-length filler payloads for the round-trip benchmark sender.
//!
//! The sender is configured with a payload-size selector; each
//! selector maps to a filler string of `'x'` characters of a fixed length,
//! and any unknown selector maps to the empty payload.

use vstd::prelude::*;
use vstd::string::StrSliceExecFns;
use vstd::string::StringExecFns;

verus! {

/// How many filler characters each payload-size selector stands for:
/// `"small"` is 100, `"medium"` is 1000, `"large"` is 10000, and anything
/// else (including the empty selector) is 0.
pub open spec fn payload_len(size: Seq<char>) -> nat {
    if size == "small"@ {
        100
    } else if size == "medium"@ {
        1000
    } else if size == "large"@ {
        10000
    } else {
        0
    }
}

/// The payload a selector maps to: `'x'` repeated [`payload_len`] times.
pub open spec fn payload_of(size: Seq<char>) -> Seq<char> {
    Seq::new(payload_len(size), |i: int| 'x')
}

/// Character-for-character string comparison.
pub fn str_eq(a: &str, b: &str) -> (r: bool)
    ensures
        r == (a@ == b@),
{
    let a_len = a.unicode_len();
    let b_len = b.unicode_len();
    if a_len != b_len {
        return false;
    }
    let mut i: usize = 0;
    while i < a_len
        invariant
            a_len == a@.len(),
            b_len == b@.len(),
            a_len == b_len,
            i <= a_len,
            forall|j: int| 0 <= j < i ==> a@[j] == b@[j],
        decreases a_len - i,
    {
        if a.get_char(i) != b.get_char(i) {
            return false;
        }
        i = i + 1;
    }
    proof {
        assert(a@ =~= b@);
    }
    true
}

/// The filler payload for a size selector: `"small"`, `"medium"` and
/// `"large"` map to 100, 1000 and 10000 `'x'` characters; any other
/// selector maps to the empty payload.
pub fn generate_payload(size: &str) -> (r: String)
    ensures
        r@ == payload_of(size@),
        r@.len() == payload_len(size@),
{
    let n: usize = if str_eq(size, "small") {
        100
    } else if str_eq(size, "medium") {
        1000
    } else if str_eq(size, "large") {
        10000
    } else {
        0
    };
    assert(n == payload_len(size@));
    let mut r = String::new();
    let mut i: usize = 0;
    while i < n
        invariant
            r@.len() == i,
            i <= n,
            forall|j: int| 0 <= j < i ==> r@[j] == 'x',
        decreases n - i,
    {
        proof {
            reveal_strlit("x");
        }
        r.append("x");
        i = i + 1;
    }
    proof {
        assert(r@ =~= payload_of(size@));
    }
    r
}

} // verus!
