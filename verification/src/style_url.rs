//! Style-URL acceptance.
//!
//! The bridge checks only that a style URL is non-empty and parseable
//! before handing the request to the engine: a nonempty all-letter scheme,
//! then `://`, then a nonempty remainder.  Anything beyond that shape is
//! the engine's business.

use vstd::prelude::*;
use vstd::string::StringSliceAdditionalSpecFns;

verus! {

/// A byte a URL scheme may consist of: an ASCII letter.
pub open spec fn is_scheme_byte(b: u8) -> bool {
    (97 <= b && b <= 122) || (65 <= b && b <= 90)
}

/// The byte string splits at `i` into a nonempty all-letter scheme, the
/// three bytes `://`, and a nonempty remainder.
pub open spec fn spec_url_split_at(s: Seq<u8>, i: int) -> bool {
    &&& 1 <= i
    &&& i + 4 <= s.len()
    &&& (forall|j: int| 0 <= j < i ==> is_scheme_byte(#[trigger] s[j]))
    &&& s[i] == 58u8
    &&& s[i + 1] == 47u8
    &&& s[i + 2] == 47u8
}

/// A parseable style URL: some position splits it into scheme, `://` and a
/// nonempty remainder.  The empty string in particular is not parseable.
pub open spec fn spec_valid_style_url(s: Seq<u8>) -> bool {
    exists|i: int| #[trigger] spec_url_split_at(s, i)
}

/// Exec mirror of `is_scheme_byte`.
pub fn is_scheme_byte_exec(b: u8) -> (r: bool)
    ensures
        r == is_scheme_byte(b),
{
    (97 <= b && b <= 122) || (65 <= b && b <= 90)
}

/// Checks a style URL as far as this subsystem cares: a nonempty all-letter
/// scheme, `://`, and a nonempty remainder.
pub fn is_valid_style_url(url: &str) -> (r: bool)
    ensures
        r == spec_valid_style_url(url.spec_bytes()),
{
    let s = url.as_bytes();
    let mut i: usize = 0;
    while i < s.len() && is_scheme_byte_exec(s[i])
        invariant
            i <= s@.len(),
            forall|j: int| 0 <= j < i ==> is_scheme_byte(#[trigger] s@[j]),
        decreases s@.len() - i,
    {
        i += 1;
    }
    // `i` is now the first position that cannot belong to the scheme, so it
    // is the only candidate split point.
    if i >= 1 && s.len() - i >= 4 {
        if s[i] == 58 && s[i + 1] == 47 && s[i + 2] == 47 {
            proof {
                assert(spec_url_split_at(s@, i as int));
            }
            return true;
        }
    }
    proof {
        assert forall|k: int| !spec_url_split_at(s@, k) by {
            if spec_url_split_at(s@, k) {
                assert(!is_scheme_byte(58u8));
                if k < i as int {
                    assert(is_scheme_byte(s@[k]));
                } else if k > i as int {
                    assert(is_scheme_byte(s@[i as int]));
                }
            }
        }
    }
    false
}

} // verus!
