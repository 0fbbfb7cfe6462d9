//! Comparing texts.

use vstd::prelude::*;
use vstd::string::StringSliceAdditionalSpecFns;
use vstd::utf8::encode_utf8_decode_utf8;

verus! {

/// Whether two texts hold the same characters.
pub fn text_eq(a: &str, b: &str) -> (same: bool)
    ensures
        same == (a@ == b@),
{
    let left = a.as_bytes();
    let right = b.as_bytes();
    proof {
        // A text is what its encoding decodes to, so equal encodings are equal texts.
        encode_utf8_decode_utf8(a@);
        encode_utf8_decode_utf8(b@);
    }
    if left.len() != right.len() {
        return false;
    }
    let mut at: usize = 0;
    while at < left.len()
        invariant
            at <= left.len(),
            left.len() == right.len(),
            left@ == a.spec_bytes(),
            right@ == b.spec_bytes(),
            forall|i: int| 0 <= i < at ==> left@[i] == right@[i],
        decreases left.len() - at,
    {
        if left[at] != right[at] {
            return false;
        }
        at += 1;
    }
    assert(left@ =~= right@);
    true
}

} // verus!
