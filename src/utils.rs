//! Conversion of text for C-style system interfaces.

use vstd::prelude::*;
use vstd::string::StringSliceAdditionalSpecFns;

verus! {

broadcast use vstd::string::group_string_axioms;

/// The UTF-8 bytes of `s` as C `char`s, followed by a terminating zero.
pub open spec fn lpcstr_of(s: &str) -> Seq<i8> {
    Seq::new(s.spec_bytes().len(), |i: int| #[verifier::truncate] (s.spec_bytes()[i] as i8)).push(0)
}

/// Encodes `s` as a zero-terminated C string.
pub fn encode_lpcstr(s: &str) -> (r: Vec<i8>)
    ensures
        r@ == lpcstr_of(s),
{
    let bytes = s.as_bytes();
    let mut arr: Vec<i8> = Vec::new();
    let mut i: usize = 0;
    while i < bytes.len()
        invariant
            bytes@ == s.spec_bytes(),
            i <= bytes@.len(),
            arr@.len() == i,
            forall|k: int| 0 <= k < i ==> arr@[k] == #[verifier::truncate] (bytes@[k] as i8),
        decreases bytes@.len() - i,
    {
        arr.push(#[verifier::truncate] (bytes[i] as i8));
        i = i + 1;
    }
    arr.push(0);
    assert(arr@ =~= lpcstr_of(s));
    arr
}

} // verus!
