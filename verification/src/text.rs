//! Comparing names: stream names, device names and the word `default`.

use vstd::prelude::*;

verus! {

/// The reserved device name that selects whatever device the platform
/// currently prefers.
pub const DEFAULT_DEVICE: &'static str = "default";

/// Whether two byte strings are equal.
pub fn bytes_eq(a: &[u8], b: &[u8]) -> (same: bool)
    ensures
        same == (a@ == b@),
{
    if a.len() != b.len() {
        return false;
    }
    let mut i: usize = 0;
    while i < a.len()
        invariant
            i <= a@.len() == b@.len(),
            forall|k: int| 0 <= k < i ==> a@[k] == b@[k],
        decreases a@.len() - i,
    {
        if a[i] != b[i] {
            return false;
        }
        i = i + 1;
    }
    assert(a@ =~= b@);
    true
}

/// Whether two texts are equal.
pub fn text_eq(a: &str, b: &str) -> (same: bool)
    ensures
        same == (a@ == b@),
{
    proof {
        vstd::utf8::encode_utf8_decode_utf8(a@);
        vstd::utf8::encode_utf8_decode_utf8(b@);
    }
    bytes_eq(a.as_bytes(), b.as_bytes())
}

/// Whether `name` is the reserved name `default`.
pub fn is_default(name: &str) -> (default: bool)
    ensures
        default == (name@ == DEFAULT_DEVICE@),
{
    text_eq(name, DEFAULT_DEVICE)
}

} // verus!
