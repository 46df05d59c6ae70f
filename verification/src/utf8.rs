//! Checking bytes for UTF-8.

use vstd::prelude::*;
use vstd::string::StringSliceAdditionalSpecFns;
use vstd::utf8::valid_utf8;

verus! {

/// Calls `core::str::from_utf8`.  As std documents it: `Some` exactly when the
/// bytes are valid UTF-8, and then the string's bytes are the input.
#[verifier::external_body]
pub fn str_from_utf8(bytes: &[u8]) -> (r: Option<&str>)
    ensures
        r is Some <==> valid_utf8(bytes@),
        r matches Some(s) ==> s.spec_bytes() == bytes@,
{
    core::str::from_utf8(bytes).ok()
}

} // verus!
