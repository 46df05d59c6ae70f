//! Profanity screening of user-visible strings.

use rustrict::CensorStr;
use vstd::prelude::*;

verus! {

/// Whether `rustrict` judges the text inappropriate.  With the crate's default
/// features (no `customize`) its word list is fixed, so the judgement depends on
/// the text alone.
pub uninterp spec fn inappropriate(text: Seq<char>) -> bool;

/// Calls `rustrict::CensorStr::is_inappropriate` on `text`.  Trusted to return
/// the judgement named `inappropriate` for the text's characters.
#[verifier::external_body]
pub fn is_inappropriate(text: &str) -> (r: bool)
    ensures
        r == inappropriate(text@),
{
    text.is_inappropriate()
}

} // verus!
