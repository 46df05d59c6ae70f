//! The random number generator that the server seeds once and draws from.

use rand::distributions::Alphanumeric;
use rand::Rng;
use rand_chacha::ChaCha12Rng;
use vstd::prelude::*;

verus! {

/// The server's generator, `rand_chacha::ChaCha12Rng`; opaque here.
#[verifier::external_type_specification]
#[verifier::external_body]
pub struct ExChaCha12Rng(ChaCha12Rng);

/// Calls `rand::Rng::gen_range(0..bound)`.  Trusted only to return an index
/// below `bound`; which one is chance.  `gen_range` panics on an empty range,
/// which `requires` rules out.
#[verifier::external_body]
pub fn random_index(rng: &mut ChaCha12Rng, bound: usize) -> (r: usize)
    requires
        bound > 0,
    ensures
        r < bound,
{
    rng.gen_range(0..bound)
}

/// An ASCII letter or digit.
pub open spec fn is_ascii_alphanumeric(b: u8) -> bool {
    (0x30 <= b <= 0x39) || (0x41 <= b <= 0x5a) || (0x61 <= b <= 0x7a)
}

/// Calls `rand::Rng::sample(rand::distributions::Alphanumeric)`, which its
/// documentation and source give as a byte drawn from `A-Z`, `a-z` and `0-9`.
/// Trusted to return such a byte; which one is chance.
#[verifier::external_body]
pub fn random_alphanumeric(rng: &mut ChaCha12Rng) -> (r: u8)
    ensures
        is_ascii_alphanumeric(r),
{
    rng.sample(Alphanumeric)
}

} // verus!
