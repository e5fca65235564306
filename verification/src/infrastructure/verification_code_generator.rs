//! Verification codes: seven decimal digits drawn at random.
use vstd::prelude::*;

verus! {

/// `rand::random_range` over `low..high`: a value of the range drawn by rand's thread-local,
/// automatically seeded cryptographic generator. rand panics on an empty range. Which value
/// is drawn is not stated.
#[verifier::external_body]
fn random_u32_below(low: u32, high: u32) -> (value: u32)
    requires
        low < high,
    ensures
        low <= value < high,
{
    rand::random_range(low..high)
}

/// Seven decimal digits, sampled by rand's automatically seeded cryptographic RNG.
pub fn verification_code() -> (code: u32)
    ensures
        1_000_000 <= code < 10_000_000,
{
    random_u32_below(1_000_000, 10_000_000)
}

} // verus!
