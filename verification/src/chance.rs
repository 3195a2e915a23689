//! The random source that effects draw from.

use vstd::prelude::*;
use rand::Rng;

verus! {

#[verifier::external_type_specification]
#[verifier::external_body]
pub struct ExThreadRng(rand::rngs::ThreadRng);

/// Calls `rand::thread_rng`, which hands out the calling thread's generator.
#[verifier::external_body]
pub(crate) fn thread_rng() -> (rng: rand::rngs::ThreadRng) {
    rand::thread_rng()
}

/// Calls `Rng::gen_range` on the half-open range `low..high`, which panics on
/// an empty range and otherwise returns a value of the range. Which value is
/// left open.
#[verifier::external_body]
pub(crate) fn random_between(rng: &mut rand::rngs::ThreadRng, low: i64, high: i64) -> (v: i64)
    requires
        low < high,
    ensures
        low <= v < high,
{
    rng.gen_range(low..high)
}

/// Calls `Rng::gen_ratio`, which panics on a zero denominator or a numerator
/// above the denominator and otherwise returns `true` with the chance
/// `numerator / denominator`. Nothing is claimed of the value returned.
#[verifier::external_body]
pub(crate) fn random_ratio(rng: &mut rand::rngs::ThreadRng, numerator: u32, denominator: u32) -> (b:
    bool)
    requires
        0 < denominator,
        numerator <= denominator,
{
    rng.gen_ratio(numerator, denominator)
}

} // verus!
