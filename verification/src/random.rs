//! The random source: `rand`'s standard generator behind two contracts.
//!
//! Nothing here is proved. The contracts state what `rand` documents of the
//! two sampling methods the animation uses, and only what holds of every
//! outcome.

use rand::Rng;
use vstd::prelude::*;

verus! {

/// `rand::rngs::StdRng`, carried through as an opaque value.
#[verifier::external_type_specification]
#[verifier::external_body]
pub struct ExStdRng(rand::rngs::StdRng);

/// Calls `Rng::gen_range(low..high)` on `usize`.
///
/// `rand` panics on an empty range, so `low < high` is demanded. The value
/// returned lies in the half-open range; which one it is depends on the
/// generator's state and is left open.
#[verifier::external_body]
pub(crate) fn uniform(rng: &mut rand::rngs::StdRng, low: usize, high: usize) -> (value: usize)
    requires
        low < high,
    ensures
        low <= value < high,
{
    rng.gen_range(low..high)
}

/// Calls `Rng::gen_ratio(numerator, denominator)`.
///
/// `rand` panics when the denominator is zero or smaller than the numerator,
/// so both are excluded. It documents that the result is `false` when the
/// numerator is zero and `true` when numerator and denominator are equal;
/// in between, the result depends on the generator's state and is left open.
#[verifier::external_body]
pub(crate) fn bernoulli(
    rng: &mut rand::rngs::StdRng,
    numerator: u32,
    denominator: u32,
) -> (hit: bool)
    requires
        denominator >= 1,
        numerator <= denominator,
    ensures
        numerator == 0 ==> !hit,
        numerator == denominator ==> hit,
{
    rng.gen_ratio(numerator, denominator)
}

} // verus!
