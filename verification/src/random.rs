//! The one source of chance: whole numbers drawn from a seeded generator.

use rand::rngs::StdRng;
use rand::Rng;
use vstd::prelude::*;

verus! {

/// The generator of the `rand` crate that every draw is made from. Nothing
/// is known of what it holds.
#[verifier::external_type_specification]
#[verifier::external_body]
pub struct ExStdRng(StdRng);

/// Draws a whole number from `low ..= high` with `Rng::gen_range`.
///
/// Trusted, not proved: `gen_range` panics on an empty range, which the
/// precondition rules out, and otherwise returns a number of the range.
/// Which one it is depends on the state of the generator, so nothing more
/// is said of it.
#[verifier::external_body]
pub(crate) fn draw(rng: &mut StdRng, low: i64, high: i64) -> (drawn: i64)
    requires
        low <= high,
    ensures
        low <= drawn <= high,
{
    rng.gen_range(low..=high)
}

} // verus!
