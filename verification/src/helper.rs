use vstd::prelude::*;

verus! {

/// Draws a vertex id with `rand::random_range(min..max)`, which samples the
/// thread-local generator uniformly from the half-open range.
///
/// The contract claims only what holds of every draw: the id lies in
/// `min..max`. Which id comes out depends on chance and is left unsaid.
/// `random_range` panics on an empty range, hence `min < max`.
#[verifier::external_body]
pub fn get_rand_vid(min: u32, max: u32) -> (vid: u32)
    requires
        min < max,
    ensures
        min <= vid < max,
{
    rand::random_range(min..max)
}

} // verus!
