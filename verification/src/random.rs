//! Policy for re-seeding the carousel position: one draw from an external
//! uniform random source is mapped onto the inclusive digit-slot range, so
//! the selector lands on a digit slot that no observer can predict from the
//! previous position.

use vstd::prelude::*;

verus! {

/// The digit slot that a raw draw `entropy` selects: the draw reduced onto
/// the ten digit slots `[3, 12]`.
pub open spec fn spec_digit_position(entropy: u32) -> int {
    3 + (entropy as int % 10)
}

/// Maps one draw from a uniform random source onto the inclusive digit-slot
/// range `[3, 12]`, as an inclusive-bounds uniform reduction over the ten
/// slots. Called with a fresh draw at construction and after every
/// successful digit append.
pub fn get_random_digit_position(entropy: u32) -> (r: usize)
    ensures
        r == spec_digit_position(entropy),
        3 <= r <= 12,
{
    3 + (entropy % 10) as usize
}

} // verus!
