//! Numbers drawn at random. A draw can only come from the random source:
//! nothing outside this module can make one, so a value that a contract ties
//! to a draw was drawn, not chosen.
use vstd::prelude::*;

use rand::Rng;

verus! {

/// A number drawn at random below `u128::MAX`.
#[derive(Debug)]
pub struct RandomDraw {
    value: u128,
}

impl View for RandomDraw {
    type V = u128;

    closed spec fn view(&self) -> u128 {
        self.value
    }
}

impl RandomDraw {
    /// The drawn number.
    pub fn value(&self) -> (v: u128)
        ensures
            v == self@,
    {
        self.value
    }
}

/// Calls `rand::thread_rng().gen_range(0..u128::MAX)` of the `rand` crate.
/// Claims only that the drawn number lies in that half-open range.
#[verifier::external_body]
pub(crate) fn draw_below_u128_max() -> (r: RandomDraw)
    ensures
        r@ < u128::MAX,
{
    RandomDraw { value: rand::thread_rng().gen_range(0..u128::MAX) }
}

} // verus!
