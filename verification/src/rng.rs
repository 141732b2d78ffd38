//! The pseudo-random source.
//!
//! Sampling is driven by rand's seedable standard generator, threaded
//! explicitly through every function that draws from it.  Nothing is
//! assumed about the values drawn beyond their range: every contract
//! downstream states what holds of each possible outcome.

use crate::fixed::{Fx, SCALE};
use vstd::prelude::*;

verus! {

/// rand's seedable standard generator, declared opaquely.
#[verifier::external_type_specification]
#[verifier::external_body]
pub struct ExStdRng(rand::rngs::StdRng);

/// Relies on rand's `RngCore::next_u32` for `StdRng` (a ChaCha12
/// stream): hands back the next 32 bits; never fails.
#[verifier::external_body]
fn next_u32(rng: &mut rand::rngs::StdRng) -> (r: u32) {
    rand::RngCore::next_u32(rng)
}

/// One sample, uniform over the `SCALE` scalars of `[0, 1)`.
pub(crate) fn sample_unit(rng: &mut rand::rngs::StdRng) -> (r: Fx)
    ensures
        0 <= r@ < SCALE as int,
{
    let bits: u32 = next_u32(rng);
    proof {
        assert((bits >> 16u32) < 65536u32) by (bit_vector);
    }
    let frac: u32 = bits >> 16;
    Fx::from_raw(frac as i64)
}

} // verus!
