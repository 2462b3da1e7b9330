//! The injected random source: independent draws from the half-open unit
//! range `[-1, 1)`, taken from the thread-local generator of the `rand`
//! crate. Nothing beyond the range of a draw is assumed of it.

use vstd::prelude::*;

verus! {

#[verifier::external_type_specification]
#[verifier::external_body]
pub struct ExThreadRng(rand::rngs::ThreadRng);

/// Relies on rand::thread_rng: a handle to the thread-local generator.
#[verifier::external_body]
pub(crate) fn fresh_rng() -> rand::rngs::ThreadRng {
    rand::thread_rng()
}

/// Relies on rand::Rng::gen_range: a draw from the nonempty range `-1..1`
/// lies in that half-open range. The draw is random, so nothing else holds
/// of any one outcome.
#[verifier::external_body]
pub(crate) fn draw_unit(rng: &mut rand::rngs::ThreadRng) -> (r: i64)
    ensures
        -1 <= r < 1,
{
    rand::Rng::gen_range(rng, -1i64..1i64)
}

} // verus!
