use vstd::prelude::*;

verus! {

/// The thread-local random generator of `rand`, carried through opaquely.
#[verifier::external_type_specification]
#[verifier::external_body]
pub struct ExThreadRng(rand::rngs::ThreadRng);

/// Draws `rand::Rng::gen_range(0..bound)` from `rng`. rand documents that
/// the value lies in the half-open range `0..bound` and that the call panics
/// on an empty range, which `requires` rules out. Which value comes out is
/// left to the generator and is not stated.
#[verifier::external_body]
pub(crate) fn random_index(rng: &mut rand::rngs::ThreadRng, bound: usize) -> (r: usize)
    requires
        0 < bound,
    ensures
        r < bound,
{
    rand::Rng::gen_range(rng, 0..bound)
}

} // verus!
