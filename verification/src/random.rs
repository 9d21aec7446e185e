//! What chance provides: identifiers and indices.

use rand::Rng;
use uuid::Uuid;
use vstd::prelude::*;

verus! {

/// A fresh random identifier in its hyphenated form, from uuid's
/// `Uuid::new_v4`: 36 characters, whatever the identifier. The call takes
/// its randomness from the system and fails only where the system has none
/// to give.
#[verifier::external_body]
pub(crate) fn random_identifier() -> (text: String)
    ensures
        text@.len() == 36,
{
    Uuid::new_v4().to_string()
}

/// A random number below `bound`, from rand's `Rng::random_range` on the
/// thread's generator. The range must not be empty: on an empty range the
/// call panics.
#[verifier::external_body]
pub(crate) fn random_below(bound: usize) -> (index: usize)
    requires
        bound > 0,
    ensures
        index < bound,
{
    rand::rng().random_range(0..bound)
}

} // verus!
