//! Randomness source for share generation.

use vstd::prelude::*;

verus! {

/// Relies on rand::random::<bool>(): a fresh uniformly random bit.  Nothing
/// can be promised of its value; every caller's contract holds for both
/// outcomes.
#[verifier::external_body]
pub(crate) fn random_bool() -> bool {
    rand::random::<bool>()
}

} // verus!
