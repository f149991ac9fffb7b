use vstd::prelude::*;

verus! {

/// Draws a `u32` from `rand::random::<u32>()`, that is from the thread-local
/// generator of the `rand` crate. Any `u32` may come back, so nothing is
/// stated of it; two calls may return different values.
#[verifier::external_body]
pub(crate) fn random_u32() -> (draw: u32) {
    rand::random::<u32>()
}

} // verus!
