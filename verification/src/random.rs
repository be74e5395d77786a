//! Random numbers, drawn through the `rand` crate.

use vstd::prelude::*;
use rand::Rng;

verus! {

/// Calls `rand::random::<u64>()`: a value drawn from the thread-local
/// generator. Nothing is claimed of the value.
#[verifier::external_body]
pub(crate) fn random_u64() -> (r: u64) {
    rand::random::<u64>()
}

/// Calls `rand::random::<u32>()`: a value drawn from the thread-local
/// generator. Nothing is claimed of the value.
#[verifier::external_body]
pub(crate) fn random_u32() -> (r: u32) {
    rand::random::<u32>()
}

/// Calls `rand::thread_rng().gen_range(0..high)`. `gen_range` panics on an
/// empty range, so `high` must be positive; the value drawn lies in the range.
#[verifier::external_body]
pub(crate) fn random_below(high: u16) -> (r: u16)
    requires
        high > 0,
    ensures
        r < high,
{
    rand::thread_rng().gen_range(0..high)
}

} // verus!
