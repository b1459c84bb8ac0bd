//! Random numbers, from the thread-local generator of `rand`.
use vstd::prelude::*;

use rand::Rng;

verus! {

/// `rand::thread_rng().gen::<u8>()`: a random byte. Any byte may come back, so
/// nothing is stated of it.
#[verifier::external_body]
pub(crate) fn random_byte() -> u8 {
    rand::thread_rng().gen::<u8>()
}

/// `rand::thread_rng().gen_range(low..high)`: a random number from `low` up to but
/// not including `high`. The range must not be empty, or the call panics.
#[verifier::external_body]
pub(crate) fn random_in_range(low: u32, high: u32) -> (r: u32)
    requires
        low < high,
    ensures
        low <= r < high,
{
    rand::thread_rng().gen_range(low..high)
}

} // verus!
