use vstd::prelude::*;

verus! {

/// Relies on rand's `Rng::gen_range` over `rand::thread_rng`: the result of
/// sampling an inclusive integer range lies in that range, and the call
/// panics only when the range is empty.
#[verifier::external_body]
pub(crate) fn roll_range(low: u128, high: u128) -> (r: u128)
    requires
        low <= high,
    ensures
        low <= r <= high,
{
    rand::Rng::gen_range(&mut rand::thread_rng(), low..=high)
}

} // verus!
