use vstd::prelude::*;
use rand::rngs::SmallRng;
use rand::{Rng, SeedableRng};

verus! {

/// The `rand` crate's small fast generator, carried through opaquely.
#[verifier::external_type_specification]
#[verifier::external_body]
pub struct ExSmallRng(SmallRng);

/// Calls `SmallRng::seed_from_u64`. Nothing is stated of the generator's
/// state: only that it is some `SmallRng`.
#[verifier::external_body]
pub(crate) fn seeded(seed: u64) -> SmallRng {
    SmallRng::seed_from_u64(seed)
}

/// Calls `Rng::gen_ratio`, a coin with probability `numerator/denominator`.
/// As its documentation says, it panics unless `0 < denominator` and
/// `numerator <= denominator`, always answers `false` when `numerator` is 0
/// and `true` when `numerator == denominator`; which value comes out
/// otherwise depends on the generator's state and is not stated.
#[verifier::external_body]
pub(crate) fn gen_ratio(rng: &mut SmallRng, numerator: u32, denominator: u32) -> (r: bool)
    requires
        0 < denominator,
        numerator <= denominator,
    ensures
        numerator == 0 ==> !r,
        numerator == denominator ==> r,
{
    rng.gen_ratio(numerator, denominator)
}

/// Calls `Rng::gen_range(low..high)` on `usize`: it panics on an empty range
/// and otherwise returns some value in `low..high`; which one is not stated.
#[verifier::external_body]
pub(crate) fn gen_index(rng: &mut SmallRng, low: usize, high: usize) -> (r: usize)
    requires
        low < high,
    ensures
        low <= r < high,
{
    rng.gen_range(low..high)
}

/// Calls `Rng::gen_range(low..high)` on `i32`: some value in `low..high`,
/// which one is not stated; an empty range panics.
#[verifier::external_body]
pub(crate) fn gen_i32(rng: &mut SmallRng, low: i32, high: i32) -> (r: i32)
    requires
        low < high,
    ensures
        low <= r < high,
{
    rng.gen_range(low..high)
}

} // verus!
