use vstd::prelude::*;

use bracket_lib::prelude::RandomNumberGenerator;

use crate::{GAP_CENTER_MAX, GAP_CENTER_MIN};

verus! {

#[verifier::external_type_specification]
#[verifier::external_body]
pub struct ExRandomNumberGenerator(RandomNumberGenerator);

/// Relies on `RandomNumberGenerator::new`: a generator freshly seeded from
/// entropy. Nothing is assumed of it beyond being a generator.
#[verifier::external_body]
pub(crate) fn rng_from_entropy() -> RandomNumberGenerator {
    RandomNumberGenerator::new()
}

/// Relies on `RandomNumberGenerator::seeded`: a generator seeded from the
/// given value, for reproducible runs. Nothing is assumed of it.
#[verifier::external_body]
pub(crate) fn rng_from_seed(seed: u64) -> RandomNumberGenerator {
    RandomNumberGenerator::seeded(seed)
}

/// Relies on `RandomNumberGenerator::range`, documented as inclusive of the
/// lower bound and exclusive of the upper: one draw of a gap-center row.
#[verifier::external_body]
pub(crate) fn roll_gap_center(rng: &mut RandomNumberGenerator) -> (r: i64)
    ensures
        GAP_CENTER_MIN <= r < GAP_CENTER_MAX,
{
    rng.range(GAP_CENTER_MIN, GAP_CENTER_MAX)
}

} // verus!
