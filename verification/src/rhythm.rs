//! Stateless normalizer over the mid band's average energy.
//!
//! The rhythm factor is a value in [0, 1]; it is represented here as an
//! integer numerator over the fixed denominator `NORMALIZATION_FACTOR`.

use vstd::prelude::*;
use crate::params::NORMALIZATION_FACTOR;

verus! {

/// The scaled rhythm factor for a mid-band energy: the energy clamped to
/// `NORMALIZATION_FACTOR`, so that the represented factor
/// `normalize(e) / NORMALIZATION_FACTOR` is `min(e / NORMALIZATION_FACTOR, 1)`.
pub open spec fn spec_normalize(mids_energy: int) -> int {
    if mids_energy > NORMALIZATION_FACTOR {
        NORMALIZATION_FACTOR as int
    } else {
        mids_energy
    }
}

/// The represented rhythm factor is always in [0, 1]: the scaled value never
/// exceeds its denominator, however large the input energy.
pub fn normalize(mids_energy: u64) -> (r: u64)
    ensures
        r == spec_normalize(mids_energy as int),
        r <= NORMALIZATION_FACTOR,
{
    if mids_energy > NORMALIZATION_FACTOR {
        NORMALIZATION_FACTOR
    } else {
        mids_energy
    }
}

} // verus!
