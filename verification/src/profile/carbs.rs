//! The carb ratio over the day.

use crate::types::Profile;
use vstd::prelude::*;

verus! {

/// The carb ratio at `time`: the profile holds a single one for the day.
pub fn carb_ratio_lookup(profile: &Profile, time: i64) -> (r: i64)
    ensures
        r == profile.carb_ratio,
{
    profile.carb_ratio
}

} // verus!
