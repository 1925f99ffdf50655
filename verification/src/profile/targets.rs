//! The glucose target range.

use crate::fixed::clamp;
use crate::fixed::fx_scale;
use crate::fixed::max_fx;
use crate::fixed::min_fx;
use crate::fixed::scale_fx;
use crate::types::Profile;
use vstd::prelude::*;

verus! {

/// Lowest target that the engine works with: 80 mg/dL.
pub const TARGET_FLOOR: i64 = 80_000_000;

/// Highest target that the engine works with: 200 mg/dL.
pub const TARGET_CEILING: i64 = 200_000_000;

/// Values below this are read as mmol/L: 20.
pub const MMOL_THRESHOLD: i64 = 20_000_000;

/// mg/dL per mmol/L.
pub const MGDL_PER_MMOL: i64 = 18;

/// The glucose target range, mg/dL.
#[derive(Debug, Clone, Copy, PartialEq, Eq, Structural)]
pub struct BgTargets {
    pub min_bg: i64,
    pub max_bg: i64,
    pub temptarget_set: bool,
}

impl Default for BgTargets {
    fn default() -> (r: Self)
        ensures
            r.min_bg == 100_000_000,
            r.max_bg == 120_000_000,
            !r.temptarget_set,
    {
        BgTargets { min_bg: 100_000_000, max_bg: 120_000_000, temptarget_set: false }
    }
}

/// A target bound in mg/dL within the range that the engine works with:
/// a value below 20 is read as mmol/L.
pub open spec fn bounded_target(value: int) -> int {
    let mgdl = if value < MMOL_THRESHOLD {
        fx_scale(value, MGDL_PER_MMOL as int)
    } else {
        value
    };
    clamp(mgdl, TARGET_FLOOR as int, TARGET_CEILING as int)
}

/// One bound of the range, converted and limited.
fn bound_target(value: i64) -> (r: i64)
    ensures
        r == bounded_target(value as int),
        TARGET_FLOOR <= r <= TARGET_CEILING,
{
    let mgdl: i64 = if value < MMOL_THRESHOLD {
        scale_fx(value, MGDL_PER_MMOL)
    } else {
        value
    };
    min_fx(max_fx(mgdl, TARGET_FLOOR), TARGET_CEILING)
}

/// The range with both bounds converted to mg/dL and limited to 80..200.
pub fn bound_target_range(targets: BgTargets) -> (r: BgTargets)
    ensures
        r.min_bg == bounded_target(targets.min_bg as int),
        r.max_bg == bounded_target(targets.max_bg as int),
        r.temptarget_set == targets.temptarget_set,
        TARGET_FLOOR <= r.min_bg <= TARGET_CEILING,
        TARGET_FLOOR <= r.max_bg <= TARGET_CEILING,
{
    BgTargets {
        min_bg: bound_target(targets.min_bg),
        max_bg: bound_target(targets.max_bg),
        temptarget_set: targets.temptarget_set,
    }
}

/// The target range at `time`: the profile's, converted and limited.
pub fn bg_targets_lookup(profile: &Profile, time: i64) -> (r: BgTargets)
    ensures
        r.min_bg == bounded_target(profile.min_bg as int),
        r.max_bg == bounded_target(profile.max_bg as int),
        r.temptarget_set == profile.temptarget_set,
{
    bound_target_range(
        BgTargets {
            min_bg: profile.min_bg,
            max_bg: profile.max_bg,
            temptarget_set: profile.temptarget_set,
        },
    )
}

} // verus!
