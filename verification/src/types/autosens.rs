//! The sensitivity ratio that autosens hands to the controller.

use crate::fixed::ONE;
use vstd::prelude::*;

verus! {

/// Multiplicative correction of the insulin sensitivity factor.
#[derive(Debug, Clone)]
pub struct AutosensData {
    /// Sensitivity ratio; `ONE` means no correction.
    pub ratio: i64,
}

impl Default for AutosensData {
    fn default() -> (r: Self)
        ensures
            r.ratio == ONE,
    {
        AutosensData { ratio: ONE }
    }
}

impl AutosensData {
    /// The given ratio.
    pub fn with_ratio(ratio: i64) -> (r: Self)
        ensures
            r.ratio == ratio,
    {
        AutosensData { ratio }
    }
}

} // verus!
