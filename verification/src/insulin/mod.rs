//! Pharmacokinetic models of insulin action.

pub mod calculate;
pub mod series;

pub use calculate::calculate_iob_contrib;
pub use calculate::BilinearCurve;
pub use calculate::ExponentialCurve;

use vstd::prelude::*;

verus! {

/// The closed set of insulin action curves.
#[derive(Debug, Clone, Copy, PartialEq, Eq, Structural)]
pub enum InsulinCurve {
    /// Triangular activity, scaled against a three-hour reference.
    Bilinear,
    /// Exponential activity with a peak at 75 minutes by default.
    RapidActing,
    /// Exponential activity with a peak at 55 minutes by default.
    UltraRapid,
}

/// Default peak of the rapid-acting curve, minutes.
pub const RAPID_PEAK: u32 = 75;

/// Default peak of the ultra-rapid curve, minutes.
pub const ULTRA_RAPID_PEAK: u32 = 55;

/// The peak time that a curve has when none is configured.
pub open spec fn default_peak(curve: InsulinCurve) -> int {
    match curve {
        InsulinCurve::UltraRapid => ULTRA_RAPID_PEAK as int,
        _ => RAPID_PEAK as int,
    }
}

impl InsulinCurve {
    /// The peak time that the curve has when none is configured.
    pub fn default_peak_time(&self) -> (r: u32)
        ensures
            r == default_peak(*self),
    {
        match self {
            InsulinCurve::UltraRapid => ULTRA_RAPID_PEAK,
            _ => RAPID_PEAK,
        }
    }
}

} // verus!
