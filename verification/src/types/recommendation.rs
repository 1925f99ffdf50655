//! What the controller recommends.

use vstd::prelude::*;
use vstd::string::StringExecFns;

verus! {

/// One recommendation: a temporary basal rate, an optional micro bolus and
/// the figures that led to them.
#[derive(Debug, Clone)]
pub struct DetermineBasalResult {
    /// Temporary basal rate to set, U/hr.
    pub rate: Option<i64>,
    /// Its duration, minutes.
    pub duration: Option<u32>,
    /// Micro bolus to deliver, units.
    pub units: Option<i64>,
    /// The decision in words.
    pub reason: String,
    /// Carbs on board, grams.
    pub cob: i64,
    /// Insulin on board, units.
    pub iob: i64,
    /// Glucose expected once the insulin on board has acted, mg/dL.
    pub eventual_bg: i64,
    /// Age of the glucose reading, minutes.
    pub bg_mins_ago: Option<i64>,
    pub target_bg: Option<i64>,
    pub sensitivity_ratio: Option<i64>,
    /// Insulin required to reach the target, units.
    pub insulin_req: Option<i64>,
    pub predicted_bg: Option<Vec<i64>>,
    pub pred_bgs_iob: Option<Vec<i64>>,
    pub pred_bgs_zt: Option<Vec<i64>>,
    pub pred_bgs_uam: Option<Vec<i64>>,
    pub pred_bgs_cob: Option<Vec<i64>>,
}

impl Default for DetermineBasalResult {
    fn default() -> (r: Self)
        ensures
            r.is_bare(),
            r.reason@ == Seq::<char>::empty(),
    {
        DetermineBasalResult {
            rate: None,
            duration: None,
            units: None,
            reason: String::new(),
            cob: 0,
            iob: 0,
            eventual_bg: 0,
            bg_mins_ago: None,
            target_bg: None,
            sensitivity_ratio: None,
            insulin_req: None,
            predicted_bg: None,
            pred_bgs_iob: None,
            pred_bgs_zt: None,
            pred_bgs_uam: None,
            pred_bgs_cob: None,
        }
    }
}

impl DetermineBasalResult {
    /// Whether the result carries nothing beside its reason.
    pub open spec fn is_bare(self) -> bool {
        &&& self.rate is None
        &&& self.duration is None
        &&& self.units is None
        &&& self.carries_no_figures()
    }

    /// Whether the result carries no figure beside rate, duration and units.
    pub open spec fn carries_no_figures(self) -> bool {
        &&& self.cob == 0
        &&& self.iob == 0
        &&& self.eventual_bg == 0
        &&& self.bg_mins_ago is None
        &&& self.target_bg is None
        &&& self.sensitivity_ratio is None
        &&& self.insulin_req is None
        &&& self.predicted_bg is None
        &&& self.pred_bgs_iob is None
        &&& self.pred_bgs_zt is None
        &&& self.pred_bgs_uam is None
        &&& self.pred_bgs_cob is None
    }

    /// A result that only says why nothing is recommended.
    pub fn error(message: &str) -> (r: Self)
        ensures
            r.is_bare(),
            r.reason@ == message@,
    {
        let mut result = DetermineBasalResult::default();
        result.reason = String::from_str(message);
        result
    }

    /// A temporary basal rate of `rate` U/hr for `duration` minutes.
    pub fn temp_basal(rate: i64, duration: u32, reason: String) -> (r: Self)
        ensures
            r.rate == Some(rate),
            r.duration == Some(duration),
            r.units is None,
            r.reason == reason,
            r.carries_no_figures(),
    {
        let mut result = DetermineBasalResult::default();
        result.rate = Some(rate);
        result.duration = Some(duration);
        result.reason = reason;
        result
    }
}

} // verus!
