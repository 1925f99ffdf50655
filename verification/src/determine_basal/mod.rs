//! The dosing controller: temporary basal rates and micro boluses.

pub mod algorithm;
pub mod predictions;
pub mod safety;
pub mod smb;

pub use algorithm::determine_basal;
pub use predictions::predict_glucose;
pub use smb::should_enable_smb;

use crate::types::AutosensData;
use crate::types::CurrentTemp;
use crate::types::GlucoseStatus;
use crate::types::IOBData;
use crate::types::MealData;
use crate::types::Profile;
use vstd::prelude::*;

verus! {

/// What the controller decides on.
pub struct DetermineBasalInputs<'a> {
    pub glucose_status: &'a GlucoseStatus,
    pub current_temp: &'a CurrentTemp,
    pub iob_data: &'a IOBData,
    pub profile: &'a Profile,
    pub autosens_data: &'a AutosensData,
    pub meal_data: &'a MealData,
    /// Whether a micro bolus may be delivered.
    pub micro_bolus_allowed: bool,
    /// The time of the decision, Unix milliseconds.
    pub current_time: i64,
}

} // verus!
