//! The patient's configuration.

use crate::fixed::max_fx;
use crate::fixed::max_of;
use crate::insulin::default_peak;
use crate::insulin::InsulinCurve;
use vstd::prelude::*;

verus! {

/// One entry of the sensitivity schedule.
#[derive(Debug, Clone)]
pub struct ISFEntry {
    /// Minute of the day from which the entry applies.
    pub offset: u32,
    /// Insulin sensitivity factor, mg/dL per unit.
    pub sensitivity: i64,
    pub end_offset: Option<u32>,
}

/// The sensitivity schedule over the day.
#[derive(Debug, Clone)]
pub struct ISFProfile {
    pub sensitivities: Vec<ISFEntry>,
}

impl Default for ISFProfile {
    fn default() -> (r: Self)
        ensures
            r.sensitivities@.len() == 0,
    {
        ISFProfile { sensitivities: Vec::new() }
    }
}

/// One entry of the basal schedule.
#[derive(Debug, Clone)]
pub struct BasalScheduleEntry {
    /// Position of the entry in the pump's list.
    pub i: u32,
    /// Minute of the day from which the entry applies.
    pub minutes: u32,
    /// Basal rate, U/hr.
    pub rate: i64,
}

/// Shortest duration of insulin action of the bilinear curve: three hours.
pub const MIN_DIA_BILINEAR: i64 = 3_000_000;

/// Shortest duration of insulin action of the exponential curves: five hours.
pub const MIN_DIA_EXPONENTIAL: i64 = 5_000_000;

/// Configuration supplied with each invocation.
#[derive(Debug, Clone)]
pub struct Profile {
    /// Duration of insulin action, hours.
    pub dia: i64,
    pub curve: InsulinCurve,
    /// Peak of insulin activity in minutes; 0 selects the curve's own.
    pub peak: u32,
    /// Insulin sensitivity factor, mg/dL per unit.
    pub sens: i64,
    pub isf_profile: ISFProfile,
    /// Grams of carbs that one unit covers.
    pub carb_ratio: i64,
    /// Scheduled basal rate, U/hr.
    pub current_basal: i64,
    pub basal_profile: Vec<BasalScheduleEntry>,
    /// Lower bound of the target range, mg/dL.
    pub min_bg: i64,
    /// Upper bound of the target range, mg/dL.
    pub max_bg: i64,
    pub temptarget_set: bool,
    /// Ceiling of any temporary basal rate, U/hr.
    pub max_basal: i64,
    /// Ceiling of insulin on board, units.
    pub max_iob: i64,
    /// Absorption window of a meal, hours.
    pub max_meal_absorption_time: i64,
    /// Floor of the carb impact assumed per five minutes, mg/dL.
    pub min_5m_carbimpact: i64,
    /// Step of the pump's basal rates, U/hr.
    pub pump_increment: i64,
    /// Step of the pump's boluses, units.
    pub bolus_increment: i64,
    /// Fraction of the insulin required that a micro bolus may deliver.
    pub smb_delivery_ratio: i64,
    /// Cap of a micro bolus with carbs on board, minutes of basal.
    pub max_smb_basal_minutes: u32,
    /// Cap of a micro bolus without carbs on board, minutes of basal.
    pub max_uam_smb_basal_minutes: u32,
    pub enable_smb_always: bool,
    pub enable_smb_with_cob: bool,
    pub enable_smb_after_carbs: bool,
    pub enable_smb_with_temptarget: bool,
    pub enable_smb_high_bg: bool,
    /// Glucose from which `enable_smb_high_bg` applies, mg/dL.
    pub enable_smb_high_bg_target: i64,
    pub allow_smb_with_high_temptarget: bool,
    pub a52_risk_enable: bool,
    pub exercise_mode: bool,
    pub high_temptarget_raises_sensitivity: bool,
    pub rewind_resets_autosens: bool,
    /// The pump's model number.
    pub model: Option<String>,
}

impl Default for Profile {
    fn default() -> (r: Self)
        ensures
            r.dia == 3_000_000,
            r.curve == InsulinCurve::RapidActing,
            r.peak == 0,
            r.sens == 50_000_000,
            r.isf_profile.sensitivities@.len() == 0,
            r.carb_ratio == 10_000_000,
            r.current_basal == 0,
            r.basal_profile@.len() == 0,
            r.min_bg == 100_000_000,
            r.max_bg == 120_000_000,
            !r.temptarget_set,
            r.max_basal == 0,
            r.max_iob == 0,
            r.max_meal_absorption_time == 6_000_000,
            r.min_5m_carbimpact == 8_000_000,
            r.pump_increment == 50_000,
            r.bolus_increment == 100_000,
            r.smb_delivery_ratio == 500_000,
            r.max_smb_basal_minutes == 30,
            r.max_uam_smb_basal_minutes == 30,
            !r.enable_smb_always,
            !r.enable_smb_with_cob,
            !r.enable_smb_after_carbs,
            !r.enable_smb_with_temptarget,
            !r.enable_smb_high_bg,
            r.enable_smb_high_bg_target == 110_000_000,
            !r.allow_smb_with_high_temptarget,
            !r.a52_risk_enable,
            !r.exercise_mode,
            !r.high_temptarget_raises_sensitivity,
            r.rewind_resets_autosens,
            r.model is None,
    {
        Profile {
            dia: 3_000_000,
            curve: InsulinCurve::RapidActing,
            peak: 0,
            sens: 50_000_000,
            isf_profile: ISFProfile::default(),
            carb_ratio: 10_000_000,
            current_basal: 0,
            basal_profile: Vec::new(),
            min_bg: 100_000_000,
            max_bg: 120_000_000,
            temptarget_set: false,
            max_basal: 0,
            max_iob: 0,
            max_meal_absorption_time: 6_000_000,
            min_5m_carbimpact: 8_000_000,
            pump_increment: 50_000,
            bolus_increment: 100_000,
            smb_delivery_ratio: 500_000,
            max_smb_basal_minutes: 30,
            max_uam_smb_basal_minutes: 30,
            enable_smb_always: false,
            enable_smb_with_cob: false,
            enable_smb_after_carbs: false,
            enable_smb_with_temptarget: false,
            enable_smb_high_bg: false,
            enable_smb_high_bg_target: 110_000_000,
            allow_smb_with_high_temptarget: false,
            a52_risk_enable: false,
            exercise_mode: false,
            high_temptarget_raises_sensitivity: false,
            rewind_resets_autosens: true,
            model: None,
        }
    }
}

/// The duration of insulin action that a curve works with: the configured
/// one, but at least the curve's minimum.
pub open spec fn effective_dia_of(curve: InsulinCurve, dia: int) -> int {
    match curve {
        InsulinCurve::Bilinear => max_of(dia, MIN_DIA_BILINEAR as int),
        _ => max_of(dia, MIN_DIA_EXPONENTIAL as int),
    }
}

/// The peak time that a curve works with: the configured one, or the curve's
/// own where none is configured.
pub open spec fn effective_peak_of(curve: InsulinCurve, peak: int) -> int {
    if peak == 0 {
        default_peak(curve)
    } else {
        peak
    }
}

impl Profile {
    /// Duration of insulin action in hours, at least the curve's minimum.
    pub fn effective_dia(&self) -> (r: i64)
        ensures
            r == effective_dia_of(self.curve, self.dia as int),
    {
        match self.curve {
            InsulinCurve::Bilinear => max_fx(self.dia, MIN_DIA_BILINEAR),
            _ => max_fx(self.dia, MIN_DIA_EXPONENTIAL),
        }
    }

    /// Peak of insulin activity in minutes.
    pub fn effective_peak_time(&self) -> (r: u32)
        ensures
            r == effective_peak_of(self.curve, self.peak as int),
    {
        if self.peak == 0 {
            self.curve.default_peak_time()
        } else {
            self.peak
        }
    }
}

} // verus!
