//! Carbs on board and meal data.

use crate::fixed::fx_round;
use crate::fixed::round_fx;
use vstd::prelude::*;

verus! {

/// What is known of the meals in progress.
#[derive(Debug, Clone)]
pub struct MealData {
    /// Carbs entered, grams.
    pub carbs: i64,
    pub ns_carbs: i64,
    pub bw_carbs: i64,
    pub journal_carbs: i64,
    /// Carbs on board, grams.
    pub meal_cob: i64,
    /// Current deviation of glucose from what insulin explains, mg/dL.
    pub current_deviation: i64,
    pub max_deviation: i64,
    pub min_deviation: i64,
    pub slope_from_max_deviation: i64,
    pub slope_from_min_deviation: i64,
    pub all_deviations: Vec<i64>,
    /// Time of the last carb entry, Unix milliseconds.
    pub last_carb_time: i64,
    /// Whether carbs of a bolus wizard were found.
    pub bw_found: bool,
}

impl Default for MealData {
    fn default() -> (r: Self)
        ensures
            r.is_empty_with(0, 0),
    {
        MealData {
            carbs: 0,
            ns_carbs: 0,
            bw_carbs: 0,
            journal_carbs: 0,
            meal_cob: 0,
            current_deviation: 0,
            max_deviation: 0,
            min_deviation: 0,
            slope_from_max_deviation: 0,
            slope_from_min_deviation: 0,
            all_deviations: Vec::new(),
            last_carb_time: 0,
            bw_found: false,
        }
    }
}

impl MealData {
    /// Whether the record holds nothing but `meal_cob` on board of `carbs`
    /// entered.
    pub open spec fn is_empty_with(self, meal_cob: i64, carbs: i64) -> bool {
        &&& self.carbs == carbs
        &&& self.ns_carbs == carbs
        &&& self.bw_carbs == 0
        &&& self.journal_carbs == 0
        &&& self.meal_cob == meal_cob
        &&& self.current_deviation == 0
        &&& self.max_deviation == 0
        &&& self.min_deviation == 0
        &&& self.slope_from_max_deviation == 0
        &&& self.slope_from_min_deviation == 0
        &&& self.all_deviations@.len() == 0
        &&& self.last_carb_time == 0
        &&& !self.bw_found
    }

    /// No meal.
    pub fn empty() -> (r: Self)
        ensures
            r.is_empty_with(0, 0),
    {
        MealData::default()
    }

    /// `meal_cob` grams on board of `carbs` grams entered.
    pub fn with_cob(meal_cob: i64, carbs: i64) -> (r: Self)
        ensures
            r.is_empty_with(meal_cob, carbs),
    {
        MealData {
            carbs,
            ns_carbs: carbs,
            bw_carbs: 0,
            journal_carbs: 0,
            meal_cob,
            current_deviation: 0,
            max_deviation: 0,
            min_deviation: 0,
            slope_from_max_deviation: 0,
            slope_from_min_deviation: 0,
            all_deviations: Vec::new(),
            last_carb_time: 0,
            bw_found: false,
        }
    }

    /// The record with its carbs and slopes rounded to three decimal places,
    /// its deviations to two and its carbs on board to whole grams.
    pub fn rounded(self) -> (r: Self)
        ensures
            r.carbs == fx_round(self.carbs as int, 3),
            r.ns_carbs == fx_round(self.ns_carbs as int, 3),
            r.bw_carbs == fx_round(self.bw_carbs as int, 3),
            r.journal_carbs == fx_round(self.journal_carbs as int, 3),
            r.meal_cob == fx_round(self.meal_cob as int, 0),
            r.current_deviation == fx_round(self.current_deviation as int, 2),
            r.max_deviation == fx_round(self.max_deviation as int, 2),
            r.min_deviation == fx_round(self.min_deviation as int, 2),
            r.slope_from_max_deviation == fx_round(self.slope_from_max_deviation as int, 3),
            r.slope_from_min_deviation == fx_round(self.slope_from_min_deviation as int, 3),
            r.all_deviations == self.all_deviations,
            r.last_carb_time == self.last_carb_time,
            r.bw_found == self.bw_found,
    {
        MealData {
            carbs: round_fx(self.carbs, 3),
            ns_carbs: round_fx(self.ns_carbs, 3),
            bw_carbs: round_fx(self.bw_carbs, 3),
            journal_carbs: round_fx(self.journal_carbs, 3),
            meal_cob: round_fx(self.meal_cob, 0),
            current_deviation: round_fx(self.current_deviation, 2),
            max_deviation: round_fx(self.max_deviation, 2),
            min_deviation: round_fx(self.min_deviation, 2),
            slope_from_max_deviation: round_fx(self.slope_from_max_deviation, 3),
            slope_from_min_deviation: round_fx(self.slope_from_min_deviation, 3),
            all_deviations: self.all_deviations,
            last_carb_time: self.last_carb_time,
            bw_found: self.bw_found,
        }
    }
}

/// Result of the carb absorption detection.
#[derive(Debug, Clone, Copy, PartialEq, Eq, Structural)]
pub struct COBResult {
    /// Carbs on board, grams.
    pub meal_cob: i64,
    /// Carbs absorbed since the meal, grams.
    pub carbs_absorbed: i64,
    pub current_deviation: i64,
    pub max_deviation: i64,
    pub min_deviation: i64,
    pub slope_from_max: i64,
    pub slope_from_min: i64,
}

impl Default for COBResult {
    fn default() -> (r: Self)
        ensures
            r == COBResult::zero_result(),
    {
        COBResult {
            meal_cob: 0,
            carbs_absorbed: 0,
            current_deviation: 0,
            max_deviation: 0,
            min_deviation: 0,
            slope_from_max: 0,
            slope_from_min: 0,
        }
    }
}

impl COBResult {
    /// The result without a meal.
    pub open spec fn zero_result() -> COBResult {
        COBResult {
            meal_cob: 0,
            carbs_absorbed: 0,
            current_deviation: 0,
            max_deviation: 0,
            min_deviation: 0,
            slope_from_max: 0,
            slope_from_min: 0,
        }
    }
}

} // verus!
