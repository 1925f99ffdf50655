//! From deviations to the sensitivity ratio.

use super::AutosensConfig;
use crate::fixed::add_fx;
use crate::fixed::div_fx;
use crate::fixed::clamp;
use crate::fixed::div_round;
use crate::fixed::div_round_exec;
use crate::fixed::fx_add;
use crate::fixed::fx_div;
use crate::fixed::fx_round;
use crate::fixed::fx_scale;
use crate::fixed::max_fx;
use crate::fixed::max_of;
use crate::fixed::min_fx;
use crate::fixed::min_of;
use crate::fixed::round_fx;
use crate::fixed::scale_fx;
use crate::fixed::lemma_div_round_bounds;
use crate::fixed::lemma_div_round_exact;
use crate::fixed::lemma_round_to_fixed;
use crate::fixed::lemma_round_to_monotone;
use crate::fixed::on_grid;
use crate::fixed::LIMIT;
use crate::fixed::ONE;
use crate::order::insert_by_key;
use crate::order::lemma_sorted_by_key;
use crate::order::sorted_by_key;
use crate::types::Profile;
use vstd::prelude::*;
use vstd::std_specs::convert::FromSpecImpl;

verus! {

/// How the patient responds to insulin, compared with the profile.
#[derive(Debug, Clone, Copy, PartialEq, Eq, Structural)]
pub enum SensitivityCategory {
    /// As the profile says.
    Normal,
    /// More than the profile says: a ratio below 0.95.
    Sensitive,
    /// Less than the profile says: a ratio above 1.05.
    Resistant,
}

/// The category of a ratio.
pub open spec fn category_of(ratio: int) -> SensitivityCategory {
    if ratio < 950_000 {
        SensitivityCategory::Sensitive
    } else if ratio > 1_050_000 {
        SensitivityCategory::Resistant
    } else {
        SensitivityCategory::Normal
    }
}

impl From<i64> for SensitivityCategory {
    fn from(ratio: i64) -> (r: Self) {
        if ratio < 950_000 {
            SensitivityCategory::Sensitive
        } else if ratio > 1_050_000 {
            SensitivityCategory::Resistant
        } else {
            SensitivityCategory::Normal
        }
    }
}

impl FromSpecImpl<i64> for SensitivityCategory {
    open spec fn obeys_from_spec() -> bool {
        true
    }

    open spec fn from_spec(ratio: i64) -> Self {
        category_of(ratio as int)
    }
}

/// What autosens found.
#[derive(Debug, Clone)]
pub struct SensitivityResult {
    /// Sensitivity ratio.
    pub ratio: i64,
    /// Number of deviations that counted.
    pub deviation_count: usize,
    pub avg_deviation: i64,
    pub category: SensitivityCategory,
}

/// Position of the `p`-th share of `n` sorted values, to the nearest rank
/// and within the values: a share below nothing gives the first rank, one
/// above all the last.
pub open spec fn rank_of(p: int, n: int) -> int {
    clamp(div_round(p * (n - 1), 1_000_000), 0, n - 1)
}

/// The value at the `p`-th share of sorted values; 0 without values.
pub open spec fn percentile_of(sorted: Seq<i64>, p: int) -> int {
    if sorted.len() == 0 {
        0
    } else {
        sorted[rank_of(p, sorted.len() as int)] as int
    }
}

/// The median of the deviations.
pub open spec fn median_of(deviations: Seq<i64>) -> int {
    percentile_of(sorted_by_key(deviations), 500_000)
}

/// The ratio before it is limited: one plus the share of the greatest basal
/// rate that the median deviation amounts to over an hour; one where the
/// profile has no sensitivity or no greatest basal rate to divide by.
pub open spec fn raw_ratio_of(median: int, profile: Profile) -> int {
    if profile.sens > 0 && profile.max_basal > 0 {
        fx_add(
            ONE as int,
            fx_div(fx_div(fx_scale(median, 12), profile.sens as int), profile.max_basal as int),
        )
    } else {
        ONE as int
    }
}

/// The ratio that a median deviation gives: limited to the configured
/// range, then rounded to two decimal places.
pub open spec fn ratio_from_median(median: int, profile: Profile, config: AutosensConfig) -> int {
    fx_round(
        min_of(
            max_of(raw_ratio_of(median, profile), config.autosens_min as int),
            config.autosens_max as int,
        ),
        2,
    )
}

/// The sensitivity ratio of the deviations; one without deviations.
pub open spec fn ratio_of(deviations: Seq<i64>, profile: Profile, config: AutosensConfig) -> int {
    if deviations.len() == 0 {
        ONE as int
    } else {
        ratio_from_median(median_of(deviations), profile, config)
    }
}

/// Whether the limits of the ratio fit the two decimal places that the
/// ratio is held in: the smaller is not above the greater, and both are
/// whole hundredths.
pub open spec fn limits_fit(config: AutosensConfig) -> bool {
    &&& -(LIMIT as int) <= config.autosens_min <= config.autosens_max <= LIMIT as int
    &&& on_grid(config.autosens_min as int, 10_000)
    &&& on_grid(config.autosens_max as int, 10_000)
}

/// Whatever the median deviation, the ratio lies within the configured
/// limits.
pub proof fn lemma_ratio_within_limits(median: int, profile: Profile, config: AutosensConfig)
    requires
        limits_fit(config),
    ensures
        config.autosens_min <= ratio_from_median(median, profile, config) <= config.autosens_max,
{
    let limited = min_of(
        max_of(raw_ratio_of(median, profile), config.autosens_min as int),
        config.autosens_max as int,
    );
    lemma_round_to_monotone(config.autosens_min as int, limited, 10_000);
    lemma_round_to_monotone(limited, config.autosens_max as int, 10_000);
    lemma_round_to_fixed(config.autosens_min as int, 10_000);
    lemma_round_to_fixed(config.autosens_max as int, 10_000);
}

/// Whatever the deviations, their ratio lies within the configured limits,
/// where these include one.
pub proof fn lemma_any_ratio_within_limits(
    deviations: Seq<i64>,
    profile: Profile,
    config: AutosensConfig,
)
    requires
        limits_fit(config),
        deviations.len() > 0 || config.autosens_min <= ONE <= config.autosens_max,
    ensures
        config.autosens_min <= ratio_of(deviations, profile, config) <= config.autosens_max,
{
    if deviations.len() > 0 {
        lemma_ratio_within_limits(median_of(deviations), profile, config);
    }
}

/// Deviations that are all zero give the ratio one, where the limits
/// include it.
pub proof fn lemma_quiet_deviations_are_neutral(
    deviations: Seq<i64>,
    profile: Profile,
    config: AutosensConfig,
)
    requires
        forall|i: int| 0 <= i < deviations.len() ==> deviations[i] == 0,
        config.autosens_min <= ONE <= config.autosens_max,
    ensures
        ratio_of(deviations, profile, config) == ONE,
{
    broadcast use vstd::seq_lib::group_to_multiset_ensures;

    if deviations.len() > 0 {
        let sorted = sorted_by_key(deviations);
        lemma_sorted_by_key(deviations);
        lemma_rank(500_000, sorted.len() as int);
        let middle = sorted[rank_of(500_000, sorted.len() as int)];
        assert(sorted.to_multiset().count(middle) > 0);
        assert(deviations.to_multiset().count(middle) > 0);
        assert(deviations.contains(middle));
        assert(middle == 0);
        assert(median_of(deviations) == 0);
        lemma_div_round_exact(0, 1_000_000);
        lemma_round_to_fixed(ONE as int, 10_000);
        if profile.sens > 0 && profile.max_basal > 0 {
            lemma_div_round_exact(0, profile.sens as int);
            lemma_div_round_exact(0, profile.max_basal as int);
            assert(fx_scale(0, 12) == 0);
            assert(fx_div(0, profile.sens as int) == 0);
            assert(fx_div(0, profile.max_basal as int) == 0);
        }
    }
}

/// The rank lies within the values; it is the first for a share of
/// nothing or less and the last for a share of all or more.
proof fn lemma_rank(p: int, n: int)
    requires
        n >= 1,
    ensures
        0 <= rank_of(p, n) <= n - 1,
        p <= 0 ==> rank_of(p, n) == 0,
        p >= 1_000_000 ==> rank_of(p, n) == n - 1,
{
    let product = p * (n - 1);
    assert((p <= 0 ==> product <= 0) && (p >= 1_000_000 ==> product >= (n - 1) * 1_000_000))
        by (nonlinear_arith)
        requires
            product == p * (n - 1),
            n >= 1,
    ;
    lemma_div_round_bounds(product, 1_000_000);
    if p >= 1_000_000 {
        crate::fixed::lemma_div_round_monotone((n - 1) * 1_000_000, product, 1_000_000);
        lemma_div_round_exact(n - 1, 1_000_000);
    }
}

/// The value at the `p`-th share of sorted values.
pub fn percentile(sorted: &Vec<i64>, p: i64) -> (r: i64)
    ensures
        r == percentile_of(sorted@, p as int),
{
    let n: usize = sorted.len();
    if n == 0 {
        return 0;
    }
    proof {
        lemma_rank(p as int, n as int);
    }
    if p <= 0 {
        return sorted[0];
    }
    if p >= ONE {
        return sorted[n - 1];
    }
    proof {
        assert(0 <= p * (n - 1) <= 1_000_000 * (n - 1)) by (nonlinear_arith)
            requires
                0 <= p <= 1_000_000,
                n >= 1,
        ;
    }
    let rank: i128 = div_round_exec((p as i128) * ((n - 1) as i128), 1_000_000);
    let index: usize = if rank > (n - 1) as i128 {
        n - 1
    } else {
        rank as usize
    };
    sorted[index]
}

/// The deviations in rising order.
fn sort_deviations(deviations: &Vec<i64>) -> (r: Vec<i64>)
    ensures
        r@ == sorted_by_key(deviations@),
{
    let mut sorted: Vec<i64> = Vec::new();
    let mut i: usize = 0;
    proof {
        assert(deviations@.subrange(0, 0) =~= Seq::<i64>::empty());
    }
    while i < deviations.len()
        invariant
            i <= deviations.len(),
            sorted@ == sorted_by_key(deviations@.subrange(0, i as int)),
        decreases deviations.len() - i,
    {
        proof {
            let next = deviations@.subrange(0, i + 1);
            assert(next.drop_last() =~= deviations@.subrange(0, i as int));
            assert(next.last() == deviations@[i as int]);
        }
        insert_by_key(&mut sorted, deviations[i]);
        i += 1;
    }
    proof {
        assert(deviations@.subrange(0, deviations@.len() as int) =~= deviations@);
    }
    sorted
}

/// The sensitivity ratio of the deviations.
pub fn calculate_ratio_from_deviations(
    deviations: &Vec<i64>,
    profile: &Profile,
    config: &AutosensConfig,
) -> (r: i64)
    ensures
        r == ratio_of(deviations@, *profile, *config),
        limits_fit(*config) && deviations@.len() > 0 ==> config.autosens_min <= r
            <= config.autosens_max,
{
    proof {
        if limits_fit(*config) && deviations@.len() > 0 {
            lemma_any_ratio_within_limits(deviations@, *profile, *config);
        }
    }
    if deviations.len() == 0 {
        return ONE;
    }
    let sorted: Vec<i64> = sort_deviations(deviations);
    let median: i64 = percentile(&sorted, 500_000);
    let raw: i64 = if profile.sens > 0 && profile.max_basal > 0 {
        add_fx(ONE, div_fx(div_fx(scale_fx(median, 12), profile.sens), profile.max_basal))
    } else {
        ONE
    };
    round_fx(min_fx(max_fx(raw, config.autosens_min), config.autosens_max), 2)
}

} // verus!
