//! Lookups in the profile's schedules.

pub mod basal;
pub mod carbs;
pub mod isf;
pub mod targets;

pub use basal::basal_lookup;
pub use carbs::carb_ratio_lookup;
pub use isf::isf_lookup;
pub use isf::isf_lookup_from_schedule;
pub use targets::bg_targets_lookup;
pub use targets::BgTargets;
