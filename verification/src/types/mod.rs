//! The records that the engine consumes and produces.

pub mod autosens;
pub mod cob;
pub mod glucose;
pub mod iob;
pub mod profile;
pub mod recommendation;
pub mod treatment;

pub use autosens::AutosensData;
pub use cob::COBResult;
pub use cob::MealData;
pub use glucose::GlucoseReading;
pub use glucose::GlucoseStatus;
pub use glucose::GlucoseTrend;
pub use iob::IOBContrib;
pub use iob::IOBData;
pub use iob::TempBasalState;
pub use profile::BasalScheduleEntry;
pub use profile::ISFEntry;
pub use profile::ISFProfile;
pub use profile::Profile;
pub use recommendation::DetermineBasalResult;
pub use treatment::CurrentTemp;
pub use treatment::PumpHistoryEvent;
pub use treatment::TempTarget;
pub use treatment::Treatment;
