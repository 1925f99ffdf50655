//! The decision engine of a closed-loop insulin controller.
//!
//! One invocation takes the patient's profile, the recent glucose readings
//! and the pump's treatment history, and gives one recommendation: a
//! temporary basal rate and, where due, a micro bolus. The engine is a
//! pipeline of pure functions: `insulin` holds the action curves of a single
//! dose, `iob` sums the doses to insulin on board, `cob` and `autosens` read
//! carb absorption and sensitivity off the deviations of glucose, and
//! `determine_basal` decides.
//!
//! Every quantity is a count of millionths in an `i64` (see `fixed`); every
//! time is Unix milliseconds (see `time`). Each function states what it
//! returns over mathematical integers and sequences, and is proved to
//! return just that.

pub mod autosens;
pub mod cob;
pub mod determine_basal;
pub mod error;
pub mod exp;
pub mod fixed;
pub mod insulin;
pub mod iob;
pub mod order;
pub mod profile;
pub mod text;
pub mod time;
pub mod types;
pub mod utils;
