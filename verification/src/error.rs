//! What the engine rejects.

use vstd::prelude::*;

verus! {

/// Why an operation did not run.
#[derive(Debug, Clone, Copy, PartialEq, Eq, Structural)]
pub enum OrefError {
    /// A time in milliseconds that maps to no calendar instant.
    InvalidTimestamp,
}

/// What went wrong, in words.
pub open spec fn message_text(error: OrefError) -> Seq<char> {
    match error {
        OrefError::InvalidTimestamp => "Invalid timestamp"@,
    }
}

impl OrefError {
    /// What went wrong, in words.
    pub fn message(&self) -> (r: &'static str)
        ensures
            r@ == message_text(*self),
    {
        match self {
            OrefError::InvalidTimestamp => "Invalid timestamp",
        }
    }
}

} // verus!
