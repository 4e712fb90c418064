//! The error surfaced when a base cell is built from an out-of-range value.

use vstd::prelude::*;

verus! {

/// Failure of the validated conversion from an integer to a base cell.
///
/// Carries the offending value together with a short reason.
#[derive(Clone, Copy, Debug, PartialEq, Eq)]
pub struct InvalidBaseCell {
    /// The value that was rejected.
    pub value: u8,
    /// Why the value was rejected.
    pub reason: &'static str,
}

impl InvalidBaseCell {
    /// Builds the error for the given offending value.
    pub fn new(value: u8, reason: &'static str) -> (r: Self)
        ensures
            r.value == value,
            r.reason == reason,
    {
        Self { value, reason }
    }
}

} // verus!
