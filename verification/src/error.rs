//! The error reported by every fallible operation of the toolkit.

use vstd::prelude::*;

verus! {

/// Why an operation refused its input.
///
/// Every failure is local and synchronous: it is returned before any pixel is
/// written, and nothing is retried.
#[derive(Debug, Clone, Copy, PartialEq, Eq, Structural)]
pub enum GraphicsError {
    /// The input breaks one of the documented conditions: an empty data
    /// series, a zero dimension, label and value counts that differ, an
    /// unknown chart-kind name, or a shape that does not fit the coordinate
    /// space.
    InvalidInput,
}

impl GraphicsError {
    /// A short description of the failure, for messages.
    pub fn message(&self) -> (text: &'static str)
        ensures
            text@ == "invalid input"@,
    {
        "invalid input"
    }
}

} // verus!
