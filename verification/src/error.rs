//! The error taxonomy shared by every field validator and boundary
//! conversion in the domain core.

use vstd::prelude::*;

verus! {

/// A failure while validating a field or converting a stored row.
///
/// Every construction failure is recoverable and is surfaced as a `Result`;
/// no validator panics.
#[derive(Debug, Clone, PartialEq, Eq)]
pub enum ClipError {
    /// A malformed identifier string.
    InvalidId,
    /// Clip content was empty or whitespace-only.
    EmptyContent,
    /// A password could not be converted into its stored form.
    InvalidPassword,
    /// Storage handed back a negative hit count.
    CountRangeError,
    /// A point in time could not be converted between representations.
    TimeConversionError,
    /// The backing store failed; the message describes the underlying fault.
    StorageError(String),
}

} // verus!
