use vstd::prelude::*;

verus! {

/// The ways a whole query can fail. Per-line parse failures are never
/// reported: a malformed line is silently dropped from the results.
#[derive(Clone, Copy, Debug, PartialEq, Eq, Structural)]
pub enum LogError {
    /// A non-empty date-time bound did not parse as an RFC 3339 timestamp.
    BadInput,
    /// No candidate log file was found in the given directory.
    NotFound,
}

} // verus!
