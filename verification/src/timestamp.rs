//! Points in time, held as plain values.

use vstd::prelude::*;

verus! {

/// A UTC instant: whole seconds since the Unix epoch and the nanoseconds
/// within that second (as `chrono::DateTime<Utc>` reports them).
#[derive(Debug, Clone, Copy, PartialEq, Eq, Structural)]
pub struct Timestamp {
    /// Seconds since 1970-01-01T00:00:00Z.
    pub secs: i64,
    /// Nanoseconds within the second.
    pub nanos: u32,
}

} // verus!
