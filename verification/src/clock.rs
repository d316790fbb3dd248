//! Capture times.

use vstd::prelude::*;

verus! {

/// A moment in UTC, held as `chrono::DateTime<Utc>` gives it out: `secs` is
/// what `timestamp()` returns, the whole seconds since 1970-01-01T00:00:00Z,
/// and `nanos` is what `timestamp_subsec_nanos()` returns, the nanoseconds
/// since the last second boundary. `DateTime::from_timestamp(secs, nanos)`
/// leads back to the same moment.
#[derive(Debug, Clone, Copy, PartialEq, Eq, Structural)]
pub struct Timestamp {
    pub secs: i64,
    pub nanos: u32,
}

/// `chrono::Utc::now`, taken apart by `DateTime::timestamp` and
/// `DateTime::timestamp_subsec_nanos`: the current time of the system clock.
/// Nothing is claimed of the value, which differs from call to call. chrono
/// does not return from it on a machine whose clock stands before 1970.
#[verifier::external_body]
pub(crate) fn now() -> (t: Timestamp)
{
    let moment = chrono::Utc::now();
    Timestamp { secs: moment.timestamp(), nanos: moment.timestamp_subsec_nanos() }
}

} // verus!
