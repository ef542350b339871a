//! The time at which a comparison is created.

use crate::record::Timestamp;
use vstd::prelude::*;

verus! {

/// Reads the clock. Calls `Utc::now` of the chrono crate and takes the seconds and
/// nanoseconds of its result with `timestamp` and `timestamp_subsec_nanos`.
/// Nothing is claimed of the time that comes back. The call panics where the
/// system clock stands before the start of 1970.
#[verifier::external_body]
pub(crate) fn now() -> Timestamp {
    let now = chrono::Utc::now();
    Timestamp { secs: now.timestamp(), nanos: now.timestamp_subsec_nanos() }
}

} // verus!
