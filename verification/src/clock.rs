//! Points in time, and the reading of the clock.

use vstd::prelude::*;

verus! {

/// A point in time on the UTC scale: whole seconds since the start of 1970,
/// and the nanoseconds into that second.
#[derive(Clone, Copy, Debug, PartialEq, Eq, Structural)]
pub struct Timestamp {
    pub secs: i64,
    pub nanos: u32,
}

impl Timestamp {
    /// What every reading of the system clock satisfies: it lies at or after
    /// the start of 1970, and its nanoseconds stay below one second.
    pub open spec fn is_reading(&self) -> bool {
        self.secs >= 0 && self.nanos < 1_000_000_000
    }
}

/// Reads the clock with `chrono::Utc::now` and takes the result apart with
/// `DateTime::timestamp` and `DateTime::timestamp_subsec_nanos`.
///
/// Trusted: the value depends on the moment of the call, so only the bounds
/// that `now` keeps for every reading are stated. It builds its result from
/// the time elapsed since the start of 1970, which is never negative and
/// whose sub-second part is less than a second.
#[verifier::external_body]
pub(crate) fn utc_now() -> (now: Timestamp)
    ensures
        now.is_reading(),
{
    let now = chrono::Utc::now();
    Timestamp { secs: now.timestamp(), nanos: now.timestamp_subsec_nanos() }
}

} // verus!
