//! The registration clock of a running service: the system's UTC time.
use vstd::prelude::*;
use crate::application::user_account::service::RegistrationClock;
use crate::domain::calendar::{utc_calendar_day, Timestamp};

verus! {

/// `chrono::Utc::now`, as seconds since the Unix epoch and the nanoseconds within that
/// second. Which instant is read is not stated: it is whatever the system clock reads.
/// chrono documents that `DateTime::from_timestamp` round-trips `timestamp` and
/// `timestamp_subsec_nanos`, so the reading always has a UTC calendar day.
#[verifier::external_body]
fn system_utc_now() -> (now: Timestamp)
    ensures
        utc_calendar_day(now.seconds, now.nanos) is Some,
{
    let now = chrono::Utc::now();
    Timestamp { seconds: now.timestamp(), nanos: now.timestamp_subsec_nanos() }
}

/// Reads the system clock.
pub struct SystemRegistrationClock;

impl RegistrationClock for SystemRegistrationClock {
    /// The current instant; it always falls on a UTC calendar day.
    fn now(&self) -> (now: Timestamp)
        ensures
            utc_calendar_day(now.seconds, now.nanos) is Some,
    {
        system_utc_now()
    }
}

} // verus!
