//! The current time, which comes from outside the library.

use vstd::prelude::*;
use crate::delta::Timestamp;
use chrono::{Datelike, TimeZone, Timelike};

verus! {

/// Relies on `std::time::SystemTime::now` and `duration_since(UNIX_EPOCH)`:
/// the current time since the epoch, or `None` when the clock reads before
/// it; the sub-second part is under a second.
#[verifier::external_body]
pub(crate) fn now_utc() -> (r: Option<Timestamp>)
    ensures
        r.is_some() ==> r.unwrap().valid(),
{
    let d = std::time::SystemTime::now().duration_since(std::time::UNIX_EPOCH).ok()?;
    Some(Timestamp { secs: i64::try_from(d.as_secs()).ok()?, nanos: d.subsec_nanos() })
}

/// The current time, or the epoch when the clock cannot be read.
pub(crate) fn now_or_epoch() -> (r: Timestamp) {
    match now_utc() {
        Some(t) => t,
        None => Timestamp { secs: 0, nanos: 0 },
    }
}

/// A local date and time of day.
#[derive(Debug, Clone, Copy, PartialEq, Eq, Structural)]
pub struct LocalTime {
    pub year: i32,
    pub month: u32,
    pub day: u32,
    pub hour: u32,
    pub minute: u32,
    pub second: u32,
}

impl LocalTime {
    pub open spec fn valid(self) -> bool {
        &&& 1 <= self.month <= 12
        &&& 1 <= self.day <= 31
        &&& self.hour < 24
        &&& self.minute < 60
        &&& self.second < 60
    }
}

/// Relies on chrono's `Local` time zone (`TimeZone::timestamp_opt`) and its
/// `Datelike`/`Timelike` fields: the local date and time of the current
/// system time, or `None` when the clock reads before the epoch or the zone
/// gives no single local time.
#[verifier::external_body]
pub(crate) fn local_now() -> (r: Option<LocalTime>)
    ensures
        r.is_some() ==> r.unwrap().valid(),
{
    let d = std::time::SystemTime::now().duration_since(std::time::UNIX_EPOCH).ok()?;
    let t = chrono::Local.timestamp_opt(i64::try_from(d.as_secs()).ok()?, d.subsec_nanos()).single()?;
    Some(LocalTime { year: t.year(), month: t.month(), day: t.day(), hour: t.hour(), minute: t.minute(), second: t.second() })
}

} // verus!
