//! A validated wall-clock time of day.

use vstd::prelude::*;

verus! {

/// A time of day: hours 0-23, minutes 0-59, seconds 0-59.
///
/// The bounds are the type's invariant: both constructors establish it, and
/// the fields are never mutated afterwards.
pub struct Instant {
    pub hours: u8,
    pub minutes: u8,
    pub seconds: u8,
}

impl Instant {
    /// The invariant: every component lies inside its wall-clock range.
    pub open spec fn wf(self) -> bool {
        self.hours < 24 && self.minutes < 60 && self.seconds < 60
    }

    /// Constructs a time from components already known to be in range.
    /// Out-of-range components are a caller error and are excluded up front.
    pub fn new(hours: u8, minutes: u8, seconds: u8) -> (t: Instant)
        requires
            hours < 24,
            minutes < 60,
            seconds < 60,
        ensures
            t.hours == hours,
            t.minutes == minutes,
            t.seconds == seconds,
            t.wf(),
    {
        Instant { hours, minutes, seconds }
    }

    /// Checked construction: `Some` exactly when every component is in range,
    /// for callers whose input has not been validated yet.
    pub fn try_new(hours: u8, minutes: u8, seconds: u8) -> (r: Option<Instant>)
        ensures
            r is Some <==> (hours < 24 && minutes < 60 && seconds < 60),
            r matches Some(t) ==> t.hours == hours && t.minutes == minutes
                && t.seconds == seconds && t.wf(),
    {
        if hours < 24 && minutes < 60 && seconds < 60 {
            Some(Instant { hours, minutes, seconds })
        } else {
            None
        }
    }
}

} // verus!
