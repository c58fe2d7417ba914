//! Lamp counts derived from a time, and the textual lamp diagram.

use crate::time::Instant;
use vstd::prelude::*;

verus! {

/// The lamp counts of the Berlin clock: how many lamps are lit in each of
/// the four counting rows, plus the blinking seconds lamp.
pub struct Clock {
    pub even_seconds: bool,
    pub five_hours: u8,
    pub one_hours: u8,
    pub five_minutes: u8,
    pub one_minutes: u8,
}

/// The lamp counts that a given time decomposes into: hours and minutes are
/// each split by division into a five-count and a one-count, and the seconds
/// lamp is on during even seconds.
pub open spec fn clock_of(t: Instant) -> Clock {
    Clock {
        even_seconds: t.seconds % 2 == 0,
        five_hours: t.hours / 5,
        one_hours: t.hours % 5,
        five_minutes: t.minutes / 5,
        one_minutes: t.minutes % 5,
    }
}

impl Clock {
    /// Every count stays inside its row: at most 4 five-hour, one-hour and
    /// one-minute lamps, at most 11 five-minute lamps.
    pub open spec fn wf(self) -> bool {
        self.five_hours <= 4 && self.one_hours <= 4 && self.five_minutes <= 11
            && self.one_minutes <= 4
    }
}

/// Replaces a value by the remainder of its division and returns the
/// quotient, so that quotient and remainder come out of one call.
pub fn divide_sub(src: &mut u8, rhs: u8) -> (q: u8)
    requires
        rhs > 0,
    ensures
        q == *old(src) / rhs,
        *final(src) == *old(src) % rhs,
{
    let value = *src / rhs;
    *src = *src % rhs;
    value
}

impl From<Instant> for Clock {
    fn from(mut instant: Instant) -> (c: Clock) {
        Clock {
            even_seconds: instant.seconds % 2 == 0,
            five_hours: divide_sub(&mut instant.hours, 5),
            one_hours: instant.hours,
            five_minutes: divide_sub(&mut instant.minutes, 5),
            one_minutes: instant.minutes,
        }
    }
}

impl vstd::std_specs::convert::FromSpecImpl<Instant> for Clock {
    open spec fn obeys_from_spec() -> bool {
        true
    }

    open spec fn from_spec(t: Instant) -> Clock {
        clock_of(t)
    }
}

/// A valid time decomposes into in-range lamp counts.
pub proof fn lemma_clock_of_wf(t: Instant)
    requires
        t.wf(),
    ensures
        clock_of(t).wf(),
{
}

/// Round-trip decomposition: for every valid time, five-count times five plus
/// one-count reconstructs the hours, and likewise the minutes.
pub proof fn lemma_round_trip(t: Instant)
    requires
        t.wf(),
    ensures
        clock_of(t).five_hours * 5 + clock_of(t).one_hours == t.hours,
        clock_of(t).five_minutes * 5 + clock_of(t).one_minutes == t.minutes,
{
}

} // verus!
