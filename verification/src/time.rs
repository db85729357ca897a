//! Conversion between hardware timer ticks and time.  The platform's
//! timer counts at a fixed frequency; the embedder reads the counter and
//! arms the one-shot timer, and hands the raw tick values to these
//! conversions.
use vstd::prelude::*;

verus! {

/// Ticks per second of the platform timer.
pub const TIMER_FREQUENCY: u64 = 10_000_000;

/// Nanoseconds per second.
pub const NANOS_PER_SEC: u64 = 1_000_000_000;

/// Nanoseconds per timer tick.
pub const NANOS_PER_TICK: u64 = NANOS_PER_SEC / TIMER_FREQUENCY;

/// A point in time, as whole seconds and the nanoseconds within the
/// second.
#[derive(Clone, Copy, Debug, PartialEq, Eq, Structural)]
pub struct TimeValue {
    pub secs: u64,
    pub nanos: u64,
}

impl TimeValue {
    /// The nanoseconds field counts within one second.
    pub open spec fn wf(self) -> bool {
        self.nanos < NANOS_PER_SEC
    }

    /// Split a nanosecond count into whole seconds and the remainder.
    pub fn from_nanos(nanos: u64) -> (t: TimeValue)
        ensures
            t.secs == nanos / NANOS_PER_SEC,
            t.nanos == nanos % NANOS_PER_SEC,
            t.wf(),
    {
        TimeValue { secs: nanos / NANOS_PER_SEC, nanos: nanos % NANOS_PER_SEC }
    }
}

/// Convert a timer tick count to nanoseconds.
pub fn ticks_to_nanos(ticks: u64) -> (nanos: u64)
    requires
        ticks * NANOS_PER_TICK <= u64::MAX,
    ensures
        nanos == ticks * NANOS_PER_TICK,
{
    ticks * NANOS_PER_TICK
}

/// Convert nanoseconds to timer ticks.
pub fn nanos_to_ticks(nanos: u64) -> (ticks: u64)
    ensures
        ticks == nanos / NANOS_PER_TICK,
{
    nanos / NANOS_PER_TICK
}

/// The time in nanoseconds corresponding to a reading of the hardware
/// time counter, which the platform layer supplies.
pub fn current_time_nanos(ticks: u64) -> (nanos: u64)
    requires
        ticks * NANOS_PER_TICK <= u64::MAX,
    ensures
        nanos == ticks * NANOS_PER_TICK,
{
    ticks_to_nanos(ticks)
}

/// The time corresponding to a reading of the hardware time counter,
/// split into seconds and nanoseconds.
pub fn current_time(ticks: u64) -> (t: TimeValue)
    requires
        ticks * NANOS_PER_TICK <= u64::MAX,
    ensures
        t.secs == (ticks * NANOS_PER_TICK) / (NANOS_PER_SEC as int),
        t.nanos == (ticks * NANOS_PER_TICK) % (NANOS_PER_SEC as int),
        t.wf(),
{
    TimeValue::from_nanos(current_time_nanos(ticks))
}

} // verus!
