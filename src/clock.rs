//! A monotonic logical clock over an untrusted hardware counter.

use vstd::prelude::*;

verus! {

/// A hardware source of time, supplied by the integrator.
pub trait ClockSource {
    /// A reading of the hardware counter; its unit is the source's own.
    fn now(&self) -> u64;

    /// The name of the source.
    fn name(&self) -> &'static str;
}

/// The abstract state of a [`SecureClock`]: the last raw reading kept and the
/// number of ticks handed out.
pub struct ClockView {
    pub last_source_time: u64,
    pub ticks: u64,
}

/// The state of a clock that has not ticked.
pub open spec fn fresh_clock() -> ClockView {
    ClockView { last_source_time: 0, ticks: 0 }
}

/// One tick that observed the raw reading `now`: the kept reading never moves
/// back, and the tick count grows by one (it stops at the largest `u64`).
pub open spec fn clock_step(v: ClockView, now: u64) -> ClockView {
    ClockView {
        last_source_time: if now > v.last_source_time { now } else { v.last_source_time },
        ticks: if v.ticks < u64::MAX { (v.ticks + 1) as u64 } else { v.ticks },
    }
}

/// The clock after one tick per reading, in order.
pub open spec fn run_clock(v: ClockView, readings: Seq<u64>) -> ClockView
    decreases readings.len(),
{
    if readings.len() == 0 {
        v
    } else {
        clock_step(run_clock(v, readings.drop_last()), readings.last())
    }
}

/// A clock that never runs backwards, whatever its hardware source does.
pub struct SecureClock<C: ClockSource> {
    source: C,
    last_source_time: u64,
    monotonic_ticks: u64,
}

impl<C: ClockSource> View for SecureClock<C> {
    type V = ClockView;

    closed spec fn view(&self) -> ClockView {
        ClockView { last_source_time: self.last_source_time, ticks: self.monotonic_ticks }
    }
}

impl<C: ClockSource> SecureClock<C> {
    /// A clock over `source` that has not ticked.
    pub fn new(source: C) -> (r: Self)
        ensures
            r@ == fresh_clock(),
    {
        SecureClock { source, last_source_time: 0, monotonic_ticks: 0 }
    }

    /// Reads the hardware source and advances the clock by one tick; returns
    /// the new tick count.
    pub fn tick(&mut self) -> (r: u64)
        ensures
            exists|now: u64| final(self)@ == clock_step(old(self)@, now),
            r == final(self)@.ticks,
    {
        let now = self.source.now();
        self.observe(now)
    }

    /// Advances the clock by one tick that observed the raw reading `now`;
    /// returns the new tick count.
    pub fn observe(&mut self, now: u64) -> (r: u64)
        ensures
            final(self)@ == clock_step(old(self)@, now),
            r == final(self)@.ticks,
    {
        if now > self.last_source_time {
            self.last_source_time = now;
        }
        self.monotonic_ticks = self.monotonic_ticks.saturating_add(1);
        self.monotonic_ticks
    }

    /// The name of the hardware source.
    pub fn source_name(&self) -> &'static str {
        self.source.name()
    }
}

/// A classical oscillator's reading: the raw count of nanoseconds with an
/// artificial jitter of `nanos % 100` added, wrapping at the `u64` bound.
pub fn jittered_reading(nanos: u64) -> (r: u64)
    ensures
        r == (nanos + nanos % 100) % 0x1_0000_0000_0000_0000,
{
    nanos.wrapping_add(nanos % 100)
}

/// Started fresh, the clock's `k`-th tick returns `k`, for any hardware
/// readings: rising, flat or falling.
pub proof fn lemma_ticks_count_calls(readings: Seq<u64>)
    requires
        readings.len() < u64::MAX,
    ensures
        run_clock(fresh_clock(), readings).ticks == readings.len(),
    decreases readings.len(),
{
    if readings.len() > 0 {
        lemma_ticks_count_calls(readings.drop_last());
    }
}

/// A tick never lowers the kept raw reading, and replaces it only by a larger
/// reading.
pub proof fn lemma_raw_reading_never_regresses(v: ClockView, now: u64)
    ensures
        clock_step(v, now).last_source_time >= v.last_source_time,
        clock_step(v, now).last_source_time == v.last_source_time || clock_step(
            v,
            now,
        ).last_source_time == now,
{
}

} // verus!
