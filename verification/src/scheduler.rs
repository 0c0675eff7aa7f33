//! Periodic toggle scheduler driven by a free-running cycle counter.
//!
//! The counter is a fixed-width register that wraps around; elapsed time is
//! therefore measured as the wrapping distance from the last toggle to the
//! current reading, which stays correct across a single wraparound. Once the
//! configured interval has elapsed, the scheduler asks for one toggle of the
//! output line and restarts the measurement at the current reading.

use vstd::prelude::*;

verus! {

/// Counter ticks per unit of blink rate: the scheduler's time quantum.
pub const REFERENCE_UNIT: u32 = 1_000_000;

/// Blink rate the scheduler boots with.
pub const DEFAULT_RATE: u8 = 100;

/// One past the largest value of the cycle counter.
pub const COUNTER_MODULUS: u64 = 0x1_0000_0000;

/// The toggle interval, in counter ticks, that a blink rate denotes. Rate 0
/// means an interval of 0 ticks: toggle on every scheduler tick.
pub open spec fn spec_interval(rate: u8) -> u32 {
    ((rate as int) * (REFERENCE_UNIT as int)) as u32
}

/// Wrapping distance, in ticks, from counter reading `last` forward to
/// counter reading `now`.
pub open spec fn spec_elapsed(now: u32, last: u32) -> u32 {
    if now >= last {
        (now - last) as u32
    } else {
        (now - last + COUNTER_MODULUS) as u32
    }
}

/// The counter reading `delta` ticks after the reading `last`, with
/// wraparound.
pub open spec fn spec_advance(last: u32, delta: u32) -> u32 {
    if last + delta <= u32::MAX {
        (last + delta) as u32
    } else {
        (last + delta - COUNTER_MODULUS) as u32
    }
}

/// Law: however the counter wraps, a reading taken `delta` ticks after
/// `last` always measures an elapsed time of exactly `delta` ticks.
pub proof fn lemma_elapsed_wraparound(last: u32, delta: u32)
    ensures
        spec_elapsed(spec_advance(last, delta), last) == delta,
{
}

/// Wrapping distance, in ticks, from counter reading `last` forward to
/// counter reading `now`.
pub fn elapsed_cycles(now: u32, last: u32) -> (elapsed: u32)
    ensures
        elapsed == spec_elapsed(now, last),
{
    if now >= last {
        now - last
    } else {
        now + (u32::MAX - last) + 1
    }
}

/// Scheduler state: the configured toggle interval in counter ticks, and the
/// counter reading at the last toggle.
#[derive(Clone, Copy, Debug, PartialEq, Eq, Structural)]
pub struct Scheduler {
    /// Counter ticks that must elapse between two toggles.
    pub interval: u32,
    /// Counter reading taken when the output line last toggled.
    pub last_toggle: u32,
}

impl Scheduler {
    /// A fresh scheduler at the default rate, with the measurement started
    /// at the counter reading `now`.
    pub fn new(now: u32) -> (s: Scheduler)
        ensures
            s.interval == spec_interval(DEFAULT_RATE),
            s.last_toggle == now,
    {
        Scheduler { interval: DEFAULT_RATE as u32 * REFERENCE_UNIT, last_toggle: now }
    }

    /// Set the toggle interval to `rate` reference units. The last-toggle
    /// mark is kept, so an already-elapsed wait is not restarted.
    pub fn set_interval(&mut self, rate: u8)
        ensures
            final(self).interval == spec_interval(rate),
            final(self).last_toggle == old(self).last_toggle,
    {
        self.interval = rate as u32 * REFERENCE_UNIT;
    }

    /// One scheduler tick at counter reading `now`: report whether the
    /// output line must toggle, and if so restart the measurement at `now`.
    pub fn tick(&mut self, now: u32) -> (toggle: bool)
        ensures
            toggle == (spec_elapsed(now, old(self).last_toggle) >= old(self).interval),
            final(self).interval == old(self).interval,
            final(self).last_toggle == (if toggle {
                now
            } else {
                old(self).last_toggle
            }),
    {
        let elapsed = elapsed_cycles(now, self.last_toggle);
        if elapsed >= self.interval {
            self.last_toggle = now;
            true
        } else {
            false
        }
    }
}

} // verus!
