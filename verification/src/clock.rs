//! The pacing clock: turns a requested frame rate into a target frame
//! interval and into the per-frame delay value stored with each captured
//! frame.
//!
//! The clock itself never sleeps; it only computes.  Whoever drives a capture
//! loop measures how much time really passed, asks [`FpsClock::sleep_time`]
//! how long to suspend, and reports the measured elapsed time to
//! [`FpsClock::tick`].  The delay stored with a frame is derived from that
//! elapsed time, so a slow tick yields a proportionally longer display
//! duration.
//!
//! Rounding rule, fixed so that timing values are reproducible: a tick's
//! total time is `max(target interval, elapsed)` nanoseconds, and the delay
//! in centiseconds is that total divided by 10^7, truncated, saturating at
//! `u16::MAX`.

use vstd::prelude::*;

verus! {

/// Nanoseconds in one second.
pub const NANOS_PER_SECOND: u64 = 1_000_000_000;

/// Nanoseconds in one millisecond.
pub const NANOS_PER_MILLISECOND: u64 = 1_000_000;

/// Nanoseconds in one centisecond, the delay unit of animated images.
pub const NANOS_PER_CENTISECOND: u64 = 10_000_000;

/// Units in which the clock reports its target frame interval.
#[derive(Clone, Copy, PartialEq, Eq, Structural, Debug)]
pub enum TimeUnit {
    Millisecond,
    Nanosecond,
}

/// Target frame interval in nanoseconds for a requested frame rate.
/// A rate of zero means uncapped capture and yields a zero-length interval.
pub open spec fn spec_interval(fps: u32) -> int {
    if fps == 0 {
        0
    } else {
        NANOS_PER_SECOND as int / fps as int
    }
}

/// Total time accounted to one tick: the measured elapsed time, but never
/// less than the target interval.
pub open spec fn spec_total_tick(interval: u64, elapsed: u64) -> u64 {
    if elapsed < interval {
        interval
    } else {
        elapsed
    }
}

/// Per-frame delay in centiseconds for a tick whose total time is `nanos`:
/// truncating division, saturating at `u16::MAX`.
pub open spec fn spec_delay(nanos: u64) -> u16 {
    if nanos as int / NANOS_PER_CENTISECOND as int > u16::MAX as int {
        u16::MAX
    } else {
        (nanos as int / NANOS_PER_CENTISECOND as int) as u16
    }
}

/// The state of a freshly built clock for a requested frame rate.
pub open spec fn spec_clock(fps: u32) -> ClockView {
    ClockView { fps, interval: spec_interval(fps) as u64, last_tick: 0 }
}

/// Mathematical state of a pacing clock.
#[verifier::ext_equal]
pub struct ClockView {
    /// The requested frame rate.
    pub fps: u32,
    /// Target frame interval in nanoseconds.
    pub interval: u64,
    /// Total time of the most recent tick, in nanoseconds; zero before the
    /// first tick.
    pub last_tick: u64,
}

/// The pacing clock.  It records the requested frame rate, the target frame
/// interval derived from it, and the total time of the most recent tick.
#[derive(Clone, Copy, Debug)]
pub struct FpsClock {
    fps: u32,
    interval: u64,
    last_tick: u64,
}

impl View for FpsClock {
    type V = ClockView;

    closed spec fn view(&self) -> ClockView {
        ClockView { fps: self.fps, interval: self.interval, last_tick: self.last_tick }
    }
}

impl FpsClock {
    /// Create a clock for the requested frame rate.  A rate of zero means
    /// uncapped capture: every interval the clock computes is zero, and no
    /// division by zero occurs.
    pub fn new(fps: u32) -> (r: FpsClock)
        ensures
            r@ == spec_clock(fps),
    {
        let interval: u64 = if fps == 0 {
            0
        } else {
            NANOS_PER_SECOND / (fps as u64)
        };
        let r = FpsClock { fps, interval, last_tick: 0 };
        proof {
            assert(r@ =~= spec_clock(fps));
        }
        r
    }

    /// The target frame interval in the requested unit (truncating for
    /// milliseconds).
    pub fn get_fps(&self, unit: TimeUnit) -> (r: u64)
        ensures
            unit == TimeUnit::Nanosecond ==> r == self@.interval,
            unit == TimeUnit::Millisecond ==> r == self@.interval as int / NANOS_PER_MILLISECOND as int,
    {
        match unit {
            TimeUnit::Nanosecond => self.interval,
            TimeUnit::Millisecond => self.interval / NANOS_PER_MILLISECOND,
        }
    }

    /// How long a driver should suspend after `elapsed` nanoseconds have
    /// already passed in the current tick: the remainder of the target
    /// interval, or nothing once the interval is spent.
    pub fn sleep_time(&self, elapsed: u64) -> (r: u64)
        ensures
            r == if elapsed < self@.interval {
                self@.interval - elapsed
            } else {
                0
            },
    {
        if elapsed < self.interval {
            self.interval - elapsed
        } else {
            0
        }
    }

    /// Close the current tick: account `max(interval, elapsed)` nanoseconds
    /// to it, remember that total for the delay computation, and return it.
    pub fn tick(&mut self, elapsed: u64) -> (r: u64)
        ensures
            r == spec_total_tick(old(self)@.interval, elapsed),
            final(self)@ == (ClockView { last_tick: r, ..old(self)@ }),
    {
        let total: u64 = if elapsed < self.interval {
            self.interval
        } else {
            elapsed
        };
        self.last_tick = total;
        total
    }

    /// The delay value, in centiseconds, derived from the most recent tick.
    pub fn delay(&self) -> (r: u16)
        ensures
            r == spec_delay(self@.last_tick),
    {
        let centis: u64 = self.last_tick / NANOS_PER_CENTISECOND;
        if centis > u16::MAX as u64 {
            u16::MAX
        } else {
            centis as u16
        }
    }
}

} // verus!
