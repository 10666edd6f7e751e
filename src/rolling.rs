//! The rolling-timer interface and the modular tick arithmetic built on it.

use vstd::prelude::*;

verus! {

/// Number of distinct values of a 32-bit tick counter.
pub open spec fn tick_range() -> int {
    0x1_0000_0000
}

/// Ticks that elapse from `start` to `now` on a counter that wraps at `2^32`.
pub open spec fn elapsed_ticks(start: u32, now: u32) -> int {
    (now as int - start as int) % tick_range()
}

/// Whole milliseconds in `ticks` ticks at `rate` ticks per second (floored).
pub open spec fn millis_of(ticks: int, rate: int) -> int {
    ticks * 1000 / rate
}

/// Whole microseconds in `ticks` ticks at `rate` ticks per second (floored).
pub open spec fn micros_of(ticks: int, rate: int) -> int {
    ticks * 1_000_000 / rate
}

/// Elapsed ticks from `start` to `now`, by wraparound subtraction.
pub fn ticks_between(start: u32, now: u32) -> (r: u32)
    ensures
        r as int == elapsed_ticks(start, now),
{
    now.wrapping_sub(start)
}

/// Converts elapsed ticks at `rate` ticks per second to whole milliseconds.
pub fn millis_from_ticks(ticks: u32, rate: u32) -> (r: u64)
    requires
        rate > 0,
    ensures
        r as int == millis_of(ticks as int, rate as int),
{
    assert(ticks as int * 1000 <= 0xFFFF_FFFF * 1000) by (nonlinear_arith);
    let scaled: u64 = (ticks as u64) * 1000;
    scaled / (rate as u64)
}

/// Converts elapsed ticks at `rate` ticks per second to whole microseconds.
pub fn micros_from_ticks(ticks: u32, rate: u32) -> (r: u64)
    requires
        rate > 0,
    ensures
        r as int == micros_of(ticks as int, rate as int),
{
    assert(ticks as int * 1_000_000 <= 0xFFFF_FFFF * 1_000_000) by (nonlinear_arith);
    let scaled: u64 = (ticks as u64) * 1_000_000;
    scaled / (rate as u64)
}

/// Whenever fewer than `2^32` ticks truly pass between two readings, the
/// wraparound difference of the readings is exactly the number that passed,
/// however many times the counter rolled over to reach the second reading.
pub proof fn lemma_elapsed_is_true_count(start: u32, passed: int)
    requires
        0 <= passed < tick_range(),
    ensures
        elapsed_ticks(start, ((start as int + passed) % tick_range()) as u32) == passed,
{
    let now = (start as int + passed) % tick_range();
    assert(0 <= now < tick_range());
    if start as int + passed < tick_range() {
        assert(now == start as int + passed);
    } else {
        assert(now == start as int + passed - tick_range());
    }
}

/// Reading the same tick value twice means no time has elapsed.
pub proof fn lemma_elapsed_from_itself(t: u32)
    ensures
        elapsed_ticks(t, t) == 0,
{
}

/// A source of ticks from a 32-bit counter that wraps to 0 after its maximum.
pub trait RollingTimer {
    /// The fixed rate of the counter, in ticks per second.
    spec fn rate(&self) -> int;

    /// Whether `t` is a tick value that a read of this source can return now.
    spec fn can_read(&self, t: u32) -> bool;

    /// The rate in ticks per second; never zero, never changes.
    fn ticks_per_second(&self) -> (r: u32)
        ensures
            r as int == self.rate(),
            r > 0,
    ;

    /// The current tick value; 0 while the source is not yet ready.
    fn get_ticks(&self) -> (r: u32)
        ensures
            self.can_read(r),
    ;

    /// Whether the source produces real measurements.
    fn is_initialized(&self) -> bool;

    /// Ticks elapsed since the tick value `rhs`, correct across one wrap.
    fn ticks_since(&self, rhs: u32) -> (r: u32)
        ensures
            exists|now: u32| self.can_read(now) && r as int == elapsed_ticks(rhs, now),
    {
        let now = self.get_ticks();
        ticks_between(rhs, now)
    }

    /// Whole milliseconds elapsed since the tick value `rhs`.
    fn millis_since(&self, rhs: u32) -> (r: u64)
        ensures
            exists|now: u32|
                self.can_read(now) && r as int == millis_of(elapsed_ticks(rhs, now), self.rate()),
    {
        let ticks = self.ticks_since(rhs);
        let rate = self.ticks_per_second();
        millis_from_ticks(ticks, rate)
    }

    /// Whole microseconds elapsed since the tick value `rhs`.
    fn micros_since(&self, rhs: u32) -> (r: u64)
        ensures
            exists|now: u32|
                self.can_read(now) && r as int == micros_of(elapsed_ticks(rhs, now), self.rate()),
    {
        let ticks = self.ticks_since(rhs);
        let rate = self.ticks_per_second();
        micros_from_ticks(ticks, rate)
    }
}

} // verus!
