//! A tick source backed by a free-running 32-bit hardware counter at 1 MHz,
//! which reads 0 until a counter has been bound to it.

use vstd::prelude::*;
use crate::rolling::{elapsed_ticks, ticks_between, RollingTimer};

verus! {

/// Ticks per second of the hardware counter: one tick per microsecond.
pub const HW_TICKS_PER_SECOND: u32 = 1_000_000;

/// Microseconds in one millisecond: the length of each wait step of a
/// millisecond delay.
pub const MICROS_PER_MILLI: u32 = 1000;

/// A free-running counter that wraps on its own at `2^32`.
pub trait CaptureCounter {
    /// Latches the live count and returns it.
    fn capture(&self) -> u32;

    /// Restarts the count from 0.
    fn clear(&mut self);
}

/// A rolling timer over a bound hardware counter; until one is bound it
/// reads tick 0 and reports itself as not initialized.
pub struct GlobalRollingTimer<C> {
    counter: Option<C>,
}

impl<C> GlobalRollingTimer<C> {
    /// Whether a hardware counter has been bound.
    pub closed spec fn is_bound(&self) -> bool {
        self.counter is Some
    }

    /// A timer with no counter bound yet.
    pub fn new() -> (r: Self)
        ensures
            !r.is_bound(),
    {
        GlobalRollingTimer { counter: None }
    }

    /// Binds the free-running `counter`, once; binding a second counter is a
    /// programming error that callers must not commit.
    pub fn init(&mut self, counter: C)
        requires
            !old(self).is_bound(),
        ensures
            final(self).is_bound(),
    {
        self.counter = Some(counter);
    }

    /// The instant of the scheduler's clock that stands at tick 0.
    pub fn zero() -> (r: i32)
        ensures
            r == 0,
    {
        0
    }

    /// Whether `us` microseconds have passed from tick `start` to tick `now`.
    pub fn delay_reached(start: u32, now: u32, us: u32) -> (r: bool)
        ensures
            r == (elapsed_ticks(start, now) >= us as int),
    {
        ticks_between(start, now) >= us
    }
}

/// The scheduler instant for tick value `t`: the same 32 bits read as signed.
pub open spec fn instant_of(t: u32) -> int {
    if t < 0x8000_0000 {
        t as int
    } else {
        t as int - 0x1_0000_0000
    }
}

/// Reinterprets the 32 bits of tick value `t` as a signed instant.
pub fn instant_from_ticks(t: u32) -> (r: i32)
    ensures
        r as int == instant_of(t),
{
    if t < 0x8000_0000 {
        t as i32
    } else {
        ((t - 0x8000_0000) as i32) + i32::MIN
    }
}

impl<C: CaptureCounter> GlobalRollingTimer<C> {
    /// The scheduler's current instant, taken from the current tick value.
    pub fn now(&mut self) -> (r: i32)
        ensures
            exists|t: u32| old(self).can_read(t) && r as int == #[trigger] instant_of(t),
            final(self).is_bound() == old(self).is_bound(),
    {
        let t = self.get_ticks();
        instant_from_ticks(t)
    }

    /// Restarts the bound counter from 0; does nothing while none is bound.
    pub fn reset(&mut self)
        ensures
            final(self).is_bound() == old(self).is_bound(),
    {
        match &mut self.counter {
            Some(c) => c.clear(),
            None => {},
        }
    }

    /// Reads the counter once and tells whether `us` microseconds have
    /// passed since tick `start`: one step of a busy-wait.
    pub fn us_elapsed(&self, start: u32, us: u32) -> (r: bool)
        ensures
            exists|now: u32| self.can_read(now) && r == (elapsed_ticks(start, now) >= us as int),
    {
        let now = self.get_ticks();
        Self::delay_reached(start, now, us)
    }
}

/// Until a counter is bound, the only tick value a read can return is 0,
/// however often it is read.
pub proof fn lemma_unbound_reads_zero<C: CaptureCounter>(timer: GlobalRollingTimer<C>, t: u32)
    requires
        !timer.is_bound(),
    ensures
        timer.can_read(t) <==> t == 0,
{
}

impl<C: CaptureCounter> RollingTimer for GlobalRollingTimer<C> {
    open spec fn rate(&self) -> int {
        HW_TICKS_PER_SECOND as int
    }

    open spec fn can_read(&self, t: u32) -> bool {
        self.is_bound() || t == 0
    }

    fn ticks_per_second(&self) -> (r: u32) {
        HW_TICKS_PER_SECOND
    }

    fn get_ticks(&self) -> (r: u32) {
        match &self.counter {
            Some(c) => c.capture(),
            None => 0,
        }
    }

    fn is_initialized(&self) -> (r: bool)
        ensures
            r == self.is_bound(),
    {
        self.counter.is_some()
    }
}

} // verus!
