//! A software tick source: ticks derived from the host's monotonic clock,
//! counted from a reference instant at a fixed rate.

use std::time::{Duration, Instant};
use once_cell::sync::OnceCell;
use vstd::prelude::*;
use crate::rolling::{tick_range, RollingTimer};

verus! {

#[verifier::external_type_specification]
#[verifier::external_body]
pub struct ExInstant(Instant);

#[verifier::external_type_specification]
#[verifier::external_body]
#[verifier::reject_recursive_types(T)]
pub struct ExOnceCell<T>(OnceCell<T>);

/// Nanoseconds in one second.
pub const NANOS_PER_SECOND: u128 = 1_000_000_000;

/// Whole nanoseconds that one tick lasts at `rate` ticks per second.
pub open spec fn nanos_per_tick(rate: u32) -> int {
    NANOS_PER_SECOND as int / rate as int
}

/// The tick value after `nanos` nanoseconds at `rate`, masked to 32 bits.
pub open spec fn tick_at(nanos: u128, rate: u32) -> int {
    (nanos as int / nanos_per_tick(rate)) % tick_range()
}

/// Relies on `Instant::now`: reads the host's monotonic clock.
#[verifier::external_body]
fn clock_now() -> Instant {
    Instant::now()
}

/// Relies on `once_cell::sync::OnceCell::get_or_init`: the instant held by
/// `epoch`, which the first call in the process sets to its `candidate`
/// (exactly once, even when threads race) and every later call returns
/// unchanged.
#[verifier::external_body]
fn settle_epoch(epoch: &OnceCell<Instant>, candidate: Instant) -> Instant {
    *epoch.get_or_init(|| candidate)
}

/// Relies on `Instant::checked_duration_since`: the time from `earlier` to
/// `later`, or nothing where `earlier` is the later of the two.
#[verifier::external_body]
fn checked_since(later: &Instant, earlier: &Instant) -> Option<Duration> {
    later.checked_duration_since(*earlier)
}

/// Relies on `Duration::as_nanos`: the whole nanoseconds of `d`.
#[verifier::external_body]
fn whole_nanos(d: &Duration) -> u128 {
    d.as_nanos()
}

/// The tick value after `nanos` nanoseconds of real time at `rate` ticks per
/// second: nanoseconds divided by the truncated nanoseconds per tick, then
/// masked to the counter width.
pub fn ticks_from_nanos(nanos: u128, rate: u32) -> (r: u32)
    requires
        0 < rate,
        rate as u128 <= NANOS_PER_SECOND,
    ensures
        r as int == tick_at(nanos, rate),
{
    let per_tick: u128 = NANOS_PER_SECOND / (rate as u128);
    assert(per_tick >= 1) by (nonlinear_arith)
        requires
            per_tick == NANOS_PER_SECOND / (rate as u128),
            0 < rate,
            rate as u128 <= NANOS_PER_SECOND,
    ;
    let div: u128 = nanos / per_tick;
    let low: u128 = div & 0xFFFF_FFFF;
    assert(low == div % 0x1_0000_0000) by (bit_vector)
        requires
            low == div & 0xFFFF_FFFF,
    ;
    low as u32
}

/// The tick value for a reading of the clock `elapsed` nanoseconds after the
/// reference instant, or for no reading where the clock stood before that
/// instant, which counts as no time elapsed.
pub fn ticks_after(elapsed: Option<u128>, rate: u32) -> (r: u32)
    requires
        0 < rate,
        rate as u128 <= NANOS_PER_SECOND,
    ensures
        r as int == tick_at(
            match elapsed {
                Some(n) => n,
                None => 0,
            },
            rate,
        ),
{
    match elapsed {
        Some(n) => ticks_from_nanos(n, rate),
        None => ticks_from_nanos(0, rate),
    }
}

/// A software tick source running at `TPS` ticks per second, counted from a
/// reference instant.
#[derive(Clone, Copy)]
pub struct Timer<const TPS: u32> {
    epoch: &'static OnceCell<Instant>,
}

impl<const TPS: u32> Timer<TPS> {
    /// The rate is positive and no finer than one tick per nanosecond.
    #[verifier::type_invariant]
    pub closed spec fn valid_rate(&self) -> bool {
        0 < TPS && TPS as u128 <= NANOS_PER_SECOND
    }

    /// A timer whose ticks count from the instant held by `epoch`, which the
    /// first reading of any timer sharing it sets. Timers that share `epoch` read the same tick values
    /// at the same moment.
    pub fn new(epoch: &'static OnceCell<Instant>) -> (r: Self)
        requires
            0 < TPS,
            TPS as u128 <= NANOS_PER_SECOND,
        ensures
            r.epoch() == epoch,
    {
        Timer { epoch }
    }

    /// The process-wide cell holding the instant that tick 0 stands for.
    pub closed spec fn epoch(&self) -> &'static OnceCell<Instant> {
        self.epoch
    }
}

impl<const TPS: u32> RollingTimer for Timer<TPS> {
    open spec fn rate(&self) -> int {
        TPS as int
    }

    open spec fn can_read(&self, t: u32) -> bool {
        exists|nanos: u128| t as int == #[trigger] tick_at(nanos, TPS)
    }

    fn ticks_per_second(&self) -> (r: u32) {
        proof {
            use_type_invariant(self);
        }
        TPS
    }

    fn get_ticks(&self) -> (r: u32) {
        proof {
            use_type_invariant(self);
        }
        let now = clock_now();
        let epoch = settle_epoch(self.epoch, now);
        let elapsed: Option<u128> = match checked_since(&now, &epoch) {
            Some(d) => Some(whole_nanos(&d)),
            None => None,
        };
        ticks_after(elapsed, TPS)
    }

    /// Always true: the software source needs no setup.
    fn is_initialized(&self) -> (r: bool)
        ensures
            r,
    {
        true
    }
}

} // verus!
