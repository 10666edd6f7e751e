use std::cell::Cell;

use groundhog::global_timer::instant_from_ticks;
use groundhog::{CaptureCounter, GlobalRollingTimer, RollingTimer};

struct FakeCounter {
    count: Cell<u32>,
    step: u32,
}

impl CaptureCounter for FakeCounter {
    fn capture(&self) -> u32 {
        let c = self.count.get();
        self.count.set(c.wrapping_add(self.step));
        c
    }

    fn clear(&mut self) {
        self.count.set(0);
    }
}

fn counter(start: u32, step: u32) -> FakeCounter {
    FakeCounter { count: Cell::new(start), step }
}

#[test]
fn unbound_timer_reads_zero() {
    let timer: GlobalRollingTimer<FakeCounter> = GlobalRollingTimer::new();
    for _ in 0..100 {
        assert_eq!(timer.get_ticks(), 0);
        assert!(!timer.is_initialized());
    }
    assert_eq!(timer.ticks_since(5), 0xFFFF_FFFB);
    assert_eq!(timer.ticks_since(0), 0);
    assert_eq!(timer.ticks_per_second(), 1_000_000);
}

#[test]
fn bound_timer_reads_counter() {
    let mut timer = GlobalRollingTimer::new();
    timer.init(counter(42, 1));
    assert!(timer.is_initialized());
    assert_eq!(timer.get_ticks(), 42);
    assert_eq!(timer.get_ticks(), 43);
}

#[test]
fn bound_timer_elapsed_across_wrap() {
    let mut timer = GlobalRollingTimer::new();
    timer.init(counter(3, 1_500_000));
    // 3 - (2^32 - 1_499_997) wraps to 1_500_000
    assert_eq!(timer.ticks_since(0xFFFF_FFFFu32 - 1_499_996), 1_500_000);
    let mut timer = GlobalRollingTimer::new();
    timer.init(counter(1_500_000, 0));
    assert_eq!(timer.millis_since(0), 1500);
    assert_eq!(timer.micros_since(0), 1_500_000);
}

#[test]
fn reset_restarts_the_counter() {
    let mut timer = GlobalRollingTimer::new();
    timer.init(counter(1000, 0));
    assert_eq!(timer.get_ticks(), 1000);
    timer.reset();
    assert_eq!(timer.get_ticks(), 0);
    let mut unbound: GlobalRollingTimer<FakeCounter> = GlobalRollingTimer::new();
    unbound.reset();
    assert!(!unbound.is_initialized());
}

#[test]
fn scheduler_instants() {
    assert_eq!(GlobalRollingTimer::<FakeCounter>::zero(), 0);
    assert_eq!(instant_from_ticks(0), 0);
    assert_eq!(instant_from_ticks(0x7FFF_FFFF), i32::MAX);
    assert_eq!(instant_from_ticks(0x8000_0000), i32::MIN);
    assert_eq!(instant_from_ticks(0xFFFF_FFFF), -1);
    let mut timer = GlobalRollingTimer::new();
    timer.init(counter(0xFFFF_FFFE, 0));
    assert_eq!(timer.now(), -2);
    let mut unbound: GlobalRollingTimer<FakeCounter> = GlobalRollingTimer::new();
    assert_eq!(unbound.now(), 0);
}

#[test]
fn delay_steps() {
    assert!(!GlobalRollingTimer::<FakeCounter>::delay_reached(10, 1009, 1000));
    assert!(GlobalRollingTimer::<FakeCounter>::delay_reached(10, 1010, 1000));
    assert!(GlobalRollingTimer::<FakeCounter>::delay_reached(0xFFFF_FFF0, 1000, 1000));
    assert!(GlobalRollingTimer::<FakeCounter>::delay_reached(7, 7, 0));
    let mut timer = GlobalRollingTimer::new();
    timer.init(counter(0, 400));
    let start = timer.get_ticks();
    assert!(!timer.us_elapsed(start, 1000));
    assert!(!timer.us_elapsed(start, 1000));
    assert!(timer.us_elapsed(start, 1000));
}
