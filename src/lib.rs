//! A wraparound ("rolling") tick counter abstraction and the arithmetic that
//! measures elapsed time on it correctly across counter overflow.

pub mod rolling;
pub mod global_timer;
pub mod std_timer;

pub use rolling::RollingTimer;
pub use global_timer::{CaptureCounter, GlobalRollingTimer};
pub use std_timer::Timer;
