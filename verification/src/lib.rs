//! Tick-based time keeping on top of a free-running hardware counter.
//!
//! A platform supplies a clock source: a counter that increments at a fixed,
//! positive rate ("ticks per second"). This crate builds a small value algebra
//! on such a counter: conversions between ticks and natural time units,
//! [`Duration`] for spans of time, and [`Instant`] for points in time, with
//! total, overflow-aware arithmetic over both. Each value type is tagged with
//! the clock it is measured against, so values from different clocks cannot
//! be mixed. Busy-wait delays are left to thin helpers outside the library,
//! built on nothing but [`Instant`]'s ordering.

use vstd::prelude::*;

pub mod conv;
pub mod duration;
pub mod instant;

pub use duration::Duration;
pub use instant::Instant;

verus! {

/// A clock source: a free-running counter together with its fixed rate.
///
/// Implementors promise that the counter is monotonically non-decreasing for
/// the lifetime of the process and that the rate is positive and fixed; a
/// clock whose rate could be zero must be rejected before it is given this
/// trait.
pub trait ClockTick {
    /// The clock's fixed rate, in ticks per second, as specifications see it.
    spec fn rate() -> u64;

    /// Return elapsed ticks since start.
    fn ticks() -> u64;

    /// Return the number of ticks per second.
    fn ticks_per_second() -> (r: u64)
        ensures
            r == Self::rate(),
            r > 0,
    ;
}

} // verus!
