//! Instants and durations in ticks of the `embassy-time` clock.
//!
//! The crate is built with the tick rate of one megahertz, so a tick is one
//! microsecond. The unit conversions and the clock itself come from
//! `embassy-time`; sums, differences and comparisons are on the tick counts.

use vstd::prelude::*;

verus! {

/// Ticks per second of the `embassy-time` clock.
pub const TICK_HZ: u64 = 1_000_000;

#[derive(Clone, Copy, Debug, PartialEq, Eq, Structural)]
pub struct Duration {
    pub ticks: u64,
}

#[derive(Clone, Copy, Debug, PartialEq, Eq, Structural)]
pub struct Instant {
    pub ticks: u64,
}

/// The tick count of the period of a frequency of `hz`, rounded to the nearest
/// tick, and one tick for frequencies that the clock cannot resolve.
pub open spec fn period_ticks(hz: int) -> int {
    if hz >= TICK_HZ {
        1
    } else {
        (TICK_HZ + hz / 2) / hz
    }
}

impl Duration {
    pub fn from_ticks(ticks: u64) -> (duration: Duration)
        ensures
            duration.ticks == ticks,
    {
        Duration { ticks }
    }

    /// Calls `embassy_time::Duration::from_secs`: the seconds times the tick rate.
    #[verifier::external_body]
    pub(crate) fn from_secs(secs: u64) -> (duration: Duration)
        requires
            secs * TICK_HZ <= u64::MAX,
        ensures
            duration.ticks == secs * TICK_HZ,
    {
        Duration { ticks: embassy_time::Duration::from_secs(secs).as_ticks() }
    }

    /// Calls `embassy_time::Duration::from_millis`: a millisecond is a thousand
    /// ticks of the one-megahertz clock.
    #[verifier::external_body]
    pub(crate) fn from_millis(millis: u64) -> (duration: Duration)
        requires
            millis * 1_000 <= u64::MAX,
        ensures
            duration.ticks == millis * 1_000,
    {
        Duration { ticks: embassy_time::Duration::from_millis(millis).as_ticks() }
    }

    /// Calls `embassy_time::Duration::from_micros`: a microsecond is one tick of
    /// the one-megahertz clock. The rounding step of the conversion overflows on
    /// the largest count.
    #[verifier::external_body]
    pub(crate) fn from_micros(micros: u64) -> (duration: Duration)
        requires
            micros < u64::MAX,
        ensures
            duration.ticks == micros,
    {
        Duration { ticks: embassy_time::Duration::from_micros(micros).as_ticks() }
    }

    /// Calls `embassy_time::Duration::from_hz`: the nearest tick count to the
    /// period, one tick at least. It divides by the frequency, which must not
    /// be zero.
    #[verifier::external_body]
    pub(crate) fn from_hz(hz: u64) -> (duration: Duration)
        requires
            hz > 0,
        ensures
            duration.ticks == period_ticks(hz as int),
    {
        Duration { ticks: embassy_time::Duration::from_hz(hz).as_ticks() }
    }

    /// Calls `embassy_time::Duration::as_millis`: whole milliseconds, rounded down.
    #[verifier::external_body]
    pub(crate) fn as_millis(self) -> (millis: u64)
        ensures
            millis == self.ticks / 1_000,
    {
        embassy_time::Duration::from_ticks(self.ticks).as_millis()
    }

    /// Calls `embassy_time::Duration::as_micros`: at one megahertz, the tick count.
    #[verifier::external_body]
    pub(crate) fn as_micros(self) -> (micros: u64)
        ensures
            micros == self.ticks,
    {
        embassy_time::Duration::from_ticks(self.ticks).as_micros()
    }

    /// The shorter of two durations.
    pub fn min(self, other: Duration) -> (shorter: Duration)
        ensures
            shorter == (if other.ticks < self.ticks {
                other
            } else {
                self
            }),
    {
        if other.ticks < self.ticks {
            other
        } else {
            self
        }
    }
}

impl Instant {
    pub fn from_ticks(ticks: u64) -> (instant: Instant)
        ensures
            instant.ticks == ticks,
    {
        Instant { ticks }
    }

    /// The instant at which the clock started.
    pub fn earliest() -> (instant: Instant)
        ensures
            instant.ticks == 0,
    {
        Instant { ticks: 0 }
    }

    /// Calls `embassy_time::Instant::now`. What the clock shows is not known in
    /// advance, so nothing is claimed of the result.
    #[verifier::external_body]
    pub(crate) fn now() -> (instant: Instant) {
        Instant { ticks: embassy_time::Instant::now().as_ticks() }
    }

    /// Calls `embassy_time::Instant::as_millis`: whole milliseconds since the
    /// clock started, rounded down.
    #[verifier::external_body]
    pub(crate) fn as_millis(self) -> (millis: u64)
        ensures
            millis == self.ticks / 1_000,
    {
        embassy_time::Instant::from_ticks(self.ticks).as_millis()
    }

    /// Calls `embassy_time::Instant::as_micros`: at one megahertz, the tick count.
    #[verifier::external_body]
    pub(crate) fn as_micros(self) -> (micros: u64)
        ensures
            micros == self.ticks,
    {
        embassy_time::Instant::from_ticks(self.ticks).as_micros()
    }

    pub fn plus(self, duration: Duration) -> (later: Instant)
        requires
            self.ticks + duration.ticks <= u64::MAX,
        ensures
            later.ticks == self.ticks + duration.ticks,
    {
        Instant { ticks: self.ticks + duration.ticks }
    }

    pub fn duration_since(self, before: Instant) -> (elapsed: Duration)
        requires
            before.ticks <= self.ticks,
        ensures
            elapsed.ticks == self.ticks - before.ticks,
    {
        Duration { ticks: self.ticks - before.ticks }
    }

    /// The earlier of two instants.
    pub fn min(self, other: Instant) -> (sooner: Instant)
        ensures
            sooner == (if other.ticks < self.ticks {
                other
            } else {
                self
            }),
    {
        if other.ticks < self.ticks {
            other
        } else {
            self
        }
    }
}

/// A frequency that the clock cannot resolve has the shortest period.
pub proof fn law_shortest_period_is_one_tick(hz: int)
    requires
        hz >= 1_000_000,
    ensures
        period_ticks(hz) == 1,
{
}

/// A period is the nearest number of ticks to a second divided by its frequency,
/// as long as the clock can tell it from nothing.
pub proof fn law_period_is_the_nearest(hz: int)
    requires
        0 < hz < 1_000_000,
    ensures
        -hz < 2 * (hz * period_ticks(hz) - 1_000_000) <= hz,
        period_ticks(hz) >= 1,
{
    let p: int = period_ticks(hz);
    assert(hz * p <= 1_000_000 + hz / 2 < hz * p + hz) by (nonlinear_arith)
        requires
            hz > 0,
            p == (1_000_000 + hz / 2) / hz,
    ;
    if p < 1 {
        assert(hz * p <= 0) by (nonlinear_arith)
            requires
                p <= 0,
                hz > 0,
        ;
    }
}

/// Times add up: an instant after a duration lies that duration later, and the
/// smaller of two is never larger than either.
pub proof fn law_times_add_up()
    ensures
        forall|at: Instant, duration: Duration, later: Instant| #[trigger]
            call_ensures(Instant::plus, (at, duration), later) ==> later.ticks - at.ticks
                == duration.ticks,
        forall|at: Instant, before: Instant, elapsed: Duration| #[trigger]
            call_ensures(Instant::duration_since, (at, before), elapsed) ==> before.ticks
                + elapsed.ticks == at.ticks,
        forall|a: Instant, b: Instant, sooner: Instant| #[trigger]
            call_ensures(Instant::min, (a, b), sooner) ==> sooner.ticks <= a.ticks && sooner.ticks
                <= b.ticks && (sooner == a || sooner == b),
        forall|a: Duration, b: Duration, shorter: Duration| #[trigger]
            call_ensures(Duration::min, (a, b), shorter) ==> shorter.ticks <= a.ticks
                && shorter.ticks <= b.ticks && (shorter == a || shorter == b),
        forall|ticks: u64, at: Instant| #[trigger]
            call_ensures(Instant::from_ticks, (ticks,), at) ==> at.ticks == ticks,
        forall|ticks: u64, duration: Duration| #[trigger]
            call_ensures(Duration::from_ticks, (ticks,), duration) ==> duration.ticks == ticks,
        forall|at: Instant| #[trigger]
            call_ensures(Instant::earliest, (), at) ==> at.ticks == 0,
{
}

} // verus!
