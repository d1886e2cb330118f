//! Elapsed time of a search, in whole seconds.

use vstd::prelude::*;

verus! {

/// The nanoseconds of one second. A clock reading is a number of nanoseconds
/// on a clock that does not go back, counted from a moment of the caller's
/// choice.
pub const NANOS_PER_SECOND: u64 = 1_000_000_000;

/// The whole seconds from `start` to `now`; none if `now` is the earlier.
pub open spec fn whole_seconds(start: u64, now: u64) -> u64 {
    if now >= start {
        ((now - start) / NANOS_PER_SECOND as int) as u64
    } else {
        0
    }
}

/// The start of a search. It is captured once and never changes.
#[derive(Clone, Copy, Debug, PartialEq, Eq)]
pub struct ElapsedTimer {
    started_at: u64,
}

impl ElapsedTimer {
    /// The reading at which the timer was started.
    pub closed spec fn started_at(&self) -> u64 {
        self.started_at
    }

    /// The whole seconds elapsed at the reading `now`.
    pub open spec fn seconds_at(&self, now: u64) -> u64 {
        whole_seconds(self.started_at(), now)
    }

    /// A timer started at the reading `now`.
    pub fn start(now: u64) -> (timer: ElapsedTimer)
        ensures
            timer.started_at() == now,
    {
        ElapsedTimer { started_at: now }
    }

    /// The whole seconds elapsed at the reading `now`. A reading from before
    /// the start counts as no time at all.
    pub fn elapsed_seconds(&self, now: u64) -> (seconds: u64)
        ensures
            seconds == self.seconds_at(now),
    {
        if now >= self.started_at {
            (now - self.started_at) / NANOS_PER_SECOND
        } else {
            0
        }
    }
}

/// No time has elapsed at the moment the timer is started.
pub proof fn elapsed_starts_at_zero(timer: ElapsedTimer)
    ensures
        timer.seconds_at(timer.started_at()) == 0,
{
}

/// The elapsed seconds never decrease as the clock advances.
pub proof fn elapsed_is_monotonic(timer: ElapsedTimer, earlier: u64, later: u64)
    requires
        earlier <= later,
    ensures
        0 <= timer.seconds_at(earlier) <= timer.seconds_at(later),
{
    let start = timer.started_at();
    if earlier >= start {
        assert((earlier - start) / NANOS_PER_SECOND as int <= (later - start)
            / NANOS_PER_SECOND as int) by (nonlinear_arith)
            requires
                0 <= earlier - start <= later - start,
                NANOS_PER_SECOND == 1_000_000_000,
        ;
    }
}

/// After `n` full seconds on the clock, `n` seconds have elapsed.
pub proof fn elapsed_counts_full_seconds(timer: ElapsedTimer, n: u64)
    requires
        timer.started_at() + n * NANOS_PER_SECOND <= u64::MAX,
    ensures
        timer.seconds_at((timer.started_at() + n * NANOS_PER_SECOND) as u64) == n,
{
    assert((n * NANOS_PER_SECOND) / NANOS_PER_SECOND as int == n) by (nonlinear_arith)
        requires
            NANOS_PER_SECOND == 1_000_000_000,
    ;
}

} // verus!
