//! The progress reporter: a live count of elapsed seconds that runs beside
//! the traversals until it is told to stop.
//!
//! The reporter polls. On each tick its driver checks, without blocking,
//! whether the stop signal has arrived, reads the clock, and asks
//! [`ProgressReporter::tick`] what to do.

use vstd::prelude::*;
use crate::timer::ElapsedTimer;

verus! {

/// The pause between two ticks, in milliseconds.
pub const POLL_INTERVAL_MILLIS: u64 = 100;

/// Where the reporter stands.
#[derive(Clone, Copy, Debug, PartialEq, Eq, Structural)]
pub enum ReporterState {
    /// Polling; `last_second` is the count shown last, 0 before the first.
    Running { last_second: u64 },
    /// The stop signal was seen. Nothing follows.
    Stopped,
}

/// What the driver does after a tick.
#[derive(Clone, Copy, Debug, PartialEq, Eq, Structural)]
pub enum ProgressAction {
    /// Rewrite the progress line with this count, then pause.
    Rewrite { seconds: u64 },
    /// Leave the line as it is, and pause.
    Wait,
    /// End the line and leave the loop.
    Finish,
    /// The reporter had stopped before this tick: nothing to do.
    Ended,
}

/// One tick: the state after it and the action it asks for, given whether the
/// stop signal was seen and the seconds elapsed.
pub open spec fn next(state: ReporterState, stop_seen: bool, elapsed: u64) -> (
    ReporterState,
    ProgressAction,
) {
    match state {
        ReporterState::Stopped => (ReporterState::Stopped, ProgressAction::Ended),
        ReporterState::Running { last_second } => if stop_seen {
            (ReporterState::Stopped, ProgressAction::Finish)
        } else if elapsed > last_second {
            (
                ReporterState::Running { last_second: elapsed },
                ProgressAction::Rewrite { seconds: elapsed },
            )
        } else {
            (state, ProgressAction::Wait)
        },
    }
}

/// What one tick is given: whether the stop signal was seen, and the seconds
/// elapsed.
pub struct Poll {
    pub stop_seen: bool,
    pub elapsed: u64,
}

/// The state after a series of ticks.
pub open spec fn state_after(state: ReporterState, polls: Seq<Poll>) -> ReporterState
    decreases polls.len(),
{
    if polls.len() == 0 {
        state
    } else {
        let last = polls.last();
        next(state_after(state, polls.drop_last()), last.stop_seen, last.elapsed).0
    }
}

/// The actions that a series of ticks asks for, one for each tick.
pub open spec fn actions_of(state: ReporterState, polls: Seq<Poll>) -> Seq<ProgressAction>
    decreases polls.len(),
{
    if polls.len() == 0 {
        Seq::empty()
    } else {
        let last = polls.last();
        let before = polls.drop_last();
        actions_of(state, before).push(
            next(state_after(state, before), last.stop_seen, last.elapsed).1,
        )
    }
}

/// The reporter of one search.
pub struct ProgressReporter {
    timer: ElapsedTimer,
    state: ReporterState,
}

impl ProgressReporter {
    /// The timer of the search that is reported on.
    pub closed spec fn timer(&self) -> ElapsedTimer {
        self.timer
    }

    /// Where the reporter stands.
    pub closed spec fn state(&self) -> ReporterState {
        self.state
    }

    /// A running reporter that has shown nothing yet.
    pub fn start(timer: ElapsedTimer) -> (reporter: ProgressReporter)
        ensures
            reporter.timer() == timer,
            reporter.state() == (ReporterState::Running { last_second: 0 }),
    {
        ProgressReporter { timer, state: ReporterState::Running { last_second: 0 } }
    }

    /// Where the reporter stands.
    pub fn current(&self) -> (state: ReporterState)
        ensures
            state == self.state(),
    {
        self.state
    }

    /// Whether the reporter is still polling.
    pub fn is_running(&self) -> (running: bool)
        ensures
            running == (self.state() is Running),
    {
        match self.state {
            ReporterState::Running { .. } => true,
            ReporterState::Stopped => false,
        }
    }

    /// One tick, at the clock reading `now`. The first tick that sees the stop
    /// signal ends the reporter; until then the count is shown anew whenever
    /// it has grown by a whole second or more.
    pub fn tick(&mut self, stop_seen: bool, now: u64) -> (action: ProgressAction)
        ensures
            final(self).timer() == old(self).timer(),
            (final(self).state(), action) == next(
                old(self).state(),
                stop_seen,
                old(self).timer().seconds_at(now),
            ),
    {
        match self.state {
            ReporterState::Stopped => ProgressAction::Ended,
            ReporterState::Running { last_second } => {
                if stop_seen {
                    self.state = ReporterState::Stopped;
                    ProgressAction::Finish
                } else {
                    let elapsed = self.timer.elapsed_seconds(now);
                    if elapsed > last_second {
                        self.state = ReporterState::Running { last_second: elapsed };
                        ProgressAction::Rewrite { seconds: elapsed }
                    } else {
                        ProgressAction::Wait
                    }
                }
            },
        }
    }
}

/// A stopped reporter stays stopped, whatever the later ticks bring.
pub proof fn stopped_is_terminal(polls: Seq<Poll>)
    ensures
        state_after(ReporterState::Stopped, polls) == ReporterState::Stopped,
        forall|i: int|
            0 <= i < polls.len() ==> #[trigger] actions_of(ReporterState::Stopped, polls)[i]
                == ProgressAction::Ended,
    decreases polls.len(),
{
    if polls.len() > 0 {
        stopped_is_terminal(polls.drop_last());
    }
    actions_length(ReporterState::Stopped, polls);
}

/// Each tick asks for exactly one action.
pub proof fn actions_length(state: ReporterState, polls: Seq<Poll>)
    ensures
        actions_of(state, polls).len() == polls.len(),
    decreases polls.len(),
{
    if polls.len() > 0 {
        actions_length(state, polls.drop_last());
    }
}

/// The action of tick `i` depends on the ticks up to it alone.
proof fn action_at(state: ReporterState, polls: Seq<Poll>, i: int)
    requires
        0 <= i < polls.len(),
    ensures
        actions_of(state, polls).len() == polls.len(),
        actions_of(state, polls)[i] == next(
            state_after(state, polls.take(i)),
            polls[i].stop_seen,
            polls[i].elapsed,
        ).1,
    decreases polls.len(),
{
    actions_length(state, polls);
    actions_length(state, polls.drop_last());
    if i == polls.len() - 1 {
        assert(polls.take(i) == polls.drop_last());
    } else {
        action_at(state, polls.drop_last(), i);
        assert(polls.drop_last().take(i) == polls.take(i));
    }
}

/// The first tick that sees the stop signal is answered with `Finish` if the
/// reporter was running, and every tick after it with `Ended`: once the
/// signal has been seen, the progress line is never written again.
pub proof fn nothing_shown_after_stop(state: ReporterState, polls: Seq<Poll>, i: int, j: int)
    requires
        0 <= i < j < polls.len(),
        polls[i].stop_seen,
    ensures
        actions_of(state, polls).len() == polls.len(),
        actions_of(state, polls)[j] == ProgressAction::Ended,
{
    action_at(state, polls, j);
    stopped_after_stop_seen(state, polls.take(j), i);
}

/// After a tick that saw the stop signal the reporter is stopped.
proof fn stopped_after_stop_seen(state: ReporterState, polls: Seq<Poll>, i: int)
    requires
        0 <= i < polls.len(),
        polls[i].stop_seen,
    ensures
        state_after(state, polls) == ReporterState::Stopped,
    decreases polls.len(),
{
    if i < polls.len() - 1 {
        stopped_after_stop_seen(state, polls.drop_last(), i);
    }
}

/// The count shown last never decreases while the reporter runs.
proof fn last_second_grows(state: ReporterState, polls: Seq<Poll>, i: int)
    requires
        0 <= i <= polls.len(),
        state_after(state, polls) is Running,
    ensures
        state_after(state, polls.take(i)) is Running,
        state_after(state, polls.take(i))->last_second <= state_after(state, polls)->last_second,
    decreases polls.len(),
{
    if i == polls.len() {
        assert(polls.take(i) == polls);
    } else {
        last_second_grows(state, polls.drop_last(), i);
        assert(polls.drop_last().take(i) == polls.take(i));
    }
}

/// The counts shown grow strictly: of two ticks that rewrite the progress
/// line, the later one shows the larger count.
pub proof fn shown_seconds_increase(state: ReporterState, polls: Seq<Poll>, i: int, j: int)
    requires
        0 <= i < j < polls.len(),
        actions_of(state, polls)[i] is Rewrite,
        actions_of(state, polls)[j] is Rewrite,
    ensures
        actions_of(state, polls)[i]->seconds < actions_of(state, polls)[j]->seconds,
{
    action_at(state, polls, i);
    action_at(state, polls, j);
    let upto_j = polls.take(j);
    assert(upto_j.take(i + 1) == polls.take(i + 1));
    assert(polls.take(i + 1).drop_last() == polls.take(i));
    assert(polls.take(i + 1).last() == polls[i]);
    last_second_grows(state, upto_j, i + 1);
}

/// The reporter leaves its loop at most once: of all the ticks of a run, at
/// most one is answered with `Finish`.
pub proof fn finishes_at_most_once(state: ReporterState, polls: Seq<Poll>, i: int, j: int)
    requires
        0 <= i < j < polls.len(),
        actions_of(state, polls)[i] is Finish,
    ensures
        !(actions_of(state, polls)[j] is Finish),
{
    action_at(state, polls, i);
    action_at(state, polls, j);
    assert(polls[i].stop_seen);
    stopped_after_stop_seen(state, polls.take(j), i);
}

} // verus!
