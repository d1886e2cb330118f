//! The order of a search: what the search engine does, and when.
//!
//! The engine itself reads no clock, lists no directory and starts no task.
//! Its driver does, and tells the engine what has happened; the engine
//! answers with the commands to carry out next.

use vstd::prelude::*;
use crate::timer::{whole_seconds, ElapsedTimer};

verus! {

/// How long the driver waits for the reporter after the stop signal, in
/// milliseconds.
pub const GRACE_PERIOD_MILLIS: u64 = 200;

/// The phases of one search, in their order.
#[derive(Clone, Copy, Debug, PartialEq, Eq, Structural)]
pub enum Phase {
    /// Nothing has happened yet.
    Idle,
    /// The start time is taken; the roots are being listed.
    Enumerating,
    /// The reporter runs, and so does at least one traversal.
    Traversing,
    /// Every traversal is over and the reporter has been told to stop.
    Closing,
    /// The summary is out.
    Done,
}

/// What the driver tells the engine.
#[derive(Clone, Copy, Debug, PartialEq, Eq, Structural)]
pub enum Event {
    /// The search was asked for, at this clock reading.
    Started { now: u64 },
    /// The volume enumerator has answered with this many roots.
    RootsListed { count: usize },
    /// The traversal of one root is over; `found` says whether it had a match.
    TraversalFinished { found: bool },
    /// The wait for the reporter is over, at this clock reading.
    ReporterSettled { now: u64 },
}

/// What the engine asks of the driver.
#[derive(Clone, Copy, Debug, PartialEq, Eq, Structural)]
pub enum Command {
    /// Ask the volume enumerator for the roots.
    ListRoots,
    /// Show the roots that were detected.
    AnnounceRoots { count: usize },
    /// Show that no root was detected.
    ReportNoRoots,
    /// Start the progress reporter.
    StartReporter,
    /// Start one traversal for each root.
    StartTraversals { count: usize },
    /// Send the stop signal to the reporter and wait for [`GRACE_PERIOD_MILLIS`].
    StopReporter,
    /// Show the summary and hand the result to the caller.
    Summarize { found: bool, seconds: u64 },
}

/// The engine, as the contracts see it.
pub struct EngineState {
    pub phase: Phase,
    /// The clock reading at which the search started.
    pub started_at: u64,
    /// The number of roots, once they are listed.
    pub roots: usize,
    /// The number of traversals that are over.
    pub finished: usize,
    /// Whether a traversal that is over had a match.
    pub found: bool,
}

/// The engine before anything has happened.
pub open spec fn initial() -> EngineState {
    EngineState { phase: Phase::Idle, started_at: 0, roots: 0, finished: 0, found: false }
}

/// One step: the state after an event, and the commands that the event calls
/// for. An event that the phase does not expect changes nothing and calls for
/// nothing.
pub open spec fn step(state: EngineState, event: Event) -> (EngineState, Seq<Command>) {
    match (state.phase, event) {
        (Phase::Idle, Event::Started { now }) => (
            EngineState { phase: Phase::Enumerating, started_at: now, ..state },
            seq![Command::ListRoots],
        ),
        (Phase::Enumerating, Event::RootsListed { count }) => if count == 0 {
            (
                EngineState { phase: Phase::Closing, roots: 0, finished: 0, ..state },
                seq![Command::ReportNoRoots, Command::StartReporter, Command::StopReporter],
            )
        } else {
            (
                EngineState { phase: Phase::Traversing, roots: count, finished: 0, ..state },
                seq![
                    Command::AnnounceRoots { count },
                    Command::StartReporter,
                    Command::StartTraversals { count },
                ],
            )
        },
        (Phase::Traversing, Event::TraversalFinished { found }) => {
            let found = state.found || found;
            if state.finished + 1 >= state.roots {
                (
                    EngineState { phase: Phase::Closing, finished: state.roots, found, ..state },
                    seq![Command::StopReporter],
                )
            } else {
                (
                    EngineState { finished: (state.finished + 1) as usize, found, ..state },
                    Seq::empty(),
                )
            }
        },
        (Phase::Closing, Event::ReporterSettled { now }) => (
            EngineState { phase: Phase::Done, ..state },
            seq![
                Command::Summarize {
                    found: state.found,
                    seconds: whole_seconds(state.started_at, now),
                },
            ],
        ),
        _ => (state, Seq::empty()),
    }
}

/// The state that a series of events leads to, from `state`.
pub open spec fn state_after(state: EngineState, events: Seq<Event>) -> EngineState
    decreases events.len(),
{
    if events.len() == 0 {
        state
    } else {
        step(state_after(state, events.drop_last()), events.last()).0
    }
}

/// All the commands that a series of events calls for, in their order.
pub open spec fn commands_of(state: EngineState, events: Seq<Event>) -> Seq<Command>
    decreases events.len(),
{
    if events.len() == 0 {
        Seq::empty()
    } else {
        commands_of(state, events.drop_last()) + step(
            state_after(state, events.drop_last()),
            events.last(),
        ).1
    }
}

/// How many times `commands` sends the stop signal.
pub open spec fn stops_in(commands: Seq<Command>) -> nat
    decreases commands.len(),
{
    if commands.len() == 0 {
        0
    } else {
        stops_in(commands.drop_last()) + if commands.last() is StopReporter {
            1nat
        } else {
            0nat
        }
    }
}

/// How many traversals `events` reports as over.
pub open spec fn finishes_in(events: Seq<Event>) -> nat
    decreases events.len(),
{
    if events.len() == 0 {
        0
    } else {
        finishes_in(events.drop_last()) + if events.last() is TraversalFinished {
            1nat
        } else {
            0nat
        }
    }
}

/// What holds of every state that the engine can be in: no traversal is over
/// before the roots are listed, one at least is still running while the engine
/// is traversing, and none is afterwards.
pub open spec fn consistent(state: EngineState) -> bool {
    match state.phase {
        Phase::Idle | Phase::Enumerating => state.roots == 0 && state.finished == 0 && !state.found,
        Phase::Traversing => state.finished < state.roots,
        Phase::Closing | Phase::Done => state.finished == state.roots,
    }
}

/// Whether the stop signal has been sent: it has from the moment the engine
/// is closing.
pub open spec fn stop_sent(state: EngineState) -> bool {
    state.phase is Closing || state.phase is Done
}

/// The engine of one search.
pub struct SearchEngine {
    state: EngineState,
}

impl View for SearchEngine {
    type V = EngineState;

    closed spec fn view(&self) -> EngineState {
        self.state
    }
}

impl SearchEngine {
    /// An engine on which nothing has happened yet.
    pub fn new() -> (engine: SearchEngine)
        ensures
            engine@ == initial(),
    {
        SearchEngine {
            state: EngineState {
                phase: Phase::Idle,
                started_at: 0,
                roots: 0,
                finished: 0,
                found: false,
            },
        }
    }

    /// The phase that the engine is in.
    pub fn phase(&self) -> (phase: Phase)
        ensures
            phase == self@.phase,
    {
        self.state.phase
    }

    /// Whether a traversal that is over had a match.
    pub fn found(&self) -> (found: bool)
        ensures
            found == self@.found,
    {
        self.state.found
    }

    /// How many traversals are still running.
    pub fn pending(&self) -> (pending: usize)
        ensures
            pending == if self@.finished <= self@.roots {
                self@.roots - self@.finished
            } else {
                0
            },
    {
        if self.state.finished <= self.state.roots {
            self.state.roots - self.state.finished
        } else {
            0
        }
    }

    /// Takes in one event and hands back the commands that it calls for, in
    /// the order in which they are to be carried out.
    pub fn handle(&mut self, event: Event) -> (commands: Vec<Command>)
        ensures
            (final(self)@, commands@) == step(old(self)@, event),
    {
        let mut commands: Vec<Command> = Vec::new();
        match (self.state.phase, event) {
            (Phase::Idle, Event::Started { now }) => {
                self.state.phase = Phase::Enumerating;
                self.state.started_at = now;
                commands.push(Command::ListRoots);
            },
            (Phase::Enumerating, Event::RootsListed { count }) => {
                self.state.roots = count;
                self.state.finished = 0;
                if count == 0 {
                    self.state.phase = Phase::Closing;
                    commands.push(Command::ReportNoRoots);
                    commands.push(Command::StartReporter);
                    commands.push(Command::StopReporter);
                } else {
                    self.state.phase = Phase::Traversing;
                    commands.push(Command::AnnounceRoots { count });
                    commands.push(Command::StartReporter);
                    commands.push(Command::StartTraversals { count });
                }
            },
            (Phase::Traversing, Event::TraversalFinished { found }) => {
                if found {
                    self.state.found = true;
                }
                if self.state.roots == 0 || self.state.finished >= self.state.roots - 1 {
                    self.state.phase = Phase::Closing;
                    self.state.finished = self.state.roots;
                    commands.push(Command::StopReporter);
                } else {
                    self.state.finished = self.state.finished + 1;
                }
            },
            (Phase::Closing, Event::ReporterSettled { now }) => {
                self.state.phase = Phase::Done;
                let seconds = ElapsedTimer::start(self.state.started_at).elapsed_seconds(now);
                commands.push(Command::Summarize { found: self.state.found, seconds });
            },
            _ => {},
        }
        proof {
            assert(commands@ =~= step(old(self)@, event).1);
        }
        commands
    }
}

} // verus!
