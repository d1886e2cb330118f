//! What holds of every run of the search engine, whatever its driver tells it
//! and in whatever order.

use vstd::prelude::*;
use crate::engine::{
    commands_of, consistent, finishes_in, initial, state_after, step, stop_sent, stops_in,
    Command, EngineState, Event, Phase,
};
use crate::timer::whole_seconds;

verus! {

/// The stop signals of two series of commands add up.
proof fn stops_add_up(first: Seq<Command>, second: Seq<Command>)
    ensures
        stops_in(first + second) == stops_in(first) + stops_in(second),
    decreases second.len(),
{
    if second.len() == 0 {
        assert(first + second == first);
    } else {
        stops_add_up(first, second.drop_last());
        assert((first + second).drop_last() == first + second.drop_last());
    }
}

/// One step sends the stop signal once if it takes the engine from before
/// the closing to it, and not at all otherwise.
proof fn stops_of_step(state: EngineState, event: Event)
    ensures
        stops_in(step(state, event).1) == if !stop_sent(state) && stop_sent(
            step(state, event).0,
        ) {
            1nat
        } else {
            0nat
        },
{
    let commands = step(state, event).1;
    reveal_with_fuel(stops_in, 4);
    if commands.len() == 3 {
        assert(commands.drop_last().len() == 2);
        assert(commands.drop_last().drop_last().len() == 1);
        assert(commands.drop_last().drop_last().drop_last().len() == 0);
    } else if commands.len() == 1 {
        assert(commands.drop_last().len() == 0);
    }
}

/// A step keeps the engine consistent.
pub proof fn step_keeps_consistent(state: EngineState, event: Event)
    requires
        consistent(state),
    ensures
        consistent(step(state, event).0),
{
}

/// The found flag is never lowered: a step from a state in which a match was
/// found leads to a state in which it still is.
pub proof fn step_keeps_found(state: EngineState, event: Event)
    requires
        state.found,
    ensures
        step(state, event).0.found,
{
}

/// A step sends the stop signal only when no traversal is left running, and
/// it never sends it a second time.
pub proof fn step_stops_after_last_traversal(state: EngineState, event: Event)
    ensures
        stops_in(step(state, event).1) <= 1,
        stops_in(step(state, event).1) == 1 ==> {
            &&& !stop_sent(state)
            &&& stop_sent(step(state, event).0)
            &&& step(state, event).0.finished == step(state, event).0.roots
        },
        stop_sent(state) ==> stops_in(step(state, event).1) == 0,
{
    stops_of_step(state, event);
}

/// The found flag never goes back from raised to lowered within one search:
/// if it is raised after the first `i` events, it is raised after all of them.
pub proof fn found_never_reverts(state: EngineState, events: Seq<Event>, i: int)
    requires
        0 <= i <= events.len(),
        state_after(state, events.take(i)).found,
    ensures
        state_after(state, events).found,
    decreases events.len(),
{
    if i == events.len() {
        assert(events.take(i) == events);
    } else {
        assert(events.drop_last().take(i) == events.take(i));
        found_never_reverts(state, events.drop_last(), i);
        step_keeps_found(state_after(state, events.drop_last()), events.last());
    }
}

/// The engine only moves forward: once the stop signal has been sent, it has
/// been sent for good.
pub proof fn stop_sent_for_good(state: EngineState, events: Seq<Event>)
    requires
        stop_sent(state),
    ensures
        stop_sent(state_after(state, events)),
        stops_in(commands_of(state, events)) == 0,
    decreases events.len(),
{
    if events.len() > 0 {
        let before = events.drop_last();
        stop_sent_for_good(state, before);
        stops_of_step(state_after(state, before), events.last());
        stops_add_up(commands_of(state, before), step(state_after(state, before), events.last()).1);
    }
}

/// In every run of a search, the stop signal is sent at most once, and it has
/// been sent exactly when the engine is closing or done. At that point every
/// traversal is over: as many traversals have been reported as finished as
/// there are roots, and not one fewer.
pub proof fn stop_sent_once_after_all_traversals(events: Seq<Event>)
    ensures
        consistent(state_after(initial(), events)),
        stops_in(commands_of(initial(), events)) == if stop_sent(
            state_after(initial(), events),
        ) {
            1nat
        } else {
            0nat
        },
        state_after(initial(), events).finished <= finishes_in(events),
        stop_sent(state_after(initial(), events)) ==> finishes_in(events) >= state_after(
            initial(),
            events,
        ).roots,
    decreases events.len(),
{
    if events.len() > 0 {
        let before = events.drop_last();
        let state = state_after(initial(), before);
        stop_sent_once_after_all_traversals(before);
        step_keeps_consistent(state, events.last());
        stops_of_step(state, events.last());
        stops_add_up(commands_of(initial(), before), step(state, events.last()).1);
    }
}

/// A search that is done has sent the stop signal exactly once.
pub proof fn done_search_stopped_once(events: Seq<Event>)
    requires
        state_after(initial(), events).phase is Done,
    ensures
        stops_in(commands_of(initial(), events)) == 1,
{
    stop_sent_once_after_all_traversals(events);
}

/// While a traversal is still running, no stop signal has been sent.
pub proof fn no_stop_while_traversing(events: Seq<Event>)
    requires
        state_after(initial(), events).phase is Traversing,
    ensures
        stops_in(commands_of(initial(), events)) == 0,
        state_after(initial(), events).finished < state_after(initial(), events).roots,
{
    stop_sent_once_after_all_traversals(events);
}

/// The events of a search that runs to its end: the start, the roots, one
/// report for each traversal, and the end of the wait for the reporter.
pub open spec fn full_run(started: u64, flags: Seq<bool>, settled: u64) -> Seq<Event> {
    seq![Event::Started { now: started }, Event::RootsListed { count: flags.len() as usize }]
        + flags.map_values(|found: bool| Event::TraversalFinished { found }) + seq![
        Event::ReporterSettled { now: settled },
    ]
}

/// A series of flags holds a raised one if its last is raised, or one before
/// the last is.
proof fn contains_true_by_last(flags: Seq<bool>)
    requires
        flags.len() > 0,
    ensures
        flags.contains(true) == (flags.drop_last().contains(true) || flags.last()),
{
    let before = flags.drop_last();
    if before.contains(true) {
        let j = before.index_of(true);
        assert(flags[j] == true);
    }
    if flags.last() {
        assert(flags[flags.len() - 1] == true);
    }
    if flags.contains(true) {
        let j = flags.index_of(true);
        if j < flags.len() - 1 {
            assert(before[j] == true);
        }
    }
}

/// The state after the start, the roots and the first `k` traversal reports.
proof fn traversing_after(started: u64, flags: Seq<bool>, k: int)
    requires
        0 <= k <= flags.len() <= usize::MAX,
        flags.len() > 0,
    ensures
        ({
            let events = seq![
                Event::Started { now: started },
                Event::RootsListed { count: flags.len() as usize },
            ] + flags.take(k).map_values(|found: bool| Event::TraversalFinished { found });
            let state = state_after(initial(), events);
            &&& state.started_at == started
            &&& state.roots == flags.len()
            &&& state.found == flags.take(k).contains(true)
            &&& k < flags.len() ==> state.phase is Traversing && state.finished == k
            &&& k == flags.len() ==> state.phase is Closing
        }),
    decreases k,
{
    let head = seq![
        Event::Started { now: started },
        Event::RootsListed { count: flags.len() as usize },
    ];
    let events = head + flags.take(k).map_values(|found: bool| Event::TraversalFinished { found });
    if k == 0 {
        assert(events == head);
        reveal_with_fuel(state_after, 3);
        assert(head.drop_last() == seq![Event::Started { now: started }]);
        assert(head.drop_last().drop_last() == Seq::<Event>::empty());
        assert(!flags.take(0).contains(true));
    } else {
        traversing_after(started, flags, k - 1);
        let shorter = head + flags.take(k - 1).map_values(
            |found: bool| Event::TraversalFinished { found },
        );
        assert(events.drop_last() == shorter);
        assert(events.last() == Event::TraversalFinished { found: flags[k - 1] });
        assert(flags.take(k).drop_last() == flags.take(k - 1));
        assert(flags.take(k).last() == flags[k - 1]);
        contains_true_by_last(flags.take(k));
    }
}

/// A search that runs to its end is done, and its summary says that a match
/// was found exactly if one of the traversals had one, with the whole seconds
/// between the start and the end of the wait for the reporter.
pub proof fn full_run_summary(started: u64, flags: Seq<bool>, settled: u64)
    requires
        flags.len() <= usize::MAX,
    ensures
        state_after(initial(), full_run(started, flags, settled)).phase is Done,
        commands_of(initial(), full_run(started, flags, settled)).last() == (Command::Summarize {
            found: flags.contains(true),
            seconds: whole_seconds(started, settled),
        }),
        stops_in(commands_of(initial(), full_run(started, flags, settled))) == 1,
{
    let head = seq![
        Event::Started { now: started },
        Event::RootsListed { count: flags.len() as usize },
    ];
    let reports = flags.map_values(|found: bool| Event::TraversalFinished { found });
    let events = full_run(started, flags, settled);
    assert(events.drop_last() == head + reports);
    assert(events.last() == Event::ReporterSettled { now: settled });
    let closing = state_after(initial(), head + reports);
    if flags.len() == 0 {
        assert(head + reports == head);
        reveal_with_fuel(state_after, 3);
        assert(head.drop_last() == seq![Event::Started { now: started }]);
        assert(head.drop_last().drop_last() == Seq::<Event>::empty());
        assert(!flags.contains(true));
    } else {
        traversing_after(started, flags, flags.len() as int);
        assert(flags.take(flags.len() as int) == flags);
    }
    assert(closing.phase is Closing);
    assert(closing.found == flags.contains(true));
    assert(closing.started_at == started);
    done_search_stopped_once(events);
}

/// A search over no root at all needs no traversal to come to its end: the
/// roots listed, the reporter is started and stopped at once, and the summary
/// says that nothing was found.
pub proof fn no_roots_completes_at_once(started: u64, settled: u64)
    ensures
        commands_of(
            initial(),
            seq![Event::Started { now: started }, Event::RootsListed { count: 0 }],
        ) == seq![
            Command::ListRoots,
            Command::ReportNoRoots,
            Command::StartReporter,
            Command::StopReporter,
        ],
        state_after(initial(), full_run(started, Seq::empty(), settled)).phase is Done,
        commands_of(initial(), full_run(started, Seq::empty(), settled)).last() == (
        Command::Summarize { found: false, seconds: whole_seconds(started, settled) }),
{
    let head = seq![Event::Started { now: started }, Event::RootsListed { count: 0 }];
    reveal_with_fuel(state_after, 3);
    reveal_with_fuel(commands_of, 3);
    assert(head.drop_last() == seq![Event::Started { now: started }]);
    assert(head.drop_last().drop_last() == Seq::<Event>::empty());
    assert(commands_of(initial(), head) =~= seq![
        Command::ListRoots,
        Command::ReportNoRoots,
        Command::StartReporter,
        Command::StopReporter,
    ]);
    full_run_summary(started, Seq::empty(), settled);
    assert(!Seq::<bool>::empty().contains(true));
}

} // verus!
