use sysfinder::engine::{Command, Event, Phase, SearchEngine, GRACE_PERIOD_MILLIS};

fn stops(commands: &[Command]) -> usize {
    commands.iter().filter(|c| **c == Command::StopReporter).count()
}

#[test]
fn search_runs_through_its_phases() {
    let mut engine = SearchEngine::new();
    assert_eq!(engine.phase(), Phase::Idle);
    assert_eq!(engine.handle(Event::Started { now: 1_000_000_000 }), vec![Command::ListRoots]);
    assert_eq!(engine.phase(), Phase::Enumerating);
    assert_eq!(
        engine.handle(Event::RootsListed { count: 2 }),
        vec![
            Command::AnnounceRoots { count: 2 },
            Command::StartReporter,
            Command::StartTraversals { count: 2 },
        ]
    );
    assert_eq!(engine.phase(), Phase::Traversing);
    assert_eq!(engine.pending(), 2);
    assert_eq!(engine.handle(Event::TraversalFinished { found: true }), vec![]);
    assert_eq!(engine.pending(), 1);
    assert!(engine.found());
    assert_eq!(
        engine.handle(Event::TraversalFinished { found: false }),
        vec![Command::StopReporter]
    );
    assert_eq!(engine.phase(), Phase::Closing);
    assert_eq!(engine.pending(), 0);
    assert!(engine.found());
    assert_eq!(
        engine.handle(Event::ReporterSettled { now: 5_200_000_000 }),
        vec![Command::Summarize { found: true, seconds: 4 }]
    );
    assert_eq!(engine.phase(), Phase::Done);
    assert_eq!(GRACE_PERIOD_MILLIS, 200);
}

#[test]
fn search_without_roots_ends_without_a_traversal() {
    let mut engine = SearchEngine::new();
    engine.handle(Event::Started { now: 0 });
    assert_eq!(
        engine.handle(Event::RootsListed { count: 0 }),
        vec![Command::ReportNoRoots, Command::StartReporter, Command::StopReporter]
    );
    assert_eq!(engine.phase(), Phase::Closing);
    assert_eq!(
        engine.handle(Event::ReporterSettled { now: 200_000_000 }),
        vec![Command::Summarize { found: false, seconds: 0 }]
    );
    assert_eq!(engine.phase(), Phase::Done);
}

#[test]
fn stop_signal_is_sent_once_after_the_last_traversal() {
    let mut engine = SearchEngine::new();
    let mut sent = 0;
    sent += stops(&engine.handle(Event::Started { now: 0 }));
    sent += stops(&engine.handle(Event::RootsListed { count: 3 }));
    for finished in 1..=3 {
        assert_eq!(sent, 0);
        sent += stops(&engine.handle(Event::TraversalFinished { found: false }));
        assert_eq!(sent, if finished == 3 { 1 } else { 0 });
    }
    sent += stops(&engine.handle(Event::TraversalFinished { found: true }));
    sent += stops(&engine.handle(Event::RootsListed { count: 1 }));
    sent += stops(&engine.handle(Event::ReporterSettled { now: 0 }));
    sent += stops(&engine.handle(Event::TraversalFinished { found: true }));
    sent += stops(&engine.handle(Event::ReporterSettled { now: 0 }));
    assert_eq!(sent, 1);
}

#[test]
fn events_out_of_order_change_nothing() {
    let mut engine = SearchEngine::new();
    assert_eq!(engine.handle(Event::RootsListed { count: 4 }), vec![]);
    assert_eq!(engine.handle(Event::TraversalFinished { found: true }), vec![]);
    assert_eq!(engine.handle(Event::ReporterSettled { now: 9 }), vec![]);
    assert_eq!(engine.phase(), Phase::Idle);
    assert!(!engine.found());
    engine.handle(Event::Started { now: 0 });
    assert_eq!(engine.handle(Event::Started { now: 5 }), vec![]);
    assert_eq!(engine.handle(Event::TraversalFinished { found: true }), vec![]);
    assert!(!engine.found());
    assert_eq!(engine.phase(), Phase::Enumerating);
}

#[test]
fn late_report_does_not_change_the_summary() {
    let mut engine = SearchEngine::new();
    engine.handle(Event::Started { now: 0 });
    engine.handle(Event::RootsListed { count: 1 });
    engine.handle(Event::TraversalFinished { found: false });
    assert_eq!(engine.handle(Event::TraversalFinished { found: true }), vec![]);
    assert_eq!(
        engine.handle(Event::ReporterSettled { now: 0 }),
        vec![Command::Summarize { found: false, seconds: 0 }]
    );
    assert_eq!(engine.handle(Event::ReporterSettled { now: 0 }), vec![]);
    assert_eq!(engine.handle(Event::Started { now: 0 }), vec![]);
    assert_eq!(engine.phase(), Phase::Done);
}

#[test]
fn found_flag_stays_raised_through_later_traversals() {
    let mut engine = SearchEngine::new();
    engine.handle(Event::Started { now: 0 });
    engine.handle(Event::RootsListed { count: 4 });
    engine.handle(Event::TraversalFinished { found: false });
    assert!(!engine.found());
    engine.handle(Event::TraversalFinished { found: true });
    assert!(engine.found());
    engine.handle(Event::TraversalFinished { found: false });
    assert!(engine.found());
    engine.handle(Event::TraversalFinished { found: false });
    assert!(engine.found());
    assert_eq!(
        engine.handle(Event::ReporterSettled { now: 61_000_000_000 }),
        vec![Command::Summarize { found: true, seconds: 61 }]
    );
}
