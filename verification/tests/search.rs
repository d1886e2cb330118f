use sysfinder::finder::{Finder, RootWalk};
use sysfinder::search::{Entry, SearchState, Visit, FOLLOW_LINKS, SAME_FILE_SYSTEM};
use sysfinder::text::{names_match, SearchRequest};

fn entry(name: &str, path: &str) -> Visit {
    Visit::Entry(Entry { name: Some(name.to_string()), path: path.to_string() })
}

fn walk(root: &str, visits: Vec<Visit>) -> RootWalk {
    RootWalk { root: root.to_string(), visits }
}

#[test]
fn finds_a_name_whatever_its_case() {
    let walks = vec![
        walk(
            "/tmp/volA",
            vec![
                entry("volA", "/tmp/volA"),
                entry("sub", "/tmp/volA/sub"),
                entry("Target.TXT", "/tmp/volA/sub/Target.TXT"),
            ],
        ),
        walk("/tmp/volB", vec![entry("volB", "/tmp/volB")]),
    ];
    let outcome = Finder::buscar_archivos("target.txt", &walks, 0, 3_500_000_000);
    assert!(outcome.matched);
    assert_eq!(outcome.duration_seconds, 3);
    assert_eq!(outcome.matches.len(), 1);
    assert_eq!(outcome.matches[0].path, "/tmp/volA/sub/Target.TXT");
}

#[test]
fn empty_root_has_no_match() {
    let walks = vec![walk("/tmp/empty", vec![entry("empty", "/tmp/empty")])];
    let outcome = Finder::buscar_archivos("ghost", &walks, 10, 20);
    assert!(!outcome.matched);
    assert!(outcome.matches.is_empty());
    assert_eq!(outcome.duration_seconds, 0);
}

#[test]
fn unreadable_directory_does_not_stop_the_search() {
    let walks = vec![walk(
        "/tmp/vol",
        vec![
            entry("vol", "/tmp/vol"),
            entry("a.txt", "/tmp/vol/a.txt"),
            Visit::Unreadable,
            entry("wanted", "/tmp/vol/wanted"),
        ],
    )];
    let outcome = Finder::buscar_archivos("wanted", &walks, 0, 0);
    assert!(outcome.matched);
    assert_eq!(outcome.matches.len(), 1);
    assert_eq!(outcome.matches[0].path, "/tmp/vol/wanted");
}

#[test]
fn same_name_under_two_roots_is_reported_twice() {
    let walks = vec![
        walk("/tmp/volA", vec![entry("volA", "/tmp/volA"), entry("dup.log", "/tmp/volA/dup.log")]),
        walk("/tmp/volB", vec![entry("dup.log", "/tmp/volB/x/dup.log")]),
    ];
    let outcome = Finder::buscar_archivos("dup.log", &walks, 0, 0);
    assert!(outcome.matched);
    let shown: Vec<&str> = outcome.matches.iter().map(|m| m.path.as_str()).collect();
    assert_eq!(shown, vec!["/tmp/volA/dup.log", "/tmp/volB/x/dup.log"]);
}

#[test]
fn no_root_at_all_finds_nothing() {
    let outcome = Finder::buscar_archivos("anything", &Vec::new(), 5_000_000_000, 7_000_000_000);
    assert!(!outcome.matched);
    assert!(outcome.matches.is_empty());
    assert_eq!(outcome.duration_seconds, 2);
}

#[test]
fn clock_that_went_back_counts_as_no_time() {
    let outcome = Finder::buscar_archivos("x", &Vec::new(), 9_000_000_000, 1_000_000_000);
    assert_eq!(outcome.duration_seconds, 0);
}

#[test]
fn a_directory_with_the_name_is_a_match_too() {
    let walks = vec![walk("/data", vec![entry("data", "/data"), entry("Docs", "/data/Docs")])];
    let outcome = Finder::buscar_archivos("docs", &walks, 0, 0);
    assert!(outcome.matched);
    assert_eq!(outcome.matches[0].path, "/data/Docs");
}

#[test]
fn the_whole_name_must_be_equal() {
    assert!(!names_match("target.txt.bak", "target.txt"));
    assert!(!names_match("target", "target.txt"));
    assert!(!names_match("my-target.txt", "target.txt"));
    assert!(names_match("target.txt", "target.txt"));
}

#[test]
fn case_is_ignored_in_both_directions() {
    assert!(names_match("README", "readme"));
    assert!(names_match("readme", "README"));
    assert!(names_match("ReadMe", "rEADmE"));
    assert!(names_match("ÁRBOL.txt", "árbol.TXT"));
    assert!(!names_match("readme", "readyou"));
}

#[test]
fn the_path_is_not_compared() {
    let walks = vec![walk("/vol", vec![entry("file", "/vol/target/file")])];
    let outcome = Finder::buscar_archivos("target", &walks, 0, 0);
    assert!(!outcome.matched);
}

#[test]
fn a_name_that_is_not_text_is_passed_over() {
    let walks = vec![walk(
        "/vol",
        vec![
            Visit::Entry(Entry { name: None, path: "/vol/\u{fffd}".to_string() }),
            entry("ok", "/vol/ok"),
        ],
    )];
    let outcome = Finder::buscar_archivos("ok", &walks, 0, 0);
    assert_eq!(outcome.matches.len(), 1);
    assert_eq!(outcome.matches[0].path, "/vol/ok");
}

#[test]
fn request_keeps_the_pattern_as_written() {
    let request = SearchRequest::new("Target.TXT");
    assert_eq!(request.as_str(), "Target.TXT");
    assert!(request.matches("target.txt"));
    assert!(request.matches("TARGET.TXT"));
    assert!(!request.matches("target.tx"));
}

#[test]
fn found_flag_is_raised_once_and_stays() {
    let request = SearchRequest::new("a");
    let mut state = SearchState::new();
    assert!(!state.is_found());
    assert!(state.observe(&request, &entry("b", "/b")).is_none());
    assert!(!state.is_found());
    let event = state.observe(&request, &entry("A", "/x/A"));
    assert_eq!(event.map(|e| e.path), Some("/x/A".to_string()));
    assert!(state.is_found());
    assert!(state.observe(&request, &entry("b", "/b")).is_none());
    assert!(state.observe(&request, &Visit::Unreadable).is_none());
    assert!(state.is_found());
}

#[test]
fn merge_takes_the_flag_of_either_side() {
    let mut raised = SearchState::new();
    raised.mark_found();
    let mut lowered = SearchState::new();
    lowered.merge(&SearchState::new());
    assert!(!lowered.is_found());
    lowered.merge(&raised);
    assert!(lowered.is_found());
    raised.merge(&SearchState::new());
    assert!(raised.is_found());
}

#[test]
fn scan_reports_matches_in_the_order_of_the_visits() {
    let request = SearchRequest::new("x");
    let mut state = SearchState::new();
    let visits =
        vec![entry("X", "/1/X"), Visit::Unreadable, entry("y", "/2/y"), entry("x", "/3/x")];
    let events = state.scan(&request, &visits);
    let shown: Vec<&str> = events.iter().map(|e| e.path.as_str()).collect();
    assert_eq!(shown, vec!["/1/X", "/3/x"]);
    assert!(state.is_found());
    let mut other = SearchState::new();
    assert!(other.scan(&request, &Vec::new()).is_empty());
    assert!(!other.is_found());
}

#[test]
fn traversals_follow_links_and_stay_on_their_volume() {
    assert!(FOLLOW_LINKS);
    assert!(SAME_FILE_SYSTEM);
}

#[test]
fn roots_are_the_mount_points_that_are_text() {
    let points = vec![Some("/".to_string()), None, Some("/mnt/usb".to_string()), None];
    assert_eq!(Finder::obtener_unidades(&points), vec!["/".to_string(), "/mnt/usb".to_string()]);
    assert!(Finder::obtener_unidades(&Vec::new()).is_empty());
    assert!(Finder::obtener_unidades(&vec![None]).is_empty());
}
