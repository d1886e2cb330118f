//! The finder: the roots to search, and a whole search over what the
//! traversals of those roots yielded.

use vstd::prelude::*;
use crate::engine::{Command, Event, SearchEngine};
use crate::search::{
    any_hit, hit, hit_is_reported, hits, hits_nonempty_iff_any_hit, paths, MatchEvent,
    SearchState, Visit,
};
use crate::text::{texts, SearchRequest};
use crate::timer::whole_seconds;

verus! {

/// What the traversal of one root yielded.
pub struct RootWalk {
    /// The mount point at which the traversal started.
    pub root: String,
    /// The visits of the traversal, in the order in which they were made.
    pub visits: Vec<Visit>,
}

/// The result of one search.
pub struct SearchOutcome {
    /// Whether at least one entry had the name that was looked for.
    pub matched: bool,
    /// The whole seconds that the search took.
    pub duration_seconds: u64,
    /// One report for each match, root by root.
    pub matches: Vec<MatchEvent>,
}

/// The mount points that are valid text, in their order.
pub open spec fn readable(mount_points: Seq<Option<String>>) -> Seq<Seq<char>>
    decreases mount_points.len(),
{
    if mount_points.len() == 0 {
        Seq::empty()
    } else {
        let before = readable(mount_points.drop_last());
        match mount_points.last() {
            Some(point) => before.push(point@),
            None => before,
        }
    }
}

/// The paths of all the matches of a search, root by root and, within a root,
/// in the order of its visits.
pub open spec fn all_hits(pattern: Seq<char>, walks: Seq<RootWalk>) -> Seq<Seq<char>>
    decreases walks.len(),
{
    if walks.len() == 0 {
        Seq::empty()
    } else {
        all_hits(pattern, walks.drop_last()) + hits(pattern, walks.last().visits@)
    }
}

/// Whether some entry under some root is a match.
pub open spec fn any_match(pattern: Seq<char>, walks: Seq<RootWalk>) -> bool {
    exists|r: int| 0 <= r < walks.len() && #[trigger] any_hit(pattern, walks[r].visits@)
}

/// A search reports a match exactly if some entry under some root is one.
pub proof fn all_hits_nonempty_iff_any_match(pattern: Seq<char>, walks: Seq<RootWalk>)
    ensures
        all_hits(pattern, walks).len() > 0 <==> any_match(pattern, walks),
    decreases walks.len(),
{
    if walks.len() > 0 {
        let before = walks.drop_last();
        all_hits_nonempty_iff_any_match(pattern, before);
        hits_nonempty_iff_any_hit(pattern, walks.last().visits@);
        if any_match(pattern, before) {
            let r = choose|r: int|
                0 <= r < before.len() && #[trigger] any_hit(pattern, before[r].visits@);
            assert(any_hit(pattern, walks[r].visits@));
        }
        if any_hit(pattern, walks.last().visits@) {
            assert(any_hit(pattern, walks[walks.len() - 1].visits@));
        }
        if any_match(pattern, walks) {
            let r = choose|r: int|
                0 <= r < walks.len() && #[trigger] any_hit(pattern, walks[r].visits@);
            if r < walks.len() - 1 {
                assert(any_hit(pattern, before[r].visits@));
            }
        }
    }
}

/// A search over no root at all has no match.
pub proof fn no_roots_no_match(pattern: Seq<char>)
    ensures
        !any_match(pattern, Seq::empty()),
        all_hits(pattern, Seq::empty()) == Seq::<Seq<char>>::empty(),
{
}

/// Every match is reported, under whichever root it lies: the path of a
/// visit that is a match is among the paths of the search. Two entries of
/// the same name under two roots are two visits, and both are reported.
pub proof fn match_is_reported(pattern: Seq<char>, walks: Seq<RootWalk>, r: int, k: int)
    requires
        0 <= r < walks.len(),
        0 <= k < walks[r].visits@.len(),
        hit(pattern, walks[r].visits@[k]) is Some,
    ensures
        all_hits(pattern, walks).contains(hit(pattern, walks[r].visits@[k])->0),
    decreases walks.len(),
{
    let path = hit(pattern, walks[r].visits@[k])->0;
    let before = all_hits(pattern, walks.drop_last());
    let last = hits(pattern, walks.last().visits@);
    if r == walks.len() - 1 {
        hit_is_reported(pattern, walks[r].visits@, k);
        let j = last.index_of(path);
        assert(last[j] == path);
        assert((before + last)[before.len() + j] == path);
    } else {
        match_is_reported(pattern, walks.drop_last(), r, k);
        let j = before.index_of(path);
        assert(before[j] == path);
        assert((before + last)[j] == path);
    }
}

/// The finder.
pub struct Finder;

impl Finder {
    /// The roots to search: of the mount points that the host reports, those
    /// that are valid text, in the order in which they were reported. Nothing
    /// is left out for the kind of volume it is, and no mount point at all
    /// gives no root at all.
    pub fn obtener_unidades(mount_points: &Vec<Option<String>>) -> (unidades: Vec<String>)
        ensures
            texts(unidades@) == readable(mount_points@),
            unidades@.len() == readable(mount_points@).len(),
    {
        let mut unidades: Vec<String> = Vec::new();
        let mut i: usize = 0;
        while i < mount_points.len()
            invariant
                i <= mount_points.len(),
                texts(unidades@) == readable(mount_points@.take(i as int)),
            decreases mount_points.len() - i,
        {
            let ghost before = unidades@;
            proof {
                assert(mount_points@.take(i + 1).drop_last() == mount_points@.take(i as int));
            }
            if let Some(point) = &mount_points[i] {
                unidades.push(point.clone());
                proof {
                    assert(texts(unidades@) == texts(before).push(point@));
                }
            }
            i += 1;
        }
        proof {
            assert(mount_points@.take(i as int) == mount_points@);
            assert(texts(unidades@).len() == unidades@.len());
        }
        unidades
    }

    /// A whole search for entries named `patron`, whatever the case of the
    /// letters, over what the traversals of the roots yielded. `inicio` and
    /// `fin` are the clock readings at the start of the search and after the
    /// wait for the reporter.
    ///
    /// The search has matched exactly if some entry under some root has the
    /// name; every match is reported, also where two entries have the same
    /// name; entries that could not be read, and names that are not valid
    /// text, are passed over. No root at all is a search like any other, and
    /// finds nothing.
    pub fn buscar_archivos(patron: &str, recorridos: &Vec<RootWalk>, inicio: u64, fin: u64) -> (
        resultado: SearchOutcome
    )
        ensures
            resultado.matched == any_match(patron@, recorridos@),
            resultado.matched == (resultado.matches@.len() > 0),
            paths(resultado.matches@) == all_hits(patron@, recorridos@),
            resultado.duration_seconds == whole_seconds(inicio, fin),
    {
        let request = SearchRequest::new(patron);
        let mut engine = SearchEngine::new();
        let mut matches: Vec<MatchEvent> = Vec::new();
        engine.handle(Event::Started { now: inicio });
        engine.handle(Event::RootsListed { count: recorridos.len() });
        let mut i: usize = 0;
        while i < recorridos.len()
            invariant
                i <= recorridos.len(),
                request.pattern() == patron@,
                paths(matches@) == all_hits(patron@, recorridos@.take(i as int)),
                engine@.started_at == inicio,
                engine@.roots == recorridos.len(),
                engine@.found == (matches@.len() > 0),
                i < recorridos.len() ==> engine@.phase is Traversing && engine@.finished == i,
                i == recorridos.len() ==> engine@.phase is Closing,
            decreases recorridos.len() - i,
        {
            let ghost before = matches@;
            let mut state = SearchState::new();
            let mut events = state.scan(&request, &recorridos[i].visits);
            proof {
                assert(recorridos@.take(i + 1).drop_last() == recorridos@.take(i as int));
                assert(recorridos@.take(i + 1).last() == recorridos@[i as int]);
                assert(paths(before + events@) == paths(before) + paths(events@));
            }
            matches.append(&mut events);
            engine.handle(Event::TraversalFinished { found: state.is_found() });
            i += 1;
        }
        proof {
            assert(recorridos@.take(i as int) == recorridos@);
            all_hits_nonempty_iff_any_match(patron@, recorridos@);
            assert(paths(matches@).len() == matches@.len());
        }
        let commands = engine.handle(Event::ReporterSettled { now: fin });
        match commands[0] {
            Command::Summarize { found, seconds } => SearchOutcome {
                matched: found,
                duration_seconds: seconds,
                matches,
            },
            _ => SearchOutcome { matched: false, duration_seconds: 0, matches },
        }
    }
}

} // verus!
