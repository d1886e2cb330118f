//! What a traversal yields, and which of it is a match.

use vstd::prelude::*;
use crate::text::{same_name, SearchRequest};

verus! {

/// A traversal follows symbolic links.
pub const FOLLOW_LINKS: bool = true;

/// A traversal stays on the file system of its root: it does not descend
/// into another volume that is mounted below it.
pub const SAME_FILE_SYSTEM: bool = true;

/// One entry of a directory tree, as a traversal hands it over.
pub struct Entry {
    /// The base name, or `None` where it is not valid text.
    pub name: Option<String>,
    /// The full path, as it is shown to the user.
    pub path: String,
}

/// One step of a traversal: an entry, or a place that could not be read.
pub enum Visit {
    Entry(Entry),
    Unreadable,
}

/// The report of one match: the full path of the entry.
pub struct MatchEvent {
    pub path: String,
}

/// The path to report for a visit, if the visit is a match: an entry that
/// could be read, whose name is valid text and the same name as the pattern.
pub open spec fn hit(pattern: Seq<char>, visit: Visit) -> Option<Seq<char>> {
    match visit {
        Visit::Entry(entry) => match entry.name {
            Some(name) => if same_name(name@, pattern) {
                Some(entry.path@)
            } else {
                None
            },
            None => None,
        },
        Visit::Unreadable => None,
    }
}

/// The paths of the matches among `visits`, in the order of the visits.
pub open spec fn hits(pattern: Seq<char>, visits: Seq<Visit>) -> Seq<Seq<char>>
    decreases visits.len(),
{
    if visits.len() == 0 {
        Seq::empty()
    } else {
        let before = hits(pattern, visits.drop_last());
        match hit(pattern, visits.last()) {
            Some(path) => before.push(path),
            None => before,
        }
    }
}

/// The paths that a sequence of match reports holds.
pub open spec fn paths(events: Seq<MatchEvent>) -> Seq<Seq<char>> {
    events.map_values(|event: MatchEvent| event.path@)
}

/// Whether one search has seen a match so far. The flag starts lowered and,
/// once raised, stays raised: no operation lowers it.
pub struct SearchState {
    found: bool,
}

impl SearchState {
    /// Whether a match has been recorded.
    pub closed spec fn found(&self) -> bool {
        self.found
    }

    /// A fresh state: nothing found yet.
    pub fn new() -> (state: SearchState)
        ensures
            !state.found(),
    {
        SearchState { found: false }
    }

    /// Whether a match has been recorded.
    pub fn is_found(&self) -> (found: bool)
        ensures
            found == self.found(),
    {
        self.found
    }

    /// Raises the flag.
    pub fn mark_found(&mut self)
        ensures
            final(self).found(),
            old(self).found() ==> final(self).found(),
    {
        self.found = true;
    }

    /// Takes in the flag of another traversal of the same search.
    pub fn merge(&mut self, other: &SearchState)
        ensures
            final(self).found() == (old(self).found() || other.found()),
            old(self).found() ==> final(self).found(),
    {
        if other.found {
            self.found = true;
        }
    }

    /// Examines one visit. A match raises the flag and is handed back for
    /// reporting; anything else leaves the state as it was.
    pub fn observe(&mut self, request: &SearchRequest, visit: &Visit) -> (event: Option<
        MatchEvent,
    >)
        ensures
            match event {
                Some(e) => hit(request.pattern(), *visit) == Some(e.path@),
                None => hit(request.pattern(), *visit) is None,
            },
            final(self).found() == (old(self).found() || event is Some),
            old(self).found() ==> final(self).found(),
    {
        match visit {
            Visit::Entry(entry) => match &entry.name {
                Some(name) => {
                    if request.matches(name.as_str()) {
                        self.found = true;
                        Some(MatchEvent { path: entry.path.clone() })
                    } else {
                        None
                    }
                },
                None => None,
            },
            Visit::Unreadable => None,
        }
    }

    /// Examines the visits of one traversal in order, and hands back the
    /// matches among them. Visits that could not be read are passed over.
    pub fn scan(&mut self, request: &SearchRequest, visits: &Vec<Visit>) -> (events: Vec<
        MatchEvent,
    >)
        ensures
            paths(events@) == hits(request.pattern(), visits@),
            events@.len() == hits(request.pattern(), visits@).len(),
            final(self).found() == (old(self).found() || events@.len() > 0),
            old(self).found() ==> final(self).found(),
    {
        let mut events: Vec<MatchEvent> = Vec::new();
        let mut i: usize = 0;
        while i < visits.len()
            invariant
                i <= visits.len(),
                paths(events@) == hits(request.pattern(), visits@.take(i as int)),
                self.found() == (old(self).found() || events@.len() > 0),
            decreases visits.len() - i,
        {
            let ghost before = events@;
            proof {
                assert(visits@.take(i + 1).drop_last() == visits@.take(i as int));
            }
            if let Some(event) = self.observe(request, &visits[i]) {
                events.push(event);
                proof {
                    assert(paths(events@) == paths(before).push(event.path@));
                }
            }
            i += 1;
        }
        proof {
            assert(visits@.take(i as int) == visits@);
            assert(paths(events@).len() == events@.len());
        }
        events
    }
}

/// Whether some visit among `visits` is a match.
pub open spec fn any_hit(pattern: Seq<char>, visits: Seq<Visit>) -> bool {
    exists|k: int| 0 <= k < visits.len() && (#[trigger] hit(pattern, visits[k])) is Some
}

/// A traversal reports a match exactly if one of its visits is one.
pub proof fn hits_nonempty_iff_any_hit(pattern: Seq<char>, visits: Seq<Visit>)
    ensures
        hits(pattern, visits).len() > 0 <==> any_hit(pattern, visits),
        hits(pattern, visits).len() <= visits.len(),
    decreases visits.len(),
{
    if visits.len() > 0 {
        let before = visits.drop_last();
        hits_nonempty_iff_any_hit(pattern, before);
        if any_hit(pattern, before) {
            let k = choose|k: int|
                0 <= k < before.len() && (#[trigger] hit(pattern, before[k])) is Some;
            assert(hit(pattern, visits[k]) is Some);
        }
        if hit(pattern, visits.last()) is Some {
            assert(hit(pattern, visits[visits.len() - 1]) is Some);
        }
        if any_hit(pattern, visits) {
            let k = choose|k: int|
                0 <= k < visits.len() && (#[trigger] hit(pattern, visits[k])) is Some;
            if k < visits.len() - 1 {
                assert(hit(pattern, before[k]) is Some);
            }
        }
    }
}

/// Every match is reported: the path of a visit that is a match is among the
/// paths of the traversal.
pub proof fn hit_is_reported(pattern: Seq<char>, visits: Seq<Visit>, k: int)
    requires
        0 <= k < visits.len(),
        hit(pattern, visits[k]) is Some,
    ensures
        hits(pattern, visits).contains(hit(pattern, visits[k])->0),
    decreases visits.len(),
{
    let path = hit(pattern, visits[k])->0;
    let before = hits(pattern, visits.drop_last());
    if k == visits.len() - 1 {
        assert(before.push(path).last() == path);
    } else {
        hit_is_reported(pattern, visits.drop_last(), k);
        let j = before.index_of(path);
        assert(before[j] == path);
        if hit(pattern, visits.last()) is Some {
            assert(before.push(hit(pattern, visits.last())->0)[j] == path);
        }
    }
}

/// A visit that could not be read is passed over: the matches are those of
/// the visits around it.
pub proof fn unreadable_is_skipped(pattern: Seq<char>, before: Seq<Visit>, after: Seq<Visit>)
    ensures
        hits(pattern, before + seq![Visit::Unreadable] + after) == hits(pattern, before + after),
    decreases after.len(),
{
    let with = before + seq![Visit::Unreadable] + after;
    let without = before + after;
    if after.len() == 0 {
        assert(with.drop_last() == before);
        assert(without == before);
    } else {
        unreadable_is_skipped(pattern, before, after.drop_last());
        assert(with.drop_last() == before + seq![Visit::Unreadable] + after.drop_last());
        assert(without.drop_last() == before + after.drop_last());
        assert(with.last() == without.last());
    }
}

} // verus!
