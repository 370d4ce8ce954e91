//! What the ascending search returns, stated over a fixed set of regular files,
//! and the laws that follow from that statement.
//!
//! The search walks from a starting path towards the root. At each level it
//! accepts the level itself when that is a regular file with the wanted name,
//! else the entry of that name inside the level when that is a regular file.
//! It gives up after the level that equals the stop path, or after the root.
//!
//! [`search`] follows that walk. The laws say what it amounts to: the result
//! is the match of the nearest level that holds one, among the levels from the
//! start up to the last level, and there is no result exactly when none of
//! these levels holds a match.

use vstd::prelude::*;
use crate::path::PathView;

verus! {

/// The ancestor of `path` that lies `level` components above it; level 0 is
/// the path itself and level `path.len()` is the root.
pub open spec fn ancestor(path: PathView, level: int) -> PathView
    recommends
        0 <= level <= path.len(),
{
    path.take(path.len() - level)
}

/// The deepest level that the search still examines: the level of `stop`
/// where `stop` is the start or one of its ancestors, else the root's level.
pub open spec fn last_level(start: PathView, stop: PathView) -> int {
    if stop.is_prefix_of(start) {
        start.len() - stop.len()
    } else {
        start.len() as int
    }
}

/// `dir` is one of the levels that the search examines: the start or one of
/// its ancestors, up to the last level.
pub open spec fn is_level(start: PathView, stop: PathView, dir: PathView) -> bool {
    dir.is_prefix_of(start) && start.len() - dir.len() <= last_level(start, stop)
}

/// `path` is one of the paths that the search can return, whatever the
/// filesystem holds: a level that bears the name, or the entry of that name
/// inside a level.
pub open spec fn is_candidate(
    start: PathView,
    stop: PathView,
    name: Seq<char>,
    path: PathView,
) -> bool {
    path.len() > 0 && path.last() == name && (is_level(start, stop, path) || is_level(
        start,
        stop,
        path.drop_last(),
    ))
}

/// What the search accepts at the single level `dir`: `dir` itself when it is
/// a regular file named `name`, else the entry `name` inside `dir` when that is
/// a regular file, else nothing.
pub open spec fn match_at(files: Set<PathView>, dir: PathView, name: Seq<char>) -> Option<
    PathView,
> {
    if dir.len() > 0 && dir.last() == name && files.contains(dir) {
        Some(dir)
    } else if files.contains(dir.push(name)) {
        Some(dir.push(name))
    } else {
        None
    }
}

/// The outcome of the ascending search for `name` from `start`, bounded by
/// `stop`, where `files` are the paths that denote regular files.
pub open spec fn search(
    files: Set<PathView>,
    start: PathView,
    stop: PathView,
    name: Seq<char>,
) -> Option<PathView>
    decreases start.len(),
{
    if match_at(files, start, name) is Some {
        match_at(files, start, name)
    } else if start == stop || start.len() == 0 {
        None
    } else {
        search(files, start.drop_last(), stop, name)
    }
}

/// No level from `start` up to and including `level` holds a match.
pub open spec fn no_match_through(
    files: Set<PathView>,
    start: PathView,
    name: Seq<char>,
    level: int,
) -> bool {
    forall|j: int| 0 <= j <= level ==> (#[trigger] match_at(files, ancestor(start, j), name)) is None
}

/// Moving the start one level up moves every ancestor and the last level with
/// it.
proof fn lemma_step_up(start: PathView, stop: PathView)
    requires
        start.len() > 0,
        start != stop,
    ensures
        last_level(start.drop_last(), stop) == last_level(start, stop) - 1,
        last_level(start, stop) >= 1,
        forall|j: int|
            0 <= j < start.len() ==> #[trigger] ancestor(start.drop_last(), j) == ancestor(
                start,
                j + 1,
            ),
{
    // A prefix of the start that is as long as the start is the start.
    if stop.is_prefix_of(start) && stop.len() == start.len() {
        assert(start =~= stop);
    }
}

/// The levels above the start hold no match through `level - 1` exactly when
/// the start holds none and the levels of its parent hold none through
/// `level - 2`.
proof fn lemma_no_match_above(files: Set<PathView>, start: PathView, name: Seq<char>, level: int)
    requires
        start.len() > 0,
        0 <= level <= start.len(),
    ensures
        no_match_through(files, start, name, level) <==> match_at(files, start, name) is None
            && no_match_through(files, start.drop_last(), name, level - 1),
{
    let up = start.drop_last();
    assert(ancestor(start, 0) =~= start);
    assert forall|j: int| 0 <= j < start.len() implies #[trigger] ancestor(up, j) == ancestor(
        start,
        j + 1,
    ) by {
        assert(ancestor(up, j) =~= ancestor(start, j + 1));
    }
    if no_match_through(files, start, name, level) {
        assert(match_at(files, ancestor(start, 0), name) is None);
        assert forall|j: int| 0 <= j <= level - 1 implies (#[trigger] match_at(
            files,
            ancestor(up, j),
            name,
        )) is None by {
            assert(match_at(files, ancestor(start, j + 1), name) is None);
        }
    }
    if match_at(files, start, name) is None && no_match_through(files, up, name, level - 1) {
        assert forall|j: int| 0 <= j <= level implies (#[trigger] match_at(
            files,
            ancestor(start, j),
            name,
        )) is None by {
            if j > 0 {
                assert(match_at(files, ancestor(up, j - 1), name) is None);
            }
        }
    }
}

/// The search returns the match of the nearest level that holds one, among
/// the levels from the start up to the last level.
pub proof fn lemma_search_returns_nearest_match(
    files: Set<PathView>,
    start: PathView,
    stop: PathView,
    name: Seq<char>,
    level: int,
)
    requires
        0 <= level <= last_level(start, stop),
        match_at(files, ancestor(start, level), name) is Some,
        no_match_through(files, start, name, level - 1),
    ensures
        search(files, start, stop, name) == match_at(files, ancestor(start, level), name),
    decreases start.len(),
{
    assert(ancestor(start, 0) =~= start);
    if level > 0 {
        lemma_step_up(start, stop);
        lemma_no_match_above(files, start, name, level - 1);
        lemma_search_returns_nearest_match(files, start.drop_last(), stop, name, level - 1);
    }
}

/// The search finds nothing exactly when no level from the start up to the
/// last level holds a match.
pub proof fn lemma_search_finds_nothing(
    files: Set<PathView>,
    start: PathView,
    stop: PathView,
    name: Seq<char>,
)
    ensures
        search(files, start, stop, name) is None <==> no_match_through(
            files,
            start,
            name,
            last_level(start, stop),
        ),
    decreases start.len(),
{
    assert(ancestor(start, 0) =~= start);
    if start == stop || start.len() == 0 {
        // The start is the only level.
        assert(last_level(start, stop) == 0);
    } else {
        lemma_step_up(start, stop);
        lemma_no_match_above(files, start, name, last_level(start, stop));
        lemma_search_finds_nothing(files, start.drop_last(), stop, name);
    }
}

/// The stop path is part of the search: where `stop` is the start or one of
/// its ancestors and holds a match, the search finds something; and where no
/// nearer level holds a match, it returns the match at `stop`. That match is
/// the entry of the name inside `stop`, unless `stop` is itself a regular file
/// of that name.
pub proof fn lemma_stop_is_inclusive(
    files: Set<PathView>,
    start: PathView,
    stop: PathView,
    name: Seq<char>,
)
    requires
        stop.is_prefix_of(start),
        match_at(files, stop, name) is Some,
    ensures
        search(files, start, stop, name) is Some,
        no_match_through(files, start, name, last_level(start, stop) - 1) ==> search(
            files,
            start,
            stop,
            name,
        ) == match_at(files, stop, name),
{
    let last = last_level(start, stop);
    assert(ancestor(start, last) =~= stop);
    lemma_search_finds_nothing(files, start, stop, name);
    if no_match_through(files, start, name, last - 1) {
        lemma_search_returns_nearest_match(files, start, stop, name, last);
    }
}

/// A start that is itself a regular file with the wanted name is returned as
/// it is, whatever lies inside or above it.
pub proof fn lemma_start_is_file(
    files: Set<PathView>,
    start: PathView,
    stop: PathView,
    name: Seq<char>,
)
    requires
        start.len() > 0,
        start.last() == name,
        files.contains(start),
    ensures
        search(files, start, stop, name) == Some(start),
{
}

/// Where no level from the start up to the last level holds the name, neither
/// as the level itself nor as an entry inside it, nothing is found.
pub proof fn lemma_not_found(
    files: Set<PathView>,
    start: PathView,
    stop: PathView,
    name: Seq<char>,
)
    requires
        no_match_through(files, start, name, last_level(start, stop)),
    ensures
        search(files, start, stop, name) is None,
{
    lemma_search_finds_nothing(files, start, stop, name);
}

/// Nearest wins: whatever the search returns is the match of some level up to
/// the last one, and no level nearer to the start holds a match.
pub proof fn lemma_nearest_wins(
    files: Set<PathView>,
    start: PathView,
    stop: PathView,
    name: Seq<char>,
) -> (level: int)
    requires
        search(files, start, stop, name) is Some,
    ensures
        0 <= level <= last_level(start, stop),
        search(files, start, stop, name) == match_at(files, ancestor(start, level), name),
        no_match_through(files, start, name, level - 1),
    decreases start.len(),
{
    assert(ancestor(start, 0) =~= start);
    if match_at(files, start, name) is Some {
        0
    } else {
        lemma_step_up(start, stop);
        let above = lemma_nearest_wins(files, start.drop_last(), stop, name);
        lemma_no_match_above(files, start, name, above);
        above + 1
    }
}

/// Whatever the search returns is a candidate: it bears the name, and it is
/// a level of the search or lies directly inside one.
pub proof fn lemma_search_returns_candidate(
    files: Set<PathView>,
    start: PathView,
    stop: PathView,
    name: Seq<char>,
)
    requires
        search(files, start, stop, name) is Some,
    ensures
        is_candidate(start, stop, name, search(files, start, stop, name).unwrap()),
{
    let level = lemma_nearest_wins(files, start, stop, name);
    let dir = ancestor(start, level);
    let found = search(files, start, stop, name).unwrap();
    if found != dir {
        assert(found.drop_last() =~= dir);
    }
}

} // verus!
