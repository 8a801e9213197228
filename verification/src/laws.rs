//! The laws of the search: what each strategy is guaranteed to find or to
//! report, proved once and for all over the specification functions that
//! the searchers' own contracts are stated in.

use vstd::math::min;
use vstd::prelude::*;

use crate::model::ancestor_at;
use crate::model::has_kid_name;
use crate::model::kid_clean;
use crate::model::kid_has;
use crate::model::kids_result;
use crate::model::kids_scan;
use crate::model::parents_from;
use crate::model::parents_result;
use crate::model::probe_hits;
use crate::model::probe_misses;
use crate::model::tree_clean;
use crate::model::tree_has;
use crate::model::Error;
use crate::model::FsTree;
use crate::model::IoError;
use crate::model::KidEntry;
use crate::model::Listing;
use crate::model::Search;

verus! {

/// An ascending search finds a folder named at the starting directory
/// itself whatever its depth budget, a budget of zero included.
pub proof fn lemma_parents_finds_at_start(
    depth: int,
    name: Seq<char>,
    path: Seq<Seq<char>>,
    ls: Seq<Listing>,
)
    requires
        0 <= depth,
        probe_hits(name, ls[0]),
    ensures
        parents_result(depth, name, path, ls) == Ok::<Seq<Seq<char>>, Error>(path.push(name)),
{
    assert(ancestor_at(path, 0) =~= path);
}

/// An ascending search that has reached the ancestor `i` levels up finds
/// the folder listed by the ancestor `k` levels up, provided the budget
/// and the root are not exhausted first and every listing on the way up
/// is a clean miss.
proof fn lemma_parents_from_hit(
    depth: int,
    name: Seq<char>,
    path: Seq<Seq<char>>,
    ls: Seq<Listing>,
    i: int,
    k: int,
)
    requires
        0 <= i <= k,
        k - i <= depth,
        k <= path.len(),
        forall|j: int| i <= j < k ==> probe_misses(name, ls[j]),
        probe_hits(name, ls[k]),
    ensures
        parents_from(depth, name, path, ls, i) == Ok::<Seq<Seq<char>>, Error>(
            ancestor_at(path, k).push(name),
        ),
    decreases k - i,
{
    if i < k {
        assert(probe_misses(name, ls[i]));
        lemma_parents_from_hit(depth - 1, name, path, ls, i + 1, k);
    }
}

/// An ascending search of depth `depth` finds the folder named `name`
/// listed by the ancestor exactly `k <= depth` levels above the start,
/// when every ancestor below lists cleanly without a match.
pub proof fn lemma_parents_finds_at_exact_level(
    depth: int,
    name: Seq<char>,
    path: Seq<Seq<char>>,
    ls: Seq<Listing>,
    k: int,
)
    requires
        0 <= k <= depth,
        k <= path.len(),
        forall|j: int| 0 <= j < k ==> probe_misses(name, ls[j]),
        probe_hits(name, ls[k]),
    ensures
        parents_result(depth, name, path, ls) == Ok::<Seq<Seq<char>>, Error>(
            ancestor_at(path, k).push(name),
        ),
{
    lemma_parents_from_hit(depth, name, path, ls, 0, k);
}

/// An ascending search that has reached the ancestor `i` levels up ends in
/// `NotFound` when every ancestor still within its reach lists cleanly
/// without a match — however close beyond that reach a match may lie.
proof fn lemma_parents_from_all_miss(
    depth: int,
    name: Seq<char>,
    path: Seq<Seq<char>>,
    ls: Seq<Listing>,
    i: int,
)
    requires
        0 <= depth,
        0 <= i <= path.len(),
        forall|j: int| i <= j <= i + min(depth, path.len() - i) ==> probe_misses(name, ls[j]),
    ensures
        parents_from(depth, name, path, ls, i) == Err::<Seq<Seq<char>>, Error>(Error::NotFound),
    decreases depth,
{
    assert(probe_misses(name, ls[i]));
    if depth > 0 && path.len() - i > 0 {
        lemma_parents_from_all_miss(depth - 1, name, path, ls, i + 1);
    }
}

/// An ascending search of depth `depth` ends in `NotFound` when the start
/// and every ancestor within its reach list cleanly without a match: a
/// folder whose listing sits `depth + 1` or more levels up is never seen.
pub proof fn lemma_parents_not_found(
    depth: int,
    name: Seq<char>,
    path: Seq<Seq<char>>,
    ls: Seq<Listing>,
)
    requires
        0 <= depth,
        forall|j: int| 0 <= j <= min(depth, path.len() as int) ==> probe_misses(name, ls[j]),
    ensures
        parents_result(depth, name, path, ls) == Err::<Seq<Seq<char>>, Error>(Error::NotFound),
{
    lemma_parents_from_all_miss(depth, name, path, ls, 0);
}

/// A descending search finds a folder named among the starting
/// directory's own entries whatever its depth budget, a budget of zero
/// included.
pub proof fn lemma_kids_finds_at_start(
    depth: int,
    name: Seq<char>,
    dir: Seq<Seq<char>>,
    t: FsTree,
)
    requires
        0 <= depth,
        t matches FsTree::Listed(es) && has_kid_name(es@, name),
    ensures
        kids_result(depth, name, dir, t) == Ok::<Seq<Seq<char>>, Error>(dir.push(name)),
{
}

/// A descending search over a clean tree that holds no folder named
/// `name` within its budget ends in `NotFound`.
pub proof fn lemma_kids_not_found(depth: int, name: Seq<char>, dir: Seq<Seq<char>>, t: FsTree)
    requires
        0 <= depth,
        tree_clean(t, depth),
        !tree_has(t, name, depth),
    ensures
        kids_result(depth, name, dir, t) == Err::<Seq<Seq<char>>, Error>(Error::NotFound),
    decreases depth, 1int, 0int,
{
    match t {
        FsTree::Listed(es) => {
            if depth > 0 {
                lemma_kids_scan_not_found(depth, name, dir, es@, 0);
            }
        },
        FsTree::Failed(_) => {},
    }
}

/// The entry walk of a descending search ends in `NotFound` when every
/// entry is clean and none has the folder within reach.
proof fn lemma_kids_scan_not_found(
    depth: int,
    name: Seq<char>,
    dir: Seq<Seq<char>>,
    es: Seq<KidEntry>,
    i: int,
)
    requires
        0 < depth,
        0 <= i <= es.len(),
        forall|j: int| 0 <= j < es.len() ==> kid_clean(#[trigger] es[j], depth),
        forall|j: int| 0 <= j < es.len() ==> !kid_has(#[trigger] es[j], name, depth),
    ensures
        kids_scan(depth, name, dir, es, i) == Err::<Seq<Seq<char>>, Error>(Error::NotFound),
    decreases depth, 0int, es.len() - i,
{
    if i < es.len() {
        match es[i].sub {
            Some(sub) => {
                lemma_kids_not_found(depth - 1, name, dir.push(es[i].name@), *sub);
            },
            None => {},
        }
        lemma_kids_scan_not_found(depth, name, dir, es, i + 1);
    }
}

/// A descending search over a clean tree that holds a folder named `name`
/// within its budget succeeds, and the path it returns names that folder:
/// it ends in `name`.
pub proof fn lemma_kids_finds(depth: int, name: Seq<char>, dir: Seq<Seq<char>>, t: FsTree)
    requires
        0 <= depth,
        tree_clean(t, depth),
        tree_has(t, name, depth),
    ensures
        kids_result(depth, name, dir, t) matches Ok(p) && p.last() == name,
    decreases depth, 1int, 0int,
{
    match t {
        FsTree::Listed(es) => {
            if !has_kid_name(es@, name) {
                lemma_kids_scan_finds(depth, name, dir, es@, 0);
            }
        },
        FsTree::Failed(_) => {},
    }
}

/// The entry walk of a descending search succeeds when every entry is
/// clean and some entry not yet passed has the folder within reach.
proof fn lemma_kids_scan_finds(
    depth: int,
    name: Seq<char>,
    dir: Seq<Seq<char>>,
    es: Seq<KidEntry>,
    i: int,
)
    requires
        0 < depth,
        0 <= i <= es.len(),
        forall|j: int| 0 <= j < es.len() ==> kid_clean(#[trigger] es[j], depth),
        exists|j: int| i <= j < es.len() && kid_has(#[trigger] es[j], name, depth),
    ensures
        kids_scan(depth, name, dir, es, i) matches Ok(p) && p.last() == name,
    decreases depth, 0int, es.len() - i,
{
    let w = choose|j: int| i <= j < es.len() && kid_has(es[j], name, depth);
    if kid_has(es[i], name, depth) {
        match es[i].sub {
            Some(sub) => {
                lemma_kids_finds(depth - 1, name, dir.push(es[i].name@), *sub);
            },
            None => {},
        }
    } else {
        assert(i + 1 <= w);
        match es[i].sub {
            Some(sub) => {
                lemma_kids_not_found(depth - 1, name, dir.push(es[i].name@), *sub);
            },
            None => {},
        }
        lemma_kids_scan_finds(depth, name, dir, es, i + 1);
    }
}

/// `Both` and `ParentsThenKids` are the same strategy: on every input they
/// return the same outcome, error classification included.
pub proof fn lemma_both_equals_parents_then_kids(
    p: u8,
    k: u8,
    name: Seq<char>,
    cwd: Seq<Seq<char>>,
    ls: Seq<Listing>,
    t: FsTree,
)
    ensures
        Search::Both(p, k).strategy_result(name, cwd, ls, t) == Search::ParentsThenKids(
            p,
            k,
        ).strategy_result(name, cwd, ls, t),
{
}

/// `KidsThenParents` prefers a match found below the starting directory:
/// whenever its descending phase succeeds, that success is the outcome,
/// whatever an ascending search would have found.
pub proof fn lemma_kids_then_parents_prefers_kids(
    kd: u8,
    pd: u8,
    name: Seq<char>,
    cwd: Seq<Seq<char>>,
    ls: Seq<Listing>,
    t: FsTree,
    p: Seq<Seq<char>>,
)
    requires
        kids_result(kd as int, name, cwd, t) == Ok::<Seq<Seq<char>>, Error>(p),
    ensures
        Search::KidsThenParents(kd, pd).strategy_result(name, cwd, ls, t) == Ok::<
            Seq<Seq<char>>,
            Error,
        >(p),
{
}

/// An I/O error in the ascending phase of `Both` or `ParentsThenKids` is
/// the outcome: the descending phase never masks it.
pub proof fn lemma_parents_io_error_short_circuits(
    pd: u8,
    kd: u8,
    name: Seq<char>,
    cwd: Seq<Seq<char>>,
    ls: Seq<Listing>,
    t: FsTree,
    e: IoError,
)
    requires
        parents_result(pd as int, name, cwd, ls) == Err::<Seq<Seq<char>>, Error>(Error::IO(e)),
    ensures
        Search::Both(pd, kd).strategy_result(name, cwd, ls, t) == Err::<Seq<Seq<char>>, Error>(
            Error::IO(e),
        ),
        Search::ParentsThenKids(pd, kd).strategy_result(name, cwd, ls, t) == Err::<
            Seq<Seq<char>>,
            Error,
        >(Error::IO(e)),
{
}

/// An I/O error in the descending phase of `KidsThenParents` is the
/// outcome: the ascending phase never masks it.
pub proof fn lemma_kids_io_error_short_circuits(
    kd: u8,
    pd: u8,
    name: Seq<char>,
    cwd: Seq<Seq<char>>,
    ls: Seq<Listing>,
    t: FsTree,
    e: IoError,
)
    requires
        kids_result(kd as int, name, cwd, t) == Err::<Seq<Seq<char>>, Error>(Error::IO(e)),
    ensures
        Search::KidsThenParents(kd, pd).strategy_result(name, cwd, ls, t) == Err::<
            Seq<Seq<char>>,
            Error,
        >(Error::IO(e)),
{
}

} // verus!
