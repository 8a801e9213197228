//! The searchers: the single-directory probe, the ascending and descending
//! walkers, and the strategy dispatch, each proved to return exactly what
//! the specification functions of `model` define.

use vstd::prelude::*;

use crate::model::ancestors_needed;
use crate::model::dir_result;
use crate::model::has_kid_name;
use crate::model::has_name;
use crate::model::kids_result;
use crate::model::kids_scan;
use crate::model::outcome_view;
use crate::model::parents_from;
use crate::model::parents_result;
use crate::model::Error;
use crate::model::FsTree;
use crate::model::KidEntry;
use crate::model::Listing;
use crate::model::Search;

verus! {

/// Whether some element of `es` reads exactly like `target`.
fn contains_name(es: &Vec<String>, target: &String) -> (b: bool)
    ensures
        b == has_name(es@, target@),
{
    let mut i: usize = 0;
    while i < es.len()
        invariant
            i <= es@.len(),
            forall|j: int| 0 <= j < i ==> es@[j]@ != target@,
        decreases es@.len() - i,
    {
        if es[i] == *target {
            assert(es@[i as int]@ == target@);
            return true;
        }
        i += 1;
    }
    false
}

/// Whether some entry of `es` is named exactly like `target`.
fn contains_kid_name(es: &Vec<KidEntry>, target: &String) -> (b: bool)
    ensures
        b == has_kid_name(es@, target@),
{
    let mut i: usize = 0;
    while i < es.len()
        invariant
            i <= es@.len(),
            forall|j: int| 0 <= j < i ==> es@[j].name@ != target@,
        decreases es@.len() - i,
    {
        if es[i].name == *target {
            assert(es@[i as int].name@ == target@);
            return true;
        }
        i += 1;
    }
    false
}

/// The first `keep` components of `path`, extended by `name`: the path of
/// a folder named `name` found in the ancestor `path.len() - keep` levels
/// above `path`.
fn path_with(path: &Vec<String>, keep: usize, name: &str) -> (out: Vec<String>)
    requires
        keep <= path@.len(),
    ensures
        out.deep_view() == path.deep_view().take(keep as int).push(name@),
{
    let mut out: Vec<String> = Vec::new();
    let mut j: usize = 0;
    while j < keep
        invariant
            j <= keep,
            keep <= path@.len(),
            out@.len() == j,
            forall|k: int| 0 <= k < j ==> out@[k]@ == path@[k]@,
        decreases keep - j,
    {
        out.push(path[j].clone());
        j += 1;
    }
    out.push(name.to_owned());
    assert(out.deep_view() =~= path.deep_view().take(keep as int).push(name@));
    out
}

/// Probe one directory: return the folder named exactly `name` among the
/// immediate entries listed in `listing`, as `path` extended by `name`;
/// `NotFound` when no entry matches; the listing's own error when the
/// directory could not be listed.
pub fn check_dir(name: &str, path: &Vec<String>, listing: &Listing) -> (r: Result<
    Vec<String>,
    Error,
>)
    ensures
        outcome_view(r) == dir_result(name@, path.deep_view(), *listing),
{
    match listing {
        Listing::Entries(es) => {
            let target: String = name.to_owned();
            if contains_name(es, &target) {
                assert(path.deep_view().take(path@.len() as int) =~= path.deep_view());
                Ok(path_with(path, path.len(), name))
            } else {
                Err(Error::NotFound)
            }
        },
        Listing::Failed(e) => Err(Error::IO(*e)),
    }
}

/// Search `path` and up to `depth` ancestor levels above it for a folder
/// named exactly `name`. `listings[i]` pictures the directory `i` levels
/// above `path` (`listings[0]` is `path` itself); listings past the first
/// hit, error, or the search's reach are never read. The first probe that
/// finds the name wins; an I/O error aborts the remaining ascent; reaching
/// the budget or the filesystem root without a match gives `NotFound`.
pub fn check_parents(depth: u8, name: &str, path: &Vec<String>, listings: &Vec<Listing>) -> (r:
    Result<Vec<String>, Error>)
    requires
        listings@.len() >= ancestors_needed(depth as int, path@.len() as int),
    ensures
        outcome_view(r) == parents_result(depth as int, name@, path.deep_view(), listings@),
{
    let target: String = name.to_owned();
    let mut i: usize = 0;
    loop
        invariant
            i <= depth as int,
            i <= path@.len(),
            target@ == name@,
            listings@.len() >= ancestors_needed(depth as int, path@.len() as int),
            parents_result(depth as int, name@, path.deep_view(), listings@) == parents_from(
                depth as int - i,
                name@,
                path.deep_view(),
                listings@,
                i as int,
            ),
        decreases depth as int - i,
    {
        match &listings[i] {
            Listing::Failed(e) => {
                return Err(Error::IO(*e));
            },
            Listing::Entries(es) => {
                if contains_name(es, &target) {
                    let out = path_with(path, path.len() - i, name);
                    return Ok(out);
                }
            },
        }
        if i < depth as usize && i < path.len() {
            i += 1;
        } else {
            return Err(Error::NotFound);
        }
    }
}

/// Search the directory pictured by `tree` and up to `depth` levels of
/// subdirectories below it for a folder named exactly `name`, depth first
/// and in entry order. A match in the directory itself wins; an I/O error
/// anywhere in the branch aborts it, later siblings included; exhausting
/// the budget and every subdirectory gives `NotFound`. `path` names the
/// pictured directory and prefixes every returned path.
pub fn check_kids(depth: u8, name: &str, path: &Vec<String>, tree: &FsTree) -> (r: Result<
    Vec<String>,
    Error,
>)
    ensures
        outcome_view(r) == kids_result(depth as int, name@, path.deep_view(), *tree),
    decreases depth,
{
    match tree {
        FsTree::Listed(es) => {
            let target: String = name.to_owned();
            if contains_kid_name(es, &target) {
                assert(path.deep_view().take(path@.len() as int) =~= path.deep_view());
                return Ok(path_with(path, path.len(), name));
            }
            if depth == 0 {
                return Err(Error::NotFound);
            }
            let mut i: usize = 0;
            while i < es.len()
                invariant
                    depth > 0,
                    i <= es@.len(),
                    target@ == name@,
                    *tree == FsTree::Listed(*es),
                    !has_kid_name(es@, name@),
                    kids_scan(depth as int, name@, path.deep_view(), es@, i as int) == kids_scan(
                        depth as int,
                        name@,
                        path.deep_view(),
                        es@,
                        0,
                    ),
                decreases es@.len() - i,
            {
                match &es[i].sub {
                    Some(sub) => {
                        assert(path.deep_view().take(path@.len() as int) =~= path.deep_view());
                        let child_path = path_with(path, path.len(), es[i].name.as_str());
                        match check_kids(depth - 1, name, &child_path, &**sub) {
                            Ok(p) => {
                                return Ok(p);
                            },
                            Err(Error::IO(e)) => {
                                return Err(Error::IO(e));
                            },
                            Err(Error::NotFound) => {},
                        }
                    },
                    None => {},
                }
                i += 1;
            }
            Err(Error::NotFound)
        },
        FsTree::Failed(e) => Err(Error::IO(*e)),
    }
}

impl Search {
    /// Search for a folder named exactly `name`, starting from the
    /// directory whose components are `cwd`, in the direction and order the
    /// strategy names. `listings` pictures `cwd` and its ancestors as
    /// `check_parents` expects; `tree` pictures `cwd` and its descendants
    /// as `check_kids` expects. For the two-phase strategies, only an
    /// explicit `NotFound` from the first phase lets the second run: a
    /// success or an I/O error is returned at once.
    pub fn for_folder(&self, name: &str, cwd: &Vec<String>, listings: &Vec<Listing>, tree: &FsTree)
        -> (r: Result<Vec<String>, Error>)
        requires
            listings@.len() >= self.listings_needed(cwd@.len() as int),
        ensures
            outcome_view(r) == self.strategy_result(name@, cwd.deep_view(), listings@, *tree),
    {
        match *self {
            Search::Parents(d) => check_parents(d, name, cwd, listings),
            Search::Kids(d) => check_kids(d, name, cwd, tree),
            Search::Both(p, k) => match check_parents(p, name, cwd, listings) {
                Err(Error::NotFound) => check_kids(k, name, cwd, tree),
                r => r,
            },
            Search::ParentsThenKids(p, k) => match check_parents(p, name, cwd, listings) {
                Err(Error::NotFound) => check_kids(k, name, cwd, tree),
                r => r,
            },
            Search::KidsThenParents(k, p) => match check_kids(k, name, cwd, tree) {
                Err(Error::NotFound) => check_parents(p, name, cwd, listings),
                r => r,
            },
        }
    }
}

} // verus!
