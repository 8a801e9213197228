//! The data model of a search: strategies, outcomes, and the plain-value
//! picture of the filesystem that a search runs over, together with the
//! specification functions that define what each search returns.

use vstd::prelude::*;

verus! {

/// An I/O failure met while listing a directory, reduced to the operating
/// system's error code (0 where none was given).
#[derive(Clone, Copy, Debug, PartialEq, Eq, Structural)]
pub struct IoError {
    pub code: i32,
}

/// Why a search did not return a folder.
#[derive(Clone, Copy, Debug, PartialEq, Eq, Structural)]
pub enum Error {
    /// Listing a directory failed; the search stopped at once.
    IO(IoError),
    /// The search space was exhausted without a match.
    NotFound,
}

/// Depth of recursion through kids.
pub type KidsDepth = u8;

/// Depth of recursion through parents.
pub type ParentsDepth = u8;

/// The direction in which `for_folder` searches, with the depth budget
/// for each direction. Depth `d` means: probe the starting directory
/// itself, then up to `d` further levels in the given direction.
#[derive(Clone, Copy, Debug, PartialEq, Eq, Structural)]
pub enum Search {
    /// Search the starting directory, then up to the given number of
    /// ancestor directories above it.
    Parents(ParentsDepth),
    /// Search the starting directory, then up to the given number of
    /// levels of descendant directories below it.
    Kids(KidsDepth),
    /// Search parents first, then kids.
    Both(ParentsDepth, KidsDepth),
    /// Search parents first, then kids; identical to `Both`, kept as an
    /// explicit alias.
    ParentsThenKids(ParentsDepth, KidsDepth),
    /// Search kids first, then parents.
    KidsThenParents(KidsDepth, ParentsDepth),
}

/// What listing one directory yielded: its entry names in enumeration
/// order, or the I/O error that the listing ended in.
pub enum Listing {
    /// The terminal name of each immediate entry, in enumeration order.
    Entries(Vec<String>),
    /// The directory could not be listed.
    Failed(IoError),
}

/// One immediate entry of a directory in the descendant tree: its terminal
/// name, and its own subtree when the entry is itself a directory.
pub struct KidEntry {
    pub name: String,
    /// `None` for an entry that is not a directory; otherwise the picture
    /// of that subdirectory.
    pub sub: Option<Box<FsTree>>,
}

/// A bounded picture of a directory and its descendants: either the
/// directory's immediate entries, each with its own subtree where it is a
/// directory, or the I/O error its listing ended in.
pub enum FsTree {
    Listed(Vec<KidEntry>),
    Failed(IoError),
}

/// Whether some entry name in `names` reads exactly `name`.
pub open spec fn has_name(names: Seq<String>, name: Seq<char>) -> bool {
    exists|i: int| 0 <= i < names.len() && names[i]@ == name
}

/// Whether some entry of a descendant listing is named exactly `name`.
pub open spec fn has_kid_name(es: Seq<KidEntry>, name: Seq<char>) -> bool {
    exists|i: int| 0 <= i < es.len() && es[i].name@ == name
}

/// What probing one directory returns: the first (and, names being unique
/// per directory, only) entry named exactly `name` as `dir` extended by
/// `name`, `NotFound` when no entry matches, or the listing's own error.
pub open spec fn dir_result(name: Seq<char>, dir: Seq<Seq<char>>, l: Listing) -> Result<
    Seq<Seq<char>>,
    Error,
> {
    match l {
        Listing::Entries(es) => if has_name(es@, name) {
            Ok(dir.push(name))
        } else {
            Err(Error::NotFound)
        },
        Listing::Failed(e) => Err(Error::IO(e)),
    }
}

/// The ancestor of `path` that lies `i` levels above it: its first
/// `path.len() - i` components.
pub open spec fn ancestor_at(path: Seq<Seq<char>>, i: int) -> Seq<Seq<char>> {
    path.take(path.len() - i)
}

/// What the ascending search returns once it has reached the ancestor `i`
/// levels above `path`, with `depth` further levels allowed: the probe of
/// that ancestor, or, on `NotFound` with budget and a parent left, the
/// result one level further up. `ls[j]` is the listing of the ancestor `j`
/// levels above `path`.
pub open spec fn parents_from(
    depth: int,
    name: Seq<char>,
    path: Seq<Seq<char>>,
    ls: Seq<Listing>,
    i: int,
) -> Result<Seq<Seq<char>>, Error>
    decreases depth,
{
    let r = dir_result(name, ancestor_at(path, i), ls[i]);
    if r == Err::<Seq<Seq<char>>, Error>(Error::NotFound) && depth > 0 && path.len() - i > 0 {
        parents_from(depth - 1, name, path, ls, i + 1)
    } else {
        r
    }
}

/// What the ascending search returns for a starting path and its ancestor
/// listings.
pub open spec fn parents_result(
    depth: int,
    name: Seq<char>,
    path: Seq<Seq<char>>,
    ls: Seq<Listing>,
) -> Result<Seq<Seq<char>>, Error> {
    parents_from(depth, name, path, ls, 0)
}

/// What the descending search returns at a directory pictured by `t`:
/// the probe of `t`'s own listing; on `NotFound` with budget left, the
/// first success among its subdirectory searches in entry order, with an
/// I/O error met there ending the whole branch.
pub open spec fn kids_result(depth: int, name: Seq<char>, dir: Seq<Seq<char>>, t: FsTree) -> Result<
    Seq<Seq<char>>,
    Error,
>
    decreases depth, 1int, 0int,
{
    match t {
        FsTree::Listed(es) => if has_kid_name(es@, name) {
            Ok(dir.push(name))
        } else if depth > 0 {
            kids_scan(depth, name, dir, es@, 0)
        } else {
            Err(Error::NotFound)
        },
        FsTree::Failed(e) => Err(Error::IO(e)),
    }
}

/// The walk of a directory's entries from index `i` on during a descending
/// search: the first success among the subdirectory searches, an I/O error
/// as soon as one is met, or `NotFound` past the last entry.
pub open spec fn kids_scan(
    depth: int,
    name: Seq<char>,
    dir: Seq<Seq<char>>,
    es: Seq<KidEntry>,
    i: int,
) -> Result<Seq<Seq<char>>, Error>
    decreases depth, 0int, es.len() - i,
{
    if i < 0 || i >= es.len() || depth <= 0 {
        Err(Error::NotFound)
    } else {
        match es[i].sub {
            Some(sub) => match kids_result(depth - 1, name, dir.push(es[i].name@), *sub) {
                Ok(p) => Ok(p),
                Err(Error::IO(e)) => Err(Error::IO(e)),
                Err(Error::NotFound) => kids_scan(depth, name, dir, es, i + 1),
            },
            None => kids_scan(depth, name, dir, es, i + 1),
        }
    }
}

/// How many ancestor listings an ascending search of depth `depth` from a
/// path of `plen` components consumes: one for the starting directory and
/// one per ancestor level within reach.
pub open spec fn ancestors_needed(depth: int, plen: int) -> int {
    if depth < plen {
        depth + 1
    } else {
        plen + 1
    }
}

impl Search {
    /// The depth budget of the ascending phase, if the strategy has one.
    pub open spec fn parents_depth(self) -> Option<int> {
        match self {
            Search::Parents(d) => Some(d as int),
            Search::Kids(_) => None,
            Search::Both(p, _) => Some(p as int),
            Search::ParentsThenKids(p, _) => Some(p as int),
            Search::KidsThenParents(_, p) => Some(p as int),
        }
    }

    /// How many ancestor listings a strategy consumes when run from a
    /// starting path of `plen` components: one for the starting directory
    /// and one per ancestor level it may reach, none when it never ascends.
    pub open spec fn listings_needed(self, plen: int) -> int {
        match self.parents_depth() {
            Some(d) => ancestors_needed(d, plen),
            None => 0,
        }
    }

    /// What a strategy returns for a starting path, its ancestor listings,
    /// and the tree of its descendants: the single phase's result verbatim,
    /// or, for the two-phase strategies, the first phase's result unless
    /// that is exactly `NotFound`, in which case the second phase's.
    pub open spec fn strategy_result(
        self,
        name: Seq<char>,
        cwd: Seq<Seq<char>>,
        ls: Seq<Listing>,
        t: FsTree,
    ) -> Result<Seq<Seq<char>>, Error> {
        match self {
            Search::Parents(d) => parents_result(d as int, name, cwd, ls),
            Search::Kids(d) => kids_result(d as int, name, cwd, t),
            Search::Both(p, k) => match parents_result(p as int, name, cwd, ls) {
                Err(Error::NotFound) => kids_result(k as int, name, cwd, t),
                r => r,
            },
            Search::ParentsThenKids(p, k) => match parents_result(p as int, name, cwd, ls) {
                Err(Error::NotFound) => kids_result(k as int, name, cwd, t),
                r => r,
            },
            Search::KidsThenParents(k, p) => match kids_result(k as int, name, cwd, t) {
                Err(Error::NotFound) => parents_result(p as int, name, cwd, ls),
                r => r,
            },
        }
    }
}

/// A listing that was read without error and holds no entry named `name`:
/// the one probe outcome that lets a search move on.
pub open spec fn probe_misses(name: Seq<char>, l: Listing) -> bool {
    l matches Listing::Entries(es) && !has_name(es@, name)
}

/// A listing that was read without error and holds an entry named `name`.
pub open spec fn probe_hits(name: Seq<char>, l: Listing) -> bool {
    l matches Listing::Entries(es) && has_name(es@, name)
}

/// Whether every directory a descending search of budget `depth` may list
/// in the tree `t` was listed without error: the root always, and, while
/// budget remains, each subdirectory in turn.
pub open spec fn tree_clean(t: FsTree, depth: int) -> bool
    decreases depth, 1int,
{
    match t {
        FsTree::Listed(es) => forall|i: int|
            0 <= i < es@.len() ==> kid_clean(#[trigger] es@[i], depth),
        FsTree::Failed(_) => false,
    }
}

/// Whether one entry keeps a descending search of budget `depth` clean:
/// always once the budget is spent or for a non-directory, else its
/// subtree must be clean one level deeper.
pub open spec fn kid_clean(e: KidEntry, depth: int) -> bool
    decreases depth, 0int,
{
    depth <= 0 || match e.sub {
        Some(sub) => tree_clean(*sub, depth - 1),
        None => true,
    }
}

/// Whether a descending search of budget `depth` over the tree `t` has a
/// folder named `name` within reach: among the root's entries, or, while
/// budget remains, within some subdirectory.
pub open spec fn tree_has(t: FsTree, name: Seq<char>, depth: int) -> bool
    decreases depth, 1int,
{
    match t {
        FsTree::Listed(es) => has_kid_name(es@, name) || (exists|i: int|
            0 <= i < es@.len() && kid_has(#[trigger] es@[i], name, depth)),
        FsTree::Failed(_) => false,
    }
}

/// Whether one entry puts a folder named `name` within reach of a
/// descending search of budget `depth`: only a directory entry can, and
/// only with budget left, one level deeper into its subtree.
pub open spec fn kid_has(e: KidEntry, name: Seq<char>, depth: int) -> bool
    decreases depth, 0int,
{
    depth > 0 && match e.sub {
        Some(sub) => tree_has(*sub, name, depth - 1),
        None => false,
    }
}

/// A search outcome seen at the specification level: the found path as a
/// sequence of component names, or the error unchanged.
pub open spec fn outcome_view(r: Result<Vec<String>, Error>) -> Result<Seq<Seq<char>>, Error> {
    match r {
        Ok(p) => Ok(p.deep_view()),
        Err(e) => Err(e),
    }
}

} // verus!
