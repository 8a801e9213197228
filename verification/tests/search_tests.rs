use find_folder::check_dir;
use find_folder::check_kids;
use find_folder::check_parents;
use find_folder::Error;
use find_folder::FsTree;
use find_folder::IoError;
use find_folder::KidEntry;
use find_folder::Listing;
use find_folder::Search;

fn names(xs: &[&str]) -> Vec<String> {
    xs.iter().map(|x| x.to_string()).collect()
}

fn entries(xs: &[&str]) -> Listing {
    Listing::Entries(names(xs))
}

fn file(name: &str) -> KidEntry {
    KidEntry { name: name.to_string(), sub: None }
}

fn dir(name: &str, t: FsTree) -> KidEntry {
    KidEntry { name: name.to_string(), sub: Some(Box::new(t)) }
}

fn listed(es: Vec<KidEntry>) -> FsTree {
    FsTree::Listed(es)
}

fn empty_dir(name: &str) -> KidEntry {
    dir(name, listed(vec![]))
}

#[test]
fn probe_returns_matching_entry() {
    let path = names(&["home", "me", "project"]);
    let listing = entries(&["src", "assets", "target"]);
    assert_eq!(
        check_dir("assets", &path, &listing),
        Ok(names(&["home", "me", "project", "assets"]))
    );
}

#[test]
fn probe_misses_on_substring_and_case() {
    let path = names(&["home"]);
    let listing = entries(&["assets_old", "Assets", "asset"]);
    assert_eq!(check_dir("assets", &path, &listing), Err(Error::NotFound));
}

#[test]
fn probe_reports_listing_failure() {
    let path = names(&["home"]);
    let listing = Listing::Failed(IoError { code: 13 });
    assert_eq!(
        check_dir("assets", &path, &listing),
        Err(Error::IO(IoError { code: 13 }))
    );
}

#[test]
fn parents_depth_zero_still_checks_start() {
    let path = names(&["home", "me"]);
    let listings = vec![entries(&["assets", "src"])];
    assert_eq!(
        check_parents(0, "assets", &path, &listings),
        Ok(names(&["home", "me", "assets"]))
    );
}

#[test]
fn parents_finds_at_start_regardless_of_depth() {
    let path = names(&["home", "me"]);
    let listings = vec![entries(&["assets"]), entries(&["me"]), entries(&["home"])];
    for depth in [0u8, 1, 2, 255] {
        assert_eq!(
            check_parents(depth, "assets", &path, &listings),
            Ok(names(&["home", "me", "assets"]))
        );
    }
}

#[test]
fn parents_scenario_nested_tree() {
    // Directories `root`, `root/a`, `root/a/b`; the search starts in
    // `root/a/b` and looks for `a`, whose entry sits in the listing of
    // `root`, two ancestor levels up.
    let path = names(&["root", "a", "b"]);
    let listings = vec![entries(&[]), entries(&["b"]), entries(&["a"]), entries(&["root"])];
    assert_eq!(
        check_parents(2, "a", &path, &listings),
        Ok(names(&["root", "a"]))
    );
    assert_eq!(check_parents(1, "a", &path, &listings), Err(Error::NotFound));
    assert_eq!(check_parents(0, "a", &path, &listings), Err(Error::NotFound));
}

#[test]
fn parents_first_hit_wins_over_higher_one() {
    let path = names(&["top", "mid"]);
    let listings = vec![entries(&["assets"]), entries(&["assets", "mid"])];
    assert_eq!(
        check_parents(1, "assets", &path, &listings),
        Ok(names(&["top", "mid", "assets"]))
    );
}

#[test]
fn parents_stops_at_filesystem_root() {
    let path: Vec<String> = vec![];
    let listings = vec![entries(&["etc", "usr"])];
    assert_eq!(check_parents(200, "opt", &path, &listings), Err(Error::NotFound));
    assert_eq!(
        check_parents(200, "usr", &path, &listings),
        Ok(names(&["usr"]))
    );
}

#[test]
fn parents_io_error_aborts_ascent() {
    let path = names(&["root", "a", "b"]);
    let listings = vec![entries(&[]), Listing::Failed(IoError { code: 5 }), entries(&["a"])];
    assert_eq!(
        check_parents(2, "a", &path, &listings),
        Err(Error::IO(IoError { code: 5 }))
    );
}

#[test]
fn kids_depth_zero_still_checks_start() {
    let cwd = names(&["root"]);
    let tree = listed(vec![file("notes"), empty_dir("assets")]);
    assert_eq!(
        check_kids(0, "assets", &cwd, &tree),
        Ok(names(&["root", "assets"]))
    );
}

#[test]
fn kids_matches_non_directory_entries_too() {
    let cwd = names(&["root"]);
    let tree = listed(vec![file("assets")]);
    assert_eq!(
        check_kids(3, "assets", &cwd, &tree),
        Ok(names(&["root", "assets"]))
    );
}

#[test]
fn kids_scenario_three_levels_down() {
    // `root/x/y/target` exists; the entry `target` sits in the listing of
    // `root/x/y`, reached after descending two levels from `root`.
    let tree = listed(vec![dir(
        "x",
        listed(vec![dir("y", listed(vec![empty_dir("target")]))]),
    )]);
    let cwd = names(&["root"]);
    assert_eq!(
        check_kids(2, "target", &cwd, &tree),
        Ok(names(&["root", "x", "y", "target"]))
    );
    assert_eq!(check_kids(1, "target", &cwd, &tree), Err(Error::NotFound));
}

#[test]
fn kids_depth_first_in_entry_order() {
    let tree = listed(vec![
        dir("first", listed(vec![empty_dir("assets")])),
        dir("second", listed(vec![empty_dir("assets")])),
    ]);
    let cwd = names(&["root"]);
    assert_eq!(
        check_kids(1, "assets", &cwd, &tree),
        Ok(names(&["root", "first", "assets"]))
    );
}

#[test]
fn kids_io_error_aborts_branch_and_siblings() {
    let tree = listed(vec![
        dir("bad", FsTree::Failed(IoError { code: 5 })),
        dir("good", listed(vec![empty_dir("target")])),
    ]);
    let cwd = names(&["root"]);
    assert_eq!(
        check_kids(2, "target", &cwd, &tree),
        Err(Error::IO(IoError { code: 5 }))
    );
}

#[test]
fn kids_root_listing_failure_is_reported() {
    let cwd = names(&["root"]);
    let tree = FsTree::Failed(IoError { code: 2 });
    assert_eq!(
        check_kids(4, "assets", &cwd, &tree),
        Err(Error::IO(IoError { code: 2 }))
    );
}

#[test]
fn name_with_separator_is_never_found() {
    let path = names(&["root", "a"]);
    let listings = vec![entries(&["a", "b"]), entries(&["a"])];
    let tree = listed(vec![dir("a", listed(vec![empty_dir("b")]))]);
    assert_eq!(check_parents(1, "a/b", &path, &listings), Err(Error::NotFound));
    assert_eq!(check_kids(2, "a/b", &path, &tree), Err(Error::NotFound));
    assert_eq!(
        Search::Both(1, 2).for_folder("a/b", &path, &listings, &tree),
        Err(Error::NotFound)
    );
}

#[test]
fn for_folder_parents_variant_verbatim() {
    let cwd = names(&["root", "a", "b"]);
    let listings = vec![entries(&[]), entries(&["b"]), entries(&["a"])];
    let tree = listed(vec![]);
    assert_eq!(
        Search::Parents(2).for_folder("a", &cwd, &listings, &tree),
        Ok(names(&["root", "a"]))
    );
    assert_eq!(
        Search::Parents(1).for_folder("a", &cwd, &listings, &tree),
        Err(Error::NotFound)
    );
}

#[test]
fn for_folder_kids_variant_verbatim() {
    let cwd = names(&["root"]);
    let listings: Vec<Listing> = vec![];
    let tree = listed(vec![dir("x", listed(vec![empty_dir("assets")]))]);
    assert_eq!(
        Search::Kids(1).for_folder("assets", &cwd, &listings, &tree),
        Ok(names(&["root", "x", "assets"]))
    );
    assert_eq!(
        Search::Kids(0).for_folder("assets", &cwd, &listings, &tree),
        Err(Error::NotFound)
    );
}

#[test]
fn both_equals_parents_then_kids_on_samples() {
    let cwd = names(&["root", "mid"]);
    let above = vec![entries(&[]), entries(&["assets"])];
    let broken = vec![entries(&[]), Listing::Failed(IoError { code: 13 })];
    let below = listed(vec![dir("sub", listed(vec![empty_dir("assets")]))]);
    let nothing = listed(vec![file("readme")]);
    for listings in [&above, &broken] {
        for tree in [&below, &nothing] {
            assert_eq!(
                Search::Both(1, 1).for_folder("assets", &cwd, listings, tree),
                Search::ParentsThenKids(1, 1).for_folder("assets", &cwd, listings, tree)
            );
        }
    }
}

#[test]
fn parents_then_kids_falls_back_on_not_found_only() {
    let cwd = names(&["root", "mid"]);
    let listings = vec![entries(&[]), entries(&["mid"])];
    let tree = listed(vec![dir("sub", listed(vec![empty_dir("assets")]))]);
    assert_eq!(
        Search::ParentsThenKids(1, 1).for_folder("assets", &cwd, &listings, &tree),
        Ok(names(&["root", "mid", "sub", "assets"]))
    );
}

#[test]
fn kids_then_parents_prefers_match_below() {
    // `assets` exists both one ancestor level up and below the starting
    // directory, each within its budget; the descending match wins.
    let cwd = names(&["root", "mid"]);
    let listings = vec![entries(&[]), entries(&["assets", "mid"])];
    let tree = listed(vec![dir("sub", listed(vec![empty_dir("assets")]))]);
    assert_eq!(
        Search::KidsThenParents(1, 1).for_folder("assets", &cwd, &listings, &tree),
        Ok(names(&["root", "mid", "sub", "assets"]))
    );
    assert_eq!(
        Search::ParentsThenKids(1, 1).for_folder("assets", &cwd, &listings, &tree),
        Ok(names(&["root", "assets"]))
    );
}

#[test]
fn kids_then_parents_falls_back_on_not_found_only() {
    let cwd = names(&["root", "mid"]);
    let listings = vec![entries(&[]), entries(&["assets", "mid"])];
    let tree = listed(vec![file("readme")]);
    assert_eq!(
        Search::KidsThenParents(2, 1).for_folder("assets", &cwd, &listings, &tree),
        Ok(names(&["root", "assets"]))
    );
}

#[test]
fn ascending_io_error_never_masked_by_kids_phase() {
    let cwd = names(&["root", "a"]);
    let listings = vec![entries(&[]), Listing::Failed(IoError { code: 13 })];
    let tree = listed(vec![empty_dir("target")]);
    assert_eq!(
        Search::Both(1, 1).for_folder("target", &cwd, &listings, &tree),
        Err(Error::IO(IoError { code: 13 }))
    );
    assert_eq!(
        Search::ParentsThenKids(1, 1).for_folder("target", &cwd, &listings, &tree),
        Err(Error::IO(IoError { code: 13 }))
    );
}

#[test]
fn descending_io_error_never_masked_by_parents_phase() {
    let cwd = names(&["root", "a"]);
    let listings = vec![entries(&[]), entries(&["target", "a"])];
    let tree = FsTree::Failed(IoError { code: 5 });
    assert_eq!(
        Search::KidsThenParents(1, 1).for_folder("target", &cwd, &listings, &tree),
        Err(Error::IO(IoError { code: 5 }))
    );
}

#[test]
fn error_kinds_are_distinguishable() {
    let not_found = Error::NotFound;
    let io = Error::IO(IoError { code: 13 });
    assert_ne!(not_found, io);
    assert!(matches!(io, Error::IO(IoError { code: 13 })));
    assert!(matches!(not_found, Error::NotFound));
}
