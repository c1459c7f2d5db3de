use vstd::prelude::*;
use vstd::string::*;
use crate::paths::{join, joined_path, parent, parent_path, same, same_path};

verus! {

/// Where the search for the project root stands.
#[derive(Debug, PartialEq, Eq)]
pub enum RootSearch {
    /// This directory is to be looked at next: does it hold the two manifest
    /// files?
    Probe(String),
    /// This directory is the project root.
    Found(String),
    /// There is no project root from the starting directory upwards.
    NotFound,
}

/// The mathematical value of a [`RootSearch`].
pub enum RootSearchView {
    Probe(Seq<char>),
    Found(Seq<char>),
    NotFound,
}

impl View for RootSearch {
    type V = RootSearchView;

    open spec fn view(&self) -> RootSearchView {
        match self {
            RootSearch::Probe(dir) => RootSearchView::Probe(dir@),
            RootSearch::Found(dir) => RootSearchView::Found(dir@),
            RootSearch::NotFound => RootSearchView::NotFound,
        }
    }
}

/// What is said when there is no project root.
pub open spec fn root_not_found() -> Seq<char> {
    "Failed to find the IC project root containing both dfx.json and Cargo.toml from this directory"@
}

impl RootSearch {
    /// What is said of a search that has ended without a root; of any other,
    /// nothing.
    pub fn failure(&self) -> (r: Option<String>)
        ensures
            match r {
                Some(text) => *self == RootSearch::NotFound && text@ == root_not_found(),
                None => *self != RootSearch::NotFound,
            },
    {
        match self {
            RootSearch::NotFound => Some(
                String::from_str(
                    "Failed to find the IC project root containing both dfx.json and Cargo.toml from this directory",
                ),
            ),
            _ => None,
        }
    }
}

/// What the search makes of one directory: `at_home` says whether it is the
/// home directory, and `seen` whether it holds `dfx.json` and whether it holds
/// `Cargo.toml`, as far as that is known. The search ends without a root at the
/// home directory, which is not looked at. A directory of which nothing is
/// known is to be looked at. A directory that holds both files is the root.
/// From any other, the search goes on above it: `None`.
pub open spec fn visit_of(dir: Seq<char>, at_home: bool, seen: Option<(bool, bool)>) -> Option<
    RootSearchView,
> {
    if at_home {
        Some(RootSearchView::NotFound)
    } else {
        match seen {
            None => Some(RootSearchView::Probe(dir)),
            Some((has_dfx, has_cargo)) => if has_dfx && has_cargo {
                Some(RootSearchView::Found(dir))
            } else {
                None
            },
        }
    }
}

/// Where the search stands at `dir`, when `seen` tells for `dir` and then for
/// each directory above it in turn what it holds. Where the search goes on
/// from a directory that has none above it, there is no root.
pub open spec fn search_from(dir: Seq<char>, home: Seq<char>, seen: Seq<(bool, bool)>) -> RootSearchView
    decreases seen.len(),
{
    let first = if seen.len() == 0 {
        None
    } else {
        Some(seen[0])
    };
    match visit_of(dir, same_path(dir, home), first) {
        Some(verdict) => verdict,
        None => match parent_path(dir) {
            Some(above) => search_from(above, home, seen.drop_first()),
            None => RootSearchView::NotFound,
        },
    }
}

/// What the search makes of one directory; see [`visit_of`].
pub fn visit(dir: String, at_home: bool, seen: Option<(bool, bool)>) -> (r: Option<RootSearch>)
    ensures
        match r {
            Some(verdict) => visit_of(dir@, at_home, seen) == Some(verdict@),
            None => visit_of(dir@, at_home, seen) is None,
        },
{
    if at_home {
        return Some(RootSearch::NotFound);
    }
    match seen {
        None => Some(RootSearch::Probe(dir)),
        Some((has_dfx, has_cargo)) => {
            if has_dfx && has_cargo {
                Some(RootSearch::Found(dir))
            } else {
                None
            }
        },
    }
}

/// The two files that a project root holds, for the directory `dir`: its
/// `dfx.json` and its `Cargo.toml`.
pub fn manifest_paths(dir: &str) -> (r: (String, String))
    ensures
        r.0@ == joined_path(dir@, "dfx.json"@),
        r.1@ == joined_path(dir@, "Cargo.toml"@),
{
    (join(dir, "dfx.json"), join(dir, "Cargo.toml"))
}

/// Says where the search for the project root stands. The search starts at
/// `curr_dir` and goes upwards, directory by directory. `seen` holds what was
/// found so far: for `curr_dir` and then for each directory above it in turn,
/// whether it holds `dfx.json` and whether it holds `Cargo.toml`. The answer is
/// the directory to look at next, the root, or that there is none.
pub fn get_project_root(curr_dir: &str, home_dir: &str, seen: &Vec<(bool, bool)>) -> (r:
    RootSearch)
    ensures
        r@ == search_from(curr_dir@, home_dir@, seen@),
{
    let mut dir = String::from_str(curr_dir);
    let mut i: usize = 0;
    assert(seen@.skip(0) =~= seen@);
    loop
        invariant
            i <= seen.len(),
            search_from(curr_dir@, home_dir@, seen@) == search_from(
                dir@,
                home_dir@,
                seen@.skip(i as int),
            ),
        decreases seen.len() - i,
    {
        let ghost rest = seen@.skip(i as int);
        let first = if i < seen.len() {
            Some(seen[i])
        } else {
            None
        };
        let at_home = same(dir.as_str(), home_dir);
        let above = parent(dir.as_str());
        if let Some(verdict) = visit(dir, at_home, first) {
            return verdict;
        }
        assert(rest.drop_first() =~= seen@.skip(i + 1));
        match above {
            Some(above) => {
                dir = above;
            },
            None => {
                return RootSearch::NotFound;
            },
        }
        i += 1;
    }
}

/// The search never takes the home directory, nor anything above it, for the
/// root: at the home directory it ends without one, whatever is found there.
pub proof fn lemma_search_stops_at_home(home: Seq<char>, dir: Seq<char>, seen: Seq<(bool, bool)>)
    requires
        same_path(dir, home),
    ensures
        search_from(dir, home, seen) == RootSearchView::NotFound,
{
}

/// The root that the search finds holds both manifest files, and it is the
/// first such directory on the way up: `seen` tells so for the last directory
/// looked at, and tells of each one before it that a file is missing.
pub proof fn lemma_found_is_first_with_both(
    dir: Seq<char>,
    home: Seq<char>,
    seen: Seq<(bool, bool)>,
)
    requires
        search_from(dir, home, seen) is Found,
    ensures
        exists|k: int|
            0 <= k < seen.len() && (#[trigger] seen[k]).0 && seen[k].1 && forall|j: int|
                0 <= j < k ==> !((#[trigger] seen[j]).0 && seen[j].1),
    decreases seen.len(),
{
    if seen.len() > 0 && !same_path(dir, home) && !(seen[0].0 && seen[0].1) {
        let above = parent_path(dir)->0;
        let rest = seen.drop_first();
        lemma_found_is_first_with_both(above, home, rest);
        let k = choose|k: int|
            0 <= k < rest.len() && (#[trigger] rest[k]).0 && rest[k].1 && forall|j: int|
                0 <= j < k ==> !((#[trigger] rest[j]).0 && rest[j].1);
        assert forall|j: int| 0 <= j < k + 1 implies !((#[trigger] seen[j]).0 && seen[j].1) by {
            if j > 0 {
                assert(seen[j] == rest[j - 1]);
            }
        }
    }
}

} // verus!
