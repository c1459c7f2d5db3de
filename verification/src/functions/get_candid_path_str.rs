use vstd::prelude::*;
use vstd::string::*;
use crate::paths::{join, joined_path, parent, parent_path};
use crate::text::{contains, is_substring, opt_text};
use crate::types::dfx_cfg::RustCanisterCfg;

verus! {

/// Why the place of an interface file is refused.
#[derive(Debug, PartialEq, Eq, Clone, Copy)]
pub enum CandidPathError {
    /// The path has no directory above it.
    NoDirectory,
    /// The directory of the file does not name the canister's package.
    DirNotFound,
}

/// What is said of a refused place.
pub open spec fn path_error_text(error: CandidPathError) -> Seq<char> {
    match error {
        CandidPathError::NoDirectory => "fn gen_candid_path_str: The candid path has no directory."@,
        CandidPathError::DirNotFound => "fn gen_candid_path_str: Could not find the candid dir."@,
    }
}

impl CandidPathError {
    /// What is said of a refused place.
    pub fn message(&self) -> (r: String)
        ensures
            r@ == path_error_text(*self),
    {
        match self {
            CandidPathError::NoDirectory => String::from_str(
                "fn gen_candid_path_str: The candid path has no directory.",
            ),
            CandidPathError::DirNotFound => String::from_str(
                "fn gen_candid_path_str: Could not find the candid dir.",
            ),
        }
    }
}

/// Whether the file at `path`, in the directory `dir`, is a place for the
/// interface file of `package`: it is where the text of the directory's path
/// holds the package's name.
pub open spec fn checked_path(path: Seq<char>, dir: Option<Seq<char>>, package: Seq<char>) -> Result<
    Seq<char>,
    CandidPathError,
> {
    match dir {
        None => Err(CandidPathError::NoDirectory),
        Some(dir) => if is_substring(package, dir) {
            Ok(path)
        } else {
            Err(CandidPathError::DirNotFound)
        },
    }
}

/// Accepts or refuses `path` as the place of the interface file of `package`,
/// given the directory above it; see [`checked_path`].
pub fn check_candid_dir(path: String, dir: &Option<String>, package: &str) -> (r: Result<
    String,
    CandidPathError,
>)
    ensures
        match r {
            Ok(accepted) => checked_path(path@, opt_text(*dir), package@) == Ok::<
                Seq<char>,
                CandidPathError,
            >(accepted@),
            Err(refused) => checked_path(path@, opt_text(*dir), package@) == Err::<
                Seq<char>,
                CandidPathError,
            >(refused),
        },
{
    match dir {
        None => Err(CandidPathError::NoDirectory),
        Some(dir) => {
            if contains(dir.as_str(), package) {
                Ok(path)
            } else {
                Err(CandidPathError::DirNotFound)
            }
        },
    }
}

/// The directory in which the interface file of `canister` goes: the one above
/// the canister's interface path, taken from `project_root`. It is the
/// directory to create before the file is written.
pub fn candid_file_dir(project_root: &str, canister: &RustCanisterCfg) -> (r: Option<String>)
    ensures
        match r {
            Some(dir) => parent_path(joined_path(project_root@, canister@.candid)) == Some(dir@),
            None => parent_path(joined_path(project_root@, canister@.candid)) is None,
        },
{
    let path = join(project_root, canister.candid_file_path_str.as_str());
    parent(path.as_str())
}

/// The place of the interface file of `canister`: its interface path, taken
/// from `project_root`. The place is refused unless the text of its
/// directory's path holds the name of the canister's package.
pub fn get_candid_path_str(project_root: &str, canister: &RustCanisterCfg) -> (r: Result<
    String,
    CandidPathError,
>)
    ensures
        match r {
            Ok(path) => checked_path(
                joined_path(project_root@, canister@.candid),
                parent_path(joined_path(project_root@, canister@.candid)),
                canister@.package,
            ) == Ok::<Seq<char>, CandidPathError>(path@),
            Err(error) => checked_path(
                joined_path(project_root@, canister@.candid),
                parent_path(joined_path(project_root@, canister@.candid)),
                canister@.package,
            ) == Err::<Seq<char>, CandidPathError>(error),
        },
{
    let path = join(project_root, canister.candid_file_path_str.as_str());
    let dir = parent(path.as_str());
    check_candid_dir(path, &dir, canister.package.as_str())
}

/// A place is accepted exactly when there is a directory above it and the
/// text of that directory's path holds the package's name; the accepted place
/// is the path itself.
pub proof fn lemma_place_accepted_iff_dir_names_package(
    path: Seq<char>,
    dir: Option<Seq<char>>,
    package: Seq<char>,
)
    ensures
        checked_path(path, dir, package) is Ok <==> (dir is Some && is_substring(package, dir->0)),
        checked_path(path, dir, package) is Ok ==> checked_path(path, dir, package)->Ok_0 == path,
{
}

} // verus!
