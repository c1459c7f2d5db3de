use vstd::prelude::*;

verus! {

/// The path that `std::path::Path::join` makes of `base` and `rel`.
pub uninterp spec fn joined_path(base: Seq<char>, rel: Seq<char>) -> Seq<char>;

/// The path that `std::path::Path::parent` gives for `path`: the path without
/// its last component, or `None` where it has none to leave out.
pub uninterp spec fn parent_path(path: Seq<char>) -> Option<Seq<char>>;

/// Whether `std::path::Path` takes `a` and `b` for equal, which it does where
/// they have the same components.
pub uninterp spec fn same_path(a: Seq<char>, b: Seq<char>) -> bool;

/// Calls `std::path::Path::join` on two paths given as text. Both are valid
/// UTF-8, so the joined path is too and comes back as text unchanged. The
/// contract claims only that the result is a function of the two texts.
#[verifier::external_body]
pub(crate) fn join(base: &str, rel: &str) -> (r: String)
    ensures
        r@ == joined_path(base@, rel@),
{
    std::path::Path::new(base).join(rel).to_string_lossy().into_owned()
}

/// Calls `std::path::Path::parent` on a path given as text. The parent is a
/// part of that text and comes back as text unchanged. The contract claims
/// only that the result is a function of the text.
#[verifier::external_body]
pub(crate) fn parent(path: &str) -> (r: Option<String>)
    ensures
        match r {
            Some(dir) => parent_path(path@) == Some(dir@),
            None => parent_path(path@) is None,
        },
{
    std::path::Path::new(path).parent().map(|dir| dir.to_string_lossy().into_owned())
}

/// Compares two paths given as text with `==` on `std::path::Path`. The
/// contract claims only that the result is a function of the two texts.
#[verifier::external_body]
pub(crate) fn same(a: &str, b: &str) -> (r: bool)
    ensures
        r == same_path(a@, b@),
{
    std::path::Path::new(a) == std::path::Path::new(b)
}

} // verus!
