//! Filesystem paths as the write guard sees them.

use vstd::prelude::*;

verus! {

/// A filesystem path, held as its text.
#[derive(Debug, Clone, PartialEq, Eq, Hash)]
pub struct FsPath(String);

impl View for FsPath {
    type V = Seq<char>;

    closed spec fn view(&self) -> Seq<char> {
        self.0@
    }
}

impl FsPath {
    /// The path written as `s`.
    pub fn new(s: &str) -> (r: Self)
        ensures
            r@ == s@,
    {
        FsPath(String::from_str(s))
    }

    /// The path's text.
    pub fn as_str(&self) -> (r: &str)
        ensures
            r@ == self@,
    {
        self.0.as_str()
    }

    /// A copy of the path.
    pub fn duplicate(&self) -> (r: Self)
        ensures
            r@ == self@,
    {
        FsPath(self.0.clone())
    }
}

/// The texts of an optional path.
pub open spec fn opt_view(p: Option<FsPath>) -> Option<Seq<char>> {
    match p {
        Some(q) => Some(q@),
        None => None,
    }
}

/// Whether `path` lies within `base`, component by component.
pub uninterp spec fn path_starts_with(path: Seq<char>, base: Seq<char>) -> bool;

/// Whether two paths have the same components.
pub uninterp spec fn path_equals(a: Seq<char>, b: Seq<char>) -> bool;

/// Relies on `std::path::Path::starts_with`: whether `base` is a prefix of
/// `path` in whole components.
#[verifier::external_body]
pub fn path_has_prefix(path: &FsPath, base: &FsPath) -> (r: bool)
    ensures
        r == path_starts_with(path@, base@),
        path@ == base@ ==> r,
{
    std::path::Path::new(path.as_str()).starts_with(std::path::Path::new(base.as_str()))
}

/// Relies on `PartialEq` of `std::path::Path`: whether the two paths have the
/// same components.
#[verifier::external_body]
pub fn same_path(a: &FsPath, b: &FsPath) -> (r: bool)
    ensures
        r == path_equals(a@, b@),
        a@ == b@ ==> r,
{
    std::path::Path::new(a.as_str()) == std::path::Path::new(b.as_str())
}

/// Relies on `std::path::Path::canonicalize`: the absolute form of the path with
/// symbolic links resolved, or `None` where it cannot be resolved (it does not
/// exist) or is not valid text. The outcome depends on the filesystem.
#[verifier::external_body]
pub fn canonical_form(p: &FsPath) -> (r: Option<FsPath>) {
    match std::path::Path::new(p.as_str()).canonicalize() {
        Ok(c) => c.into_os_string().into_string().ok().map(FsPath),
        Err(_) => None,
    }
}

} // verus!
