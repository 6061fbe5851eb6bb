//! Path arithmetic, done by `std::path` on paths held as text.
//!
//! Nothing here looks at the file system. Each function hands one question
//! to `std::path::Path` and gives the answer back as text. What the answer
//! is on a given path is the standard library's business, and follows the
//! path syntax of the platform that the library is built for: it is not
//! proved here, only given a name, so that the rest of the library can say
//! exactly which of these answers it uses where.

use std::path::Path;
use vstd::prelude::*;

verus! {

/// What `Path::parent` gives for `path`: the path without its last
/// component, or `None` where the path ends in a root or is empty.
pub uninterp spec fn path_parent(path: Seq<char>) -> Option<Seq<char>>;

/// What `Path::file_stem` gives for `path`: the last component without its
/// extension, or `None` where the path has no file name.
pub uninterp spec fn path_file_stem(path: Seq<char>) -> Option<Seq<char>>;

/// What `Path::join` gives for `base` and `name`: `name` adjoined to `base`.
pub uninterp spec fn path_join(base: Seq<char>, name: Seq<char>) -> Seq<char>;

/// Whether `Path`'s `==` holds of `a` and `b`: the two are compared
/// component by component, as written, without consulting the file system.
pub uninterp spec fn path_same(a: Seq<char>, b: Seq<char>) -> bool;

/// Calls `Path::parent`. Not proved: that the result is what `path_parent`
/// names.
#[verifier::external_body]
pub(crate) fn parent_of(path: &str) -> (parent: Option<String>)
    ensures
        parent.deep_view() == path_parent(path@),
{
    Path::new(path).parent().map(|p| p.to_string_lossy().into_owned())
}

/// Calls `Path::file_stem`. Not proved: that the result is what
/// `path_file_stem` names.
#[verifier::external_body]
pub(crate) fn file_stem_of(path: &str) -> (stem: Option<String>)
    ensures
        stem.deep_view() == path_file_stem(path@),
{
    Path::new(path).file_stem().map(|s| s.to_string_lossy().into_owned())
}

/// Calls `Path::join`. Not proved: that the result is what `path_join`
/// names.
#[verifier::external_body]
pub(crate) fn join(base: &str, name: &str) -> (joined: String)
    ensures
        joined@ == path_join(base@, name@),
{
    Path::new(base).join(name).to_string_lossy().into_owned()
}

/// Compares two paths with `Path`'s `==`. Not proved: that the result is
/// what `path_same` names, and that a path is the same as itself.
#[verifier::external_body]
pub(crate) fn same_path(a: &str, b: &str) -> (same: bool)
    ensures
        same == path_same(a@, b@),
        a@ == b@ ==> same,
{
    Path::new(a) == Path::new(b)
}

} // verus!
