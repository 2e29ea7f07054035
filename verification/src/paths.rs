//! File paths, as the standard library reads them on the platform that the
//! library is built for. Paths are held as text.
//!
//! The standard library's path functions look at the text of a path only,
//! never at the disk. What they make of it is not proved here: each result
//! has a name, and the library's contracts speak of the names.

use std::path::Path;
use vstd::prelude::*;

verus! {

/// Whether the standard library takes `path` for absolute.
pub uninterp spec fn is_absolute_path(path: Seq<char>) -> bool;

/// The path that the standard library makes of `path` adjoined to `base`.
pub uninterp spec fn joined_path(base: Seq<char>, path: Seq<char>) -> Seq<char>;

/// The path that the standard library gives as the parent of `path`, if it
/// gives one.
pub uninterp spec fn parent_path(path: Seq<char>) -> Option<Seq<char>>;

/// Whether the standard library takes `a` and `b` for the same path.
pub uninterp spec fn same_path(a: Seq<char>, b: Seq<char>) -> bool;

/// Calls `Path::is_absolute`. Nothing is claimed of the answer but that it
/// depends on the path alone.
#[verifier::external_body]
pub(crate) fn is_absolute(path: &str) -> (yes: bool)
    ensures
        yes == is_absolute_path(path@),
{
    Path::new(path).is_absolute()
}

/// Calls `Path::join`. Nothing is claimed of the result but that it depends
/// on the two paths alone. Joining two texts gives a text, so nothing is
/// lost when the result is turned back into one.
#[verifier::external_body]
pub(crate) fn join(base: &str, path: &str) -> (joined: String)
    ensures
        joined@ == joined_path(base@, path@),
{
    Path::new(base).join(path).to_string_lossy().into_owned()
}

/// Calls `Path::parent`. Nothing is claimed of the result but that it
/// depends on the path alone. The parent of a text is a part of it, so
/// nothing is lost when the result is turned back into a text.
#[verifier::external_body]
pub(crate) fn parent(path: &str) -> (parent: Option<String>)
    ensures
        crate::config::text_view(parent) == parent_path(path@),
{
    match Path::new(path).parent() {
        Some(directory) => Some(directory.to_string_lossy().into_owned()),
        None => None,
    }
}

/// Compares two paths with `==` on `Path`, which goes by their components.
/// Claimed: the answer depends on the two paths alone, and a path is the
/// same as itself.
#[verifier::external_body]
pub(crate) fn is_same(a: &str, b: &str) -> (same: bool)
    ensures
        same == same_path(a@, b@),
        a@ == b@ ==> same,
{
    Path::new(a) == Path::new(b)
}

} // verus!
