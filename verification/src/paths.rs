//! Filesystem paths as values, behind trusted wrappers.

use std::path::PathBuf;
use vstd::prelude::*;

verus! {

/// An owned filesystem path, opaque to the proofs.
#[verifier::external_type_specification]
#[verifier::external_body]
pub struct ExPathBuf(std::path::PathBuf);

/// The path that `PathBuf::from` builds from the string `s`.
pub uninterp spec fn path_of(s: Seq<char>) -> PathBuf;

/// `PathBuf::from(&str)`: the result is the path named `path_of(s)`, a
/// function of the string alone.
#[verifier::external_body]
pub(crate) fn path_buf_from(s: &str) -> (p: PathBuf)
    ensures
        p == path_of(s@),
{
    PathBuf::from(s)
}

/// The path `base` joined with `name`, as `Path::join` builds it.
pub uninterp spec fn joined(base: PathBuf, name: Seq<char>) -> PathBuf;

/// `Path::join`: the result is the path named `joined(base, name)`.
#[verifier::external_body]
pub(crate) fn path_join(base: &PathBuf, name: &str) -> (p: PathBuf)
    ensures
        p == joined(*base, name@),
{
    base.join(name)
}

/// `PathBuf::new`: the empty path, named `path_of` of the empty string.
#[verifier::external_body]
pub(crate) fn empty_path() -> (p: PathBuf)
    ensures
        p == path_of(Seq::empty()),
{
    PathBuf::new()
}

/// `Path::exists`: whether the file system has an entry at `p`; it depends
/// on what is on disk, so nothing is stated.
#[verifier::external_body]
pub(crate) fn path_exists(p: &PathBuf) -> bool {
    p.exists()
}

/// The path `base` joined with the path `rel`, as `Path::join` builds it.
pub uninterp spec fn joined_path(base: PathBuf, rel: PathBuf) -> PathBuf;

/// `Path::join` with a path: the result is the path named `joined_path(base, rel)`.
#[verifier::external_body]
pub(crate) fn path_join_path(base: &PathBuf, rel: &PathBuf) -> (p: PathBuf)
    ensures
        p == joined_path(*base, *rel),
{
    base.join(rel)
}

/// The parent of a path, as `Path::parent` gives it.
pub uninterp spec fn parent_of(p: PathBuf) -> Option<PathBuf>;

/// `Path::parent` (made owned): the result is named `parent_of(p)`.
#[verifier::external_body]
pub(crate) fn path_parent(p: &PathBuf) -> (r: Option<PathBuf>)
    ensures
        r == parent_of(*p),
{
    p.parent().map(|q| q.to_path_buf())
}

/// The directory `dir` joined with the last component of `of`, when `of`
/// has one, as `of.file_name()` then `Path::join` give it.
pub uninterp spec fn with_file_name_of(dir: PathBuf, of: PathBuf) -> Option<PathBuf>;

/// Whether a path ends in a normal component, as `Path::file_name` decides.
pub uninterp spec fn has_file_name(p: PathBuf) -> bool;

/// `Path::file_name` is present: the answer is named `has_file_name(p)`.
#[verifier::external_body]
pub(crate) fn path_has_file_name(p: &PathBuf) -> (b: bool)
    ensures
        b == has_file_name(*p),
{
    p.file_name().is_some()
}

/// `Path::file_name` of `of`, joined onto `dir`: the result is named
/// `with_file_name_of(dir, of)`, and it is present exactly when `of` has a
/// file name (the join itself always succeeds).
#[verifier::external_body]
pub(crate) fn join_file_name(dir: &PathBuf, of: &PathBuf) -> (r: Option<PathBuf>)
    ensures
        r == with_file_name_of(*dir, *of),
        r is Some <==> has_file_name(*of),
{
    of.file_name().map(|n| dir.join(n))
}

/// `Path::canonicalize`: the absolute path with symbolic links resolved, or
/// `None` when the file system cannot resolve it. It depends on what is on
/// disk, so nothing is stated.
#[verifier::external_body]
pub(crate) fn path_canonical(p: &PathBuf) -> Option<PathBuf> {
    p.canonicalize().ok()
}

/// Whether `base` is a prefix of `p` component by component, as
/// `Path::starts_with` decides.
pub uninterp spec fn path_has_prefix(p: PathBuf, base: PathBuf) -> bool;

/// `Path::starts_with`: the answer is named `path_has_prefix(p, base)`.
#[verifier::external_body]
pub(crate) fn path_starts_with(p: &PathBuf, base: &PathBuf) -> (b: bool)
    ensures
        b == path_has_prefix(*p, *base),
{
    p.starts_with(base)
}

/// `PathBuf::clone`: a copy of the path.
pub assume_specification[ <std::path::PathBuf as std::clone::Clone>::clone ](p: &PathBuf) -> (r: PathBuf)
    ensures
        r == *p,
;

} // verus!
