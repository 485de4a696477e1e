//! Confinement of a resolved path to a base directory.

use crate::paths::{
    has_file_name, joined_path, join_file_name, parent_of, path_canonical, path_exists,
    path_has_file_name, path_has_prefix, path_join_path, path_parent, path_starts_with,
    with_file_name_of,
};
use crate::runtime::security::error::PathTraversalError;
use std::path::PathBuf;
use vstd::prelude::*;

verus! {

/// Where a resolved path ends up against the resolved base: kept when the
/// base resolved and is a prefix of it, otherwise it escapes the base.
pub open spec fn confined(resolved: PathBuf, resolved_base: Option<PathBuf>) -> Result<
    PathBuf,
    PathTraversalError,
> {
    match resolved_base {
        Some(b) => if path_has_prefix(resolved, b) {
            Ok(resolved)
        } else {
            Err(PathTraversalError::EscapesBaseDirectory)
        },
        None => Err(PathTraversalError::EscapesBaseDirectory),
    }
}

/// The decision once both paths are resolved: the resolved path is kept
/// when the base resolved and is a prefix of it; otherwise the path
/// escapes the base directory.
pub fn confine_to_base(resolved: PathBuf, resolved_base: Option<PathBuf>) -> (r: Result<
    PathBuf,
    PathTraversalError,
>)
    ensures
        r == confined(resolved, resolved_base),
{
    match resolved_base {
        Some(b) => {
            if path_starts_with(&resolved, &b) {
                Ok(resolved)
            } else {
                Err(PathTraversalError::EscapesBaseDirectory)
            }
        },
        None => Err(PathTraversalError::EscapesBaseDirectory),
    }
}

/// The path that `full` resolves to, given what the file system answered:
/// whether `full` exists and what it canonicalizes to, and whether its
/// parent exists and what that canonicalizes to. An existing path is
/// replaced by its canonical form. A missing one needs a parent and a file
/// name (else the path is empty); when the parent exists, its canonical
/// form joined with the file name is taken, and otherwise the path itself.
/// A canonicalization that failed means the path escapes the base.
pub open spec fn resolved_target(
    full: PathBuf,
    full_exists: bool,
    canonical_full: Option<PathBuf>,
    parent_exists: bool,
    canonical_parent: Option<PathBuf>,
) -> Result<PathBuf, PathTraversalError> {
    if full_exists {
        match canonical_full {
            Some(c) => Ok(c),
            None => Err(PathTraversalError::EscapesBaseDirectory),
        }
    } else if parent_of(full) is None || !has_file_name(full) {
        Err(PathTraversalError::EmptyPath)
    } else if parent_exists {
        match canonical_parent {
            Some(cp) => match with_file_name_of(cp, full) {
                Some(w) => Ok(w),
                None => Err(PathTraversalError::EmptyPath),
            },
            None => Err(PathTraversalError::EscapesBaseDirectory),
        }
    } else {
        Ok(full)
    }
}

/// The outcome of validating `full` within a base, given the file system's
/// answers for `full`, its parent and the base (`canonical_base`).
pub open spec fn within_base_outcome(
    full: PathBuf,
    full_exists: bool,
    canonical_full: Option<PathBuf>,
    parent_exists: bool,
    canonical_parent: Option<PathBuf>,
    canonical_base: Option<PathBuf>,
) -> Result<PathBuf, PathTraversalError> {
    match resolved_target(full, full_exists, canonical_full, parent_exists, canonical_parent) {
        Ok(t) => confined(t, canonical_base),
        Err(e) => Err(e),
    }
}

/// Resolves `full` from the file system's answers (see [`resolved_target`]);
/// answers that the rule does not consult are ignored.
pub fn resolve_target(
    full: PathBuf,
    full_exists: bool,
    canonical_full: Option<PathBuf>,
    parent_exists: bool,
    canonical_parent: Option<PathBuf>,
) -> (r: Result<PathBuf, PathTraversalError>)
    ensures
        r == resolved_target(full, full_exists, canonical_full, parent_exists, canonical_parent),
{
    if full_exists {
        return match canonical_full {
            Some(c) => Ok(c),
            None => Err(PathTraversalError::EscapesBaseDirectory),
        };
    }
    if path_parent(&full).is_none() || !path_has_file_name(&full) {
        return Err(PathTraversalError::EmptyPath);
    }
    if !parent_exists {
        return Ok(full);
    }
    match canonical_parent {
        Some(cp) => match join_file_name(&cp, &full) {
            Some(w) => Ok(w),
            None => Err(PathTraversalError::EmptyPath),
        },
        None => Err(PathTraversalError::EscapesBaseDirectory),
    }
}

/// Checks that `file_path` under `base_dir` stays inside `base_dir` once
/// symbolic links are resolved, and returns the resolved path.
///
/// The joined path is resolved when it exists; otherwise its parent is
/// resolved (when it exists) and the file name appended, or the joined
/// path is kept as is. A missing path without parent or file name is
/// empty; a path or base that cannot be resolved, or a result outside the
/// resolved base, escapes it. The file system is asked only what this rule
/// needs, in that order; the result is [`within_base_outcome`] of the
/// joined path and the answers it gave.
pub fn validate_path_within_base(base_dir: &PathBuf, file_path: &PathBuf) -> (r: Result<
    PathBuf,
    PathTraversalError,
>)
    ensures
        exists|
            full_exists: bool,
            canonical_full: Option<PathBuf>,
            parent_exists: bool,
            canonical_parent: Option<PathBuf>,
            canonical_base: Option<PathBuf>,
        |
            r == #[trigger] within_base_outcome(
                joined_path(*base_dir, *file_path),
                full_exists,
                canonical_full,
                parent_exists,
                canonical_parent,
                canonical_base,
            ),
{
    let full_path = path_join_path(base_dir, file_path);
    let full_exists = path_exists(&full_path);
    let canonical_full = if full_exists {
        path_canonical(&full_path)
    } else {
        None
    };
    let mut parent_exists = false;
    let mut canonical_parent: Option<PathBuf> = None;
    if !full_exists && path_has_file_name(&full_path) {
        if let Some(parent) = path_parent(&full_path) {
            parent_exists = path_exists(&parent);
            if parent_exists {
                canonical_parent = path_canonical(&parent);
            }
        }
    }
    let ghost full = full_path;
    let ghost answers = (full_exists, canonical_full, parent_exists, canonical_parent);
    let target = resolve_target(full_path, full_exists, canonical_full, parent_exists, canonical_parent);
    let ghost mut canonical_base: Option<PathBuf> = None;
    let r = match target {
        Ok(t) => {
            let cb = path_canonical(base_dir);
            proof {
                canonical_base = cb;
            }
            confine_to_base(t, cb)
        },
        Err(e) => Err(e),
    };
    assert(r == within_base_outcome(full, answers.0, answers.1, answers.2, answers.3, canonical_base));
    r
}

} // verus!
