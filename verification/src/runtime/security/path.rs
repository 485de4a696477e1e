//! Path sanitization without percent-decoding of separators.

pub use super::validate_windows_path;

use super::error::PathTraversalError;
use super::sanitize_path_chars;
use super::sanitize_spec;
use crate::text::{chars_of, string_from_chars};
use crate::paths::{path_buf_from, path_of};
use std::path::PathBuf;
use vstd::prelude::*;

verus! {

/// Sanitizes a file path to prevent directory traversal attacks.
///
/// Rejects, in this order: null bytes, the empty path, Windows-specific
/// problems, absolute paths (a leading `/` or `\`, or a drive prefix such as
/// `C:`), and paths whose `..` components climb above the base directory.
/// Both `/` and `\` separate components; percent-encoded characters are taken
/// literally. `.` components are dropped and a `..` removes the component
/// before it. The result joins the remaining components with `/`.
pub fn sanitize_file_path(path: &str) -> (r: Result<PathBuf, PathTraversalError>)
    ensures
        match r {
            Ok(p) => sanitize_spec(path@, false) matches Ok(q) && p == path_of(q),
            Err(e) => sanitize_spec(path@, false) == Err::<Seq<char>, PathTraversalError>(e),
        },
{
    let cs = chars_of(path);
    match sanitize_path_chars(cs.as_slice(), false) {
        Ok(p) => {
            let text = string_from_chars(p.as_slice());
            Ok(path_buf_from(text.as_str()))
        },
        Err(e) => Err(e),
    }
}

} // verus!
