//! Security utilities for input sanitization and path traversal prevention.

pub mod components;
pub mod error;
pub mod path;
pub mod within_base;
pub mod laws;

pub use within_base::validate_path_within_base;

pub use error::{ModuleNameError, PathTraversalError};

use crate::runtime::security::components::{
    decode_encoded_separators, decode_separators, dot, dot_dot, is_sep, join, join_components,
    resolve, resolve_components, split_components, split_path, views,
};
use crate::text::{chars_of, contains_char, str_to_uppercase, string_from_chars, uppercase_of};
use crate::paths::{path_buf_from, path_of};
use std::path::PathBuf;
use vstd::prelude::*;

verus! {

broadcast use vstd::string::group_string_axioms;

/// The part of a component before its first `.` ("CON.txt" has stem "CON").
pub open spec fn stem(c: Seq<char>) -> Seq<char>
    decreases c.len(),
{
    if c.len() == 0 || c[0] == '.' {
        Seq::empty()
    } else {
        seq![c[0]] + stem(c.subrange(1, c.len() as int))
    }
}

/// Reserved Windows device names: CON, PRN, AUX, NUL, COM1-COM9 and LPT1-LPT9.
pub open spec fn is_reserved_name(u: Seq<char>) -> bool {
    ||| u.len() == 3 && ((u[0] == 'C' && u[1] == 'O' && u[2] == 'N') || (u[0] == 'P' && u[1] == 'R'
        && u[2] == 'N') || (u[0] == 'A' && u[1] == 'U' && u[2] == 'X') || (u[0] == 'N' && u[1]
        == 'U' && u[2] == 'L'))
    ||| u.len() == 4 && ((u[0] == 'C' && u[1] == 'O' && u[2] == 'M') || (u[0] == 'L' && u[1] == 'P'
        && u[2] == 'T')) && '1' <= u[3] && u[3] <= '9'
}

/// A non-empty component whose uppercased stem is a reserved device name.
pub open spec fn reserved_component(c: Seq<char>) -> bool {
    c.len() > 0 && is_reserved_name(uppercase_of(stem(c)))
}

/// A colon is only allowed as the second character after a single-byte first
/// character (a drive letter such as `C:`); the first colon decides.
pub open spec fn colon_allowed(s: Seq<char>) -> bool {
    !s.contains(':') || (s.len() >= 2 && s[1] == ':' && s[0] != ':' && (s[0] as u32) < 128)
}

/// The Windows-specific problem of a path, if any, in the order the checks run:
/// UNC prefix, alternate data stream, reserved device name.
pub open spec fn windows_path_error(s: Seq<char>) -> Option<PathTraversalError> {
    if s.len() >= 2 && ((s[0] == '\\' && s[1] == '\\') || (s[0] == '/' && s[1] == '/')) {
        Some(PathTraversalError::UncPath)
    } else if !colon_allowed(s) {
        Some(PathTraversalError::AlternateDataStream)
    } else if exists|k: int| 0 <= k < split_path(s).len() && #[trigger] reserved_component(split_path(s)[k]) {
        Some(PathTraversalError::ReservedWindowsName)
    } else {
        None
    }
}

fn stem_chars(c: &Vec<char>) -> (st: Vec<char>)
    ensures
        st@ == stem(c@),
{
    let mut st: Vec<char> = Vec::new();
    let mut j: usize = 0;
    assert(c@.subrange(0, c@.len() as int) =~= c@);
    assert(st@ + stem(c@.subrange(0, c@.len() as int)) =~= stem(c@));
    while j < c.len() && c[j] != '.'
        invariant
            0 <= j <= c@.len(),
            st@ + stem(c@.subrange(j as int, c@.len() as int)) == stem(c@),
        decreases c@.len() - j,
    {
        let ghost rest = c@.subrange(j as int, c@.len() as int);
        assert(rest.subrange(1, rest.len() as int) =~= c@.subrange(j + 1, c@.len() as int));
        st.push(c[j]);
        j = j + 1;
        assert(st@ + stem(c@.subrange(j as int, c@.len() as int)) =~= stem(c@));
    }
    assert(stem(c@.subrange(j as int, c@.len() as int)) =~= Seq::<char>::empty());
    assert(st@ =~= stem(c@));
    st
}

fn is_reserved_chars(u: &Vec<char>) -> (b: bool)
    ensures
        b == is_reserved_name(u@),
{
    if u.len() == 3 {
        (u[0] == 'C' && u[1] == 'O' && u[2] == 'N') || (u[0] == 'P' && u[1] == 'R' && u[2] == 'N')
            || (u[0] == 'A' && u[1] == 'U' && u[2] == 'X') || (u[0] == 'N' && u[1] == 'U' && u[2]
            == 'L')
    } else if u.len() == 4 {
        ((u[0] == 'C' && u[1] == 'O' && u[2] == 'M') || (u[0] == 'L' && u[1] == 'P' && u[2] == 'T'))
            && '1' <= u[3] && u[3] <= '9'
    } else {
        false
    }
}

fn is_reserved_component(c: &Vec<char>) -> (b: bool)
    ensures
        b == reserved_component(c@),
{
    if c.len() == 0 {
        return false;
    }
    let st = stem_chars(c);
    let st_string = string_from_chars(st.as_slice());
    let upper = str_to_uppercase(st_string.as_str());
    let upper_chars = chars_of(upper.as_str());
    is_reserved_chars(&upper_chars)
}

/// The Windows-specific check over the characters of a path.
pub fn windows_path_check(s: &[char]) -> (r: Result<(), PathTraversalError>)
    ensures
        match r {
            Ok(()) => windows_path_error(s@) is None,
            Err(e) => windows_path_error(s@) == Some(e),
        },
{
    if s.len() >= 2 && ((s[0] == '\\' && s[1] == '\\') || (s[0] == '/' && s[1] == '/')) {
        return Err(PathTraversalError::UncPath);
    }
    if contains_char(s, ':') {
        if !(s.len() >= 2 && s[1] == ':' && s[0] != ':' && (s[0] as u32) < 128) {
            return Err(PathTraversalError::AlternateDataStream);
        }
    }
    assert(colon_allowed(s@));
    let comps = split_components(s);
    assert(views(comps@).len() == comps@.len());
    let mut k: usize = 0;
    while k < comps.len()
        invariant
            0 <= k <= comps@.len(),
            views(comps@) == split_path(s@),
            colon_allowed(s@),
            !(s@.len() >= 2 && ((s@[0] == '\\' && s@[1] == '\\') || (s@[0] == '/' && s@[1] == '/'))),
            forall|m: int| 0 <= m < k ==> !reserved_component(split_path(s@)[m]),
        decreases comps@.len() - k,
    {
        assert(views(comps@)[k as int] == comps@[k as int]@);
        if is_reserved_component(&comps[k]) {
            assert(reserved_component(split_path(s@)[k as int]));
            return Err(PathTraversalError::ReservedWindowsName);
        }
        k = k + 1;
    }
    Ok(())
}

/// Validates a path for Windows-specific security issues: UNC paths
/// (`\\server\share`), alternate data streams (`file.txt:stream`) and reserved
/// device names (CON, PRN, AUX, NUL, COM1-9, LPT1-9, with or without an
/// extension, in any case). Runs on every platform as defense in depth.
pub fn validate_windows_path(path: &str) -> (r: Result<(), PathTraversalError>)
    ensures
        match r {
            Ok(()) => windows_path_error(path@) is None,
            Err(e) => windows_path_error(path@) == Some(e),
        },
{
    let cs = chars_of(path);
    windows_path_check(cs.as_slice())
}

/// ASCII letters `A`-`Z` and `a`-`z`.
pub open spec fn is_ascii_letter(c: char) -> bool {
    ('a' <= c && c <= 'z') || ('A' <= c && c <= 'Z')
}

/// A path is absolute when it starts with a separator or a drive prefix (`C:`).
pub open spec fn is_absolute_path(s: Seq<char>) -> bool {
    (s.len() > 0 && is_sep(s[0])) || (s.len() >= 2 && s[1] == ':' && is_ascii_letter(s[0]))
}

/// The outcome of sanitizing a path, in the order the checks run. When
/// `decode` holds, percent-encoded separators (`%2F`, `%5C`, either case)
/// split components like literal ones.
pub open spec fn sanitize_spec(s: Seq<char>, decode: bool) -> Result<Seq<char>, PathTraversalError> {
    if s.contains('\0') {
        Err(PathTraversalError::NullByte)
    } else if s.len() == 0 {
        Err(PathTraversalError::EmptyPath)
    } else if windows_path_error(s) is Some {
        Err(windows_path_error(s)->0)
    } else if is_absolute_path(s) {
        Err(PathTraversalError::AbsolutePath)
    } else {
        match resolve(split_path(if decode { decode_separators(s) } else { s })) {
            None => Err(PathTraversalError::EscapesBaseDirectory),
            Some(st) => if st.len() == 0 {
                Err(PathTraversalError::EmptyPath)
            } else {
                Ok(join(st))
            },
        }
    }
}

/// The sanitizer over characters; `decode` selects whether percent-encoded
/// separators split components.
pub fn sanitize_path_chars(s: &[char], decode: bool) -> (r: Result<Vec<char>, PathTraversalError>)
    ensures
        match r {
            Ok(p) => sanitize_spec(s@, decode) == Ok::<Seq<char>, PathTraversalError>(p@),
            Err(e) => sanitize_spec(s@, decode) == Err::<Seq<char>, PathTraversalError>(e),
        },
{
    if contains_char(s, '\0') {
        return Err(PathTraversalError::NullByte);
    }
    if s.len() == 0 {
        return Err(PathTraversalError::EmptyPath);
    }
    match windows_path_check(s) {
        Err(e) => {
            return Err(e);
        },
        Ok(()) => {},
    }
    let absolute = (s.len() > 0 && (s[0] == '/' || s[0] == '\\')) || (s.len() >= 2 && s[1] == ':'
        && (('a' <= s[0] && s[0] <= 'z') || ('A' <= s[0] && s[0] <= 'Z')));
    if absolute {
        return Err(PathTraversalError::AbsolutePath);
    }
    let source: Vec<char> = if decode {
        decode_encoded_separators(s)
    } else {
        vstd::slice::slice_to_vec(s)
    };
    let comps = split_components(source.as_slice());
    match resolve_components(&comps) {
        None => Err(PathTraversalError::EscapesBaseDirectory),
        Some(st) => {
            if st.len() == 0 {
                Err(PathTraversalError::EmptyPath)
            } else {
                Ok(join_components(&st))
            }
        },
    }
}

/// Sanitizes a file path to prevent directory traversal attacks.
///
/// Rejects, in this order: null bytes, the empty path, Windows-specific
/// problems (see [`validate_windows_path`]), absolute paths (a leading `/` or
/// `\`, or a drive prefix such as `C:`), and paths whose `..` components climb
/// above the base directory. Both `/` and `\` separate components, and so do
/// their percent encodings `%2F` and `%5C`. `.` components are dropped and a
/// `..` removes the component before it. The result joins the remaining
/// components with `/`; when none remain the path is reported as empty.
pub fn sanitize_file_path(path: &str) -> (r: Result<PathBuf, PathTraversalError>)
    ensures
        match r {
            Ok(p) => sanitize_spec(path@, true) matches Ok(q) && p == path_of(q),
            Err(e) => sanitize_spec(path@, true) == Err::<Seq<char>, PathTraversalError>(e),
        },
{
    let cs = chars_of(path);
    match sanitize_path_chars(cs.as_slice(), true) {
        Ok(p) => {
            let text = string_from_chars(p.as_slice());
            Ok(path_buf_from(text.as_str()))
        },
        Err(e) => Err(e),
    }
}

/// Whether a character is a control character (Unicode category Cc:
/// U+0000-U+001F and U+007F-U+009F), as std `char::is_control` decides.
pub open spec fn is_control_char(c: char) -> bool {
    (c as u32) <= 0x1f || (0x7f <= (c as u32) && (c as u32) <= 0x9f)
}

/// The outcome of validating a module name, in the order the checks run.
pub open spec fn module_name_spec(s: Seq<char>) -> Result<Seq<char>, ModuleNameError> {
    if s.len() == 0 {
        Err(ModuleNameError::EmptyName)
    } else if s.contains('\0') {
        Err(ModuleNameError::NullByte)
    } else if s.contains('/') || s.contains('\\') {
        Err(ModuleNameError::PathSeparator)
    } else if s == dot() || s == dot_dot() {
        Err(ModuleNameError::SpecialDirectory)
    } else if s.len() > 255 {
        Err(ModuleNameError::TooLong)
    } else if exists|i: int| 0 <= i < s.len() && #[trigger] is_control_char(s[i]) {
        Err(ModuleNameError::ControlCharacter)
    } else {
        Ok(s)
    }
}

/// Sanitizes a module name to prevent directory traversal and injection.
///
/// A valid name is non-empty, has no null byte, no `/` or `\`, is neither
/// `.` nor `..`, is at most 255 characters long and has no control
/// character. The checks run in that order; a valid name is returned as is.
#[verifier::loop_isolation(false)]
pub fn sanitize_module_name(name: &str) -> (r: Result<String, ModuleNameError>)
    ensures
        match r {
            Ok(n) => module_name_spec(name@) == Ok::<Seq<char>, ModuleNameError>(n@),
            Err(e) => module_name_spec(name@) == Err::<Seq<char>, ModuleNameError>(e),
        },
{
    let cs = chars_of(name);
    if cs.len() == 0 {
        return Err(ModuleNameError::EmptyName);
    }
    if contains_char(cs.as_slice(), '\0') {
        return Err(ModuleNameError::NullByte);
    }
    if contains_char(cs.as_slice(), '/') || contains_char(cs.as_slice(), '\\') {
        return Err(ModuleNameError::PathSeparator);
    }
    let special = (cs.len() == 1 && cs[0] == '.') || (cs.len() == 2 && cs[0] == '.' && cs[1] == '.');
    proof {
        if cs@.len() == 1 && cs@[0] == '.' {
            assert(cs@ =~= dot());
        }
        if cs@.len() == 2 && cs@[0] == '.' && cs@[1] == '.' {
            assert(cs@ =~= dot_dot());
        }
    }
    if special {
        return Err(ModuleNameError::SpecialDirectory);
    }
    if cs.len() > 255 {
        return Err(ModuleNameError::TooLong);
    }
    let mut i: usize = 0;
    while i < cs.len()
        invariant
            0 <= i <= cs@.len(),
            cs@ == name@,
            forall|k: int| 0 <= k < i ==> !is_control_char(cs@[k]),
        decreases cs@.len() - i,
    {
        let code = cs[i] as u32;
        if code <= 0x1f || (0x7f <= code && code <= 0x9f) {
            assert(is_control_char(name@[i as int]));
            return Err(ModuleNameError::ControlCharacter);
        }
        i = i + 1;
    }
    assert(!(exists|k: int| 0 <= k < name@.len() && #[trigger] is_control_char(name@[k])));
    Ok(name.to_owned())
}

} // verus!
