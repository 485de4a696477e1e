//! Error types for security validation.

use vstd::prelude::*;

verus! {

/// Error type for path traversal attempts.
#[derive(Debug, Clone, Copy, PartialEq, Eq, Structural)]
pub enum PathTraversalError {
    /// Path contains null bytes.
    NullByte,
    /// Path is empty.
    EmptyPath,
    /// Path is absolute (starts with a separator or a drive letter).
    AbsolutePath,
    /// Path tries to escape the base directory using `..`.
    EscapesBaseDirectory,
    /// Path contains a reserved Windows device name (CON, PRN, NUL, etc.).
    ReservedWindowsName,
    /// Path is a Windows UNC path (\\server\share).
    UncPath,
    /// Path contains Windows alternate data stream syntax (`file:stream`).
    AlternateDataStream,
}

/// The message shown for each path error.
pub open spec fn path_error_message(e: PathTraversalError) -> Seq<char> {
    match e {
        PathTraversalError::NullByte => "Path contains null bytes"@,
        PathTraversalError::EmptyPath => "Path is empty"@,
        PathTraversalError::AbsolutePath => "Absolute paths are not allowed"@,
        PathTraversalError::EscapesBaseDirectory => "Path attempts to escape base directory using '..'"@,
        PathTraversalError::ReservedWindowsName => "Path contains reserved Windows device name"@,
        PathTraversalError::UncPath => "UNC paths are not allowed"@,
        PathTraversalError::AlternateDataStream => "Alternate data streams are not allowed"@,
    }
}

impl PathTraversalError {
    /// The human-readable message for this error.
    pub fn to_string(&self) -> (s: String)
        ensures
            s@ == path_error_message(*self),
    {
        match self {
            PathTraversalError::NullByte => "Path contains null bytes".to_owned(),
            PathTraversalError::EmptyPath => "Path is empty".to_owned(),
            PathTraversalError::AbsolutePath => "Absolute paths are not allowed".to_owned(),
            PathTraversalError::EscapesBaseDirectory => "Path attempts to escape base directory using '..'".to_owned(),
            PathTraversalError::ReservedWindowsName => "Path contains reserved Windows device name".to_owned(),
            PathTraversalError::UncPath => "UNC paths are not allowed".to_owned(),
            PathTraversalError::AlternateDataStream => "Alternate data streams are not allowed".to_owned(),
        }
    }
}

/// Error type for invalid module names.
#[derive(Debug, Clone, Copy, PartialEq, Eq, Structural)]
pub enum ModuleNameError {
    /// Module name is empty.
    EmptyName,
    /// Module name contains null bytes.
    NullByte,
    /// Module name contains path separators.
    PathSeparator,
    /// Module name is a special directory (`.` or `..`).
    SpecialDirectory,
    /// Module name is too long (> 255 characters).
    TooLong,
    /// Module name contains control characters.
    ControlCharacter,
}

/// The message shown for each module name error.
pub open spec fn module_error_message(e: ModuleNameError) -> Seq<char> {
    match e {
        ModuleNameError::EmptyName => "Module name is empty"@,
        ModuleNameError::NullByte => "Module name contains null bytes"@,
        ModuleNameError::PathSeparator => "Module name contains path separators"@,
        ModuleNameError::SpecialDirectory => "Module name cannot be '.' or '..'"@,
        ModuleNameError::TooLong => "Module name is too long (max 255 characters)"@,
        ModuleNameError::ControlCharacter => "Module name contains control characters"@,
    }
}

impl ModuleNameError {
    /// The human-readable message for this error.
    pub fn to_string(&self) -> (s: String)
        ensures
            s@ == module_error_message(*self),
    {
        match self {
            ModuleNameError::EmptyName => "Module name is empty".to_owned(),
            ModuleNameError::NullByte => "Module name contains null bytes".to_owned(),
            ModuleNameError::PathSeparator => "Module name contains path separators".to_owned(),
            ModuleNameError::SpecialDirectory => "Module name cannot be '.' or '..'".to_owned(),
            ModuleNameError::TooLong => "Module name is too long (max 255 characters)".to_owned(),
            ModuleNameError::ControlCharacter => "Module name contains control characters".to_owned(),
        }
    }
}

} // verus!
