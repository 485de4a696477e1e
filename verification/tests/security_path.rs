//! Tests of path sanitization without percent-decoding.

use mik::runtime::security::path::sanitize_file_path;
use mik::runtime::security::sanitize_file_path as sanitize_decoding;
use mik::runtime::security::PathTraversalError;
use mik::runtime::security::validate_path_within_base;
use mik::runtime::security::within_base::{confine_to_base, resolve_target};
use std::path::PathBuf;


// =========================================================================
// BASIC SANITIZATION TESTS
// =========================================================================

#[test]
fn mod_test_sanitize_file_path_valid() {
    assert!(sanitize_file_path("index.html").is_ok());
    assert!(sanitize_file_path("project/index.html").is_ok());
    assert!(sanitize_file_path("assets/css/style.css").is_ok());
    assert!(sanitize_file_path("./file.txt").is_ok());
}

#[test]
fn mod_test_sanitize_file_path_traversal() {
    assert_eq!(
        sanitize_file_path("../etc/passwd"),
        Err(PathTraversalError::EscapesBaseDirectory)
    );
    assert_eq!(
        sanitize_file_path("project/../../etc/passwd"),
        Err(PathTraversalError::EscapesBaseDirectory)
    );
    assert_eq!(
        sanitize_file_path("../../secrets"),
        Err(PathTraversalError::EscapesBaseDirectory)
    );
}

#[test]
fn mod_test_sanitize_file_path_absolute() {
    assert_eq!(
        sanitize_file_path("/etc/passwd"),
        Err(PathTraversalError::AbsolutePath)
    );
    assert_eq!(
        sanitize_file_path("C:\\Windows\\System32"),
        Err(PathTraversalError::AbsolutePath)
    );
}

#[test]
fn mod_test_sanitize_file_path_null_byte() {
    assert_eq!(
        sanitize_file_path("file\0.txt"),
        Err(PathTraversalError::NullByte)
    );
}

#[test]
fn mod_test_sanitize_file_path_empty() {
    assert_eq!(sanitize_file_path(""), Err(PathTraversalError::EmptyPath));
}

#[test]
fn mod_test_sanitize_file_path_normalization() {
    // "a/b/../c" -> "a/c"
    let result = sanitize_file_path("a/b/../c").unwrap();
    assert_eq!(PathBuf::from(result), PathBuf::from("a/c"));

    // "a/./b" -> "a/b"
    let result = sanitize_file_path("a/./b").unwrap();
    assert_eq!(PathBuf::from(result), PathBuf::from("a/b"));
}

// =========================================================================
// PATH TRAVERSAL EDGE CASES
// =========================================================================

#[test]
fn mod_test_path_traversal_basic() {
    assert_eq!(
        sanitize_file_path("../etc/passwd"),
        Err(PathTraversalError::EscapesBaseDirectory)
    );
    assert_eq!(
        sanitize_file_path("foo/../../../etc/passwd"),
        Err(PathTraversalError::EscapesBaseDirectory)
    );
    assert_eq!(
        sanitize_file_path(".."),
        Err(PathTraversalError::EscapesBaseDirectory)
    );
    assert_eq!(
        sanitize_file_path("../.."),
        Err(PathTraversalError::EscapesBaseDirectory)
    );
    // Deeply nested traversal
    assert_eq!(
        sanitize_file_path("a/b/c/../../../../etc/passwd"),
        Err(PathTraversalError::EscapesBaseDirectory)
    );
}

#[test]
fn mod_test_path_traversal_double_encoded() {
    // URL-encoded variants - these are literal strings, not decoded
    // The function receives the raw string, URL decoding happens at HTTP layer
    // But we test what happens if encoded chars slip through

    // These should be treated as literal filenames (weird but not traversal)
    // because the function doesn't do URL decoding
    let result = sanitize_file_path("%2e%2e/etc/passwd");
    // This is a valid path component since %2e is just a literal filename char
    assert!(result.is_ok());

    // Mixed encoding: `..%2Fetc/passwd` has components `..%2Fetc` + `passwd`
    // The `..%2Fetc` is a Normal component (weird filename), not ParentDir
    // because `%2F` is a literal string, not a path separator
    let result = sanitize_file_path("..%2Fetc/passwd");
    assert!(result.is_ok());
}
#[test]
fn mod_test_path_traversal_backslash_variants() {
    // Windows-style path traversal with backslashes
    // Note: On Unix, backslashes are literal filename characters, not path separators
    assert_eq!(
        sanitize_file_path("..\\etc\\passwd"),
        Err(PathTraversalError::EscapesBaseDirectory)
    );
    assert_eq!(
        sanitize_file_path("..\\..\\windows\\system32"),
        Err(PathTraversalError::EscapesBaseDirectory)
    );
    assert_eq!(
        sanitize_file_path("foo\\..\\..\\..\\etc"),
        Err(PathTraversalError::EscapesBaseDirectory)
    );
}
#[test]
fn mod_test_path_traversal_mixed_separators() {
    // Mix of forward and back slashes
    // Note: On Unix, backslashes are literal filename characters, not path separators
    assert_eq!(
        sanitize_file_path("..\\../etc/passwd"),
        Err(PathTraversalError::EscapesBaseDirectory)
    );
    assert_eq!(
        sanitize_file_path("foo/..\\..\\etc"),
        Err(PathTraversalError::EscapesBaseDirectory)
    );
}

// =========================================================================
// NULL BYTE INJECTION TESTS
// =========================================================================

#[test]
fn mod_test_null_byte_injection() {
    // Null byte at various positions
    assert_eq!(
        sanitize_file_path("valid.txt\0.exe"),
        Err(PathTraversalError::NullByte)
    );
    assert_eq!(
        sanitize_file_path("module\0evil"),
        Err(PathTraversalError::NullByte)
    );
    assert_eq!(
        sanitize_file_path("\0hidden"),
        Err(PathTraversalError::NullByte)
    );
    assert_eq!(
        sanitize_file_path("path/to/\0file"),
        Err(PathTraversalError::NullByte)
    );
    // Null byte at the end
    assert_eq!(
        sanitize_file_path("file.txt\0"),
        Err(PathTraversalError::NullByte)
    );
}

// =========================================================================
// VALID INPUT TESTS
// =========================================================================

#[test]
fn mod_test_valid_paths() {
    // Valid nested paths
    let result = sanitize_file_path("assets/style.css");
    assert!(result.is_ok());
    assert_eq!(PathBuf::from(result.unwrap()), PathBuf::from("assets/style.css"));

    let result = sanitize_file_path("deep/nested/path/file.js");
    assert!(result.is_ok());
    assert_eq!(PathBuf::from(result.unwrap()), PathBuf::from("deep/nested/path/file.js"));

    // Valid path with safe .. usage (within bounds)
    let result = sanitize_file_path("a/b/../c/d");
    assert!(result.is_ok());
    assert_eq!(PathBuf::from(result.unwrap()), PathBuf::from("a/c/d"));
}

#[test]
fn mod_test_valid_simple_filenames() {
    // Simple filenames
    assert_eq!(
        PathBuf::from(sanitize_file_path("file.txt").unwrap()),
        PathBuf::from("file.txt")
    );
    assert_eq!(
        PathBuf::from(sanitize_file_path("image.png").unwrap()),
        PathBuf::from("image.png")
    );
    assert_eq!(
        PathBuf::from(sanitize_file_path("data.json").unwrap()),
        PathBuf::from("data.json")
    );
    assert_eq!(
        PathBuf::from(sanitize_file_path("noextension").unwrap()),
        PathBuf::from("noextension")
    );
    assert_eq!(
        PathBuf::from(sanitize_file_path(".hidden").unwrap()),
        PathBuf::from(".hidden")
    );
}

#[test]
fn mod_test_valid_paths_with_dots_in_name() {
    // Files with multiple dots (not traversal)
    assert_eq!(
        PathBuf::from(sanitize_file_path("file.min.js").unwrap()),
        PathBuf::from("file.min.js")
    );
    assert_eq!(
        PathBuf::from(sanitize_file_path("archive.tar.gz").unwrap()),
        PathBuf::from("archive.tar.gz")
    );
    assert_eq!(
        PathBuf::from(sanitize_file_path("version.1.2.3.txt").unwrap()),
        PathBuf::from("version.1.2.3.txt")
    );
}

// =========================================================================
// PATH NORMALIZATION EDGE CASES
// =========================================================================

#[test]
fn mod_test_path_normalization_safe_usage() {
    // Safe .. that doesn't escape
    assert_eq!(
        PathBuf::from(sanitize_file_path("a/b/c/../../d").unwrap()),
        PathBuf::from("a/d")
    );

    // Multiple safe .. operations
    assert_eq!(
        PathBuf::from(sanitize_file_path("a/b/c/../d/../e").unwrap()),
        PathBuf::from("a/b/e")
    );

    // Current dir (.) is stripped
    assert_eq!(
        PathBuf::from(sanitize_file_path("./a/./b/./c").unwrap()),
        PathBuf::from("a/b/c")
    );

    // Mix of . and safe ..
    assert_eq!(
        PathBuf::from(sanitize_file_path("./a/b/../c/.").unwrap()),
        PathBuf::from("a/c")
    );
}

#[test]
fn mod_test_path_only_current_dir() {
    // Just "." should result in empty path error after normalization
    assert_eq!(sanitize_file_path("."), Err(PathTraversalError::EmptyPath));
    assert_eq!(
        sanitize_file_path("././."),
        Err(PathTraversalError::EmptyPath)
    );
}

#[test]
fn mod_test_absolute_paths_various_formats() {
    // Unix absolute paths
    assert_eq!(
        sanitize_file_path("/etc/passwd"),
        Err(PathTraversalError::AbsolutePath)
    );
    assert_eq!(
        sanitize_file_path("/"),
        Err(PathTraversalError::AbsolutePath)
    );
    assert_eq!(
        sanitize_file_path("/home/user/file"),
        Err(PathTraversalError::AbsolutePath)
    );
}
#[test]
fn mod_test_windows_absolute_paths() {
    // Windows drive letters
    assert_eq!(
        sanitize_file_path("C:\\Windows\\System32"),
        Err(PathTraversalError::AbsolutePath)
    );
    assert_eq!(
        sanitize_file_path("D:/data/file.txt"),
        Err(PathTraversalError::AbsolutePath)
    );
    assert_eq!(
        sanitize_file_path("C:file.txt"),
        Err(PathTraversalError::AbsolutePath)
    );
}

// =========================================================================
// CONFINEMENT TO A BASE DIRECTORY
// =========================================================================

#[test]
fn test_validate_path_within_base_nonexistent() {
    // The base exists, the file does not: its parent is resolved instead.
    let base = PathBuf::from("/tmp");
    let result = validate_path_within_base(&base, &PathBuf::from("mik_nonexistent_file.txt"));
    assert!(result.is_ok());
}

#[test]
fn within_base_rejects_resolved_escape() {
    let base = PathBuf::from("/tmp");
    let result = validate_path_within_base(&base, &PathBuf::from("../etc"));
    assert_eq!(result, Err(PathTraversalError::EscapesBaseDirectory));
}

#[test]
fn within_base_empty_path_has_no_parent() {
    let result = validate_path_within_base(&PathBuf::new(), &PathBuf::new());
    assert_eq!(result, Err(PathTraversalError::EmptyPath));
}

#[test]
fn within_base_root_is_within_itself() {
    let result = validate_path_within_base(&PathBuf::from("/"), &PathBuf::new());
    assert_eq!(result, Ok(PathBuf::from("/")));
}

#[test]
fn confine_to_base_decides_on_prefix() {
    let inside = PathBuf::from("/srv/www/a.txt");
    assert_eq!(
        confine_to_base(inside.clone(), Some(PathBuf::from("/srv/www"))),
        Ok(inside.clone())
    );
    assert_eq!(
        confine_to_base(inside.clone(), Some(PathBuf::from("/srv/w"))),
        Err(PathTraversalError::EscapesBaseDirectory)
    );
    assert_eq!(
        confine_to_base(inside, None),
        Err(PathTraversalError::EscapesBaseDirectory)
    );
}

#[test]
fn resolve_target_follows_the_disk_answers() {
    let full = PathBuf::from("/srv/www/a.txt");
    let real = PathBuf::from("/data/www/a.txt");
    // An existing path is replaced by its canonical form.
    assert_eq!(
        resolve_target(full.clone(), true, Some(real.clone()), false, None),
        Ok(real.clone())
    );
    assert_eq!(
        resolve_target(full.clone(), true, None, false, None),
        Err(PathTraversalError::EscapesBaseDirectory)
    );
    // A missing path takes its canonical parent and its own file name.
    assert_eq!(
        resolve_target(full.clone(), false, None, true, Some(PathBuf::from("/data/www"))),
        Ok(real)
    );
    assert_eq!(
        resolve_target(full.clone(), false, None, true, None),
        Err(PathTraversalError::EscapesBaseDirectory)
    );
    // Without an existing parent the path is kept as it is.
    assert_eq!(resolve_target(full.clone(), false, None, false, None), Ok(full));
    // The root has no parent, a `..` ending no file name.
    assert_eq!(
        resolve_target(PathBuf::from("/"), false, None, true, None),
        Err(PathTraversalError::EmptyPath)
    );
    assert_eq!(
        resolve_target(PathBuf::from("/srv/.."), false, None, true, None),
        Err(PathTraversalError::EmptyPath)
    );
}

#[test]
fn sanitized_paths_are_plain_and_stable() {
    for input in ["a/./b/../c", "x%2Fy/./z", "p\\q/../r.txt", "docs/readme.md"] {
        let once = sanitize_decoding(input).unwrap();
        let once_text = once.to_str().unwrap();
        for part in once_text.split('/') {
            assert!(!part.is_empty() && part != "." && part != "..");
        }
        assert_eq!(sanitize_decoding(once_text).unwrap(), once);
        let plain = sanitize_file_path(input).unwrap();
        assert_eq!(sanitize_file_path(plain.to_str().unwrap()).unwrap(), plain);
    }
    assert_eq!(sanitize_decoding("docs/readme.md").unwrap(), PathBuf::from("docs/readme.md"));
    assert_eq!(sanitize_decoding("a/\0b"), Err(PathTraversalError::NullByte));
    assert!(sanitize_decoding("/etc/passwd").is_err());
    assert!(sanitize_decoding("\\server").is_err());
}
