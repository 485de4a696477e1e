//! Tests of path and module-name sanitization.

use mik::runtime::security::{
    sanitize_file_path, sanitize_module_name, validate_windows_path, ModuleNameError,
    PathTraversalError,
};
use std::path::PathBuf;


#[test]
fn security_test_sanitize_file_path_valid() {
    assert!(sanitize_file_path("index.html").is_ok());
    assert!(sanitize_file_path("project/index.html").is_ok());
    assert!(sanitize_file_path("assets/css/style.css").is_ok());
    assert!(sanitize_file_path("./file.txt").is_ok());
}

#[test]
fn security_test_sanitize_file_path_traversal() {
    assert_eq!(
        sanitize_file_path("../etc/passwd"),
        Err(PathTraversalError::EscapesBaseDirectory)
    );
    assert_eq!(
        sanitize_file_path("project/../../etc/passwd"),
        Err(PathTraversalError::EscapesBaseDirectory)
    );
    assert_eq!(
        sanitize_file_path("../../secrets"),
        Err(PathTraversalError::EscapesBaseDirectory)
    );
}

#[test]
fn security_test_sanitize_file_path_absolute() {
    assert_eq!(
        sanitize_file_path("/etc/passwd"),
        Err(PathTraversalError::AbsolutePath)
    );
    assert_eq!(
        sanitize_file_path("C:\\Windows\\System32"),
        Err(PathTraversalError::AbsolutePath)
    );
}

#[test]
fn security_test_sanitize_file_path_null_byte() {
    assert_eq!(
        sanitize_file_path("file\0.txt"),
        Err(PathTraversalError::NullByte)
    );
}

#[test]
fn security_test_sanitize_file_path_empty() {
    assert_eq!(sanitize_file_path(""), Err(PathTraversalError::EmptyPath));
}

#[test]
fn security_test_sanitize_file_path_normalization() {
    // "a/b/../c" -> "a/c"
    let result = sanitize_file_path("a/b/../c").unwrap();
    assert_eq!(PathBuf::from(result), PathBuf::from("a/c"));

    // "a/./b" -> "a/b"
    let result = sanitize_file_path("a/./b").unwrap();
    assert_eq!(PathBuf::from(result), PathBuf::from("a/b"));
}

#[test]
fn test_sanitize_module_name_valid() {
    assert!(sanitize_module_name("api").is_ok());
    assert!(sanitize_module_name("user-service").is_ok());
    assert!(sanitize_module_name("my_module").is_ok());
    assert!(sanitize_module_name("service123").is_ok());
}

#[test]
fn test_sanitize_module_name_path_separator() {
    assert_eq!(
        sanitize_module_name("api/users"),
        Err(ModuleNameError::PathSeparator)
    );
    assert_eq!(
        sanitize_module_name("..\\..\\etc\\passwd"),
        Err(ModuleNameError::PathSeparator)
    );
}

#[test]
fn test_sanitize_module_name_special_directory() {
    assert_eq!(
        sanitize_module_name(".."),
        Err(ModuleNameError::SpecialDirectory)
    );
    assert_eq!(
        sanitize_module_name("."),
        Err(ModuleNameError::SpecialDirectory)
    );
}

#[test]
fn test_sanitize_module_name_empty() {
    assert_eq!(sanitize_module_name(""), Err(ModuleNameError::EmptyName));
}

#[test]
fn test_sanitize_module_name_null_byte() {
    assert_eq!(
        sanitize_module_name("api\0"),
        Err(ModuleNameError::NullByte)
    );
}

#[test]
fn test_sanitize_module_name_too_long() {
    let long_name = "a".repeat(256);
    assert_eq!(
        sanitize_module_name(&long_name),
        Err(ModuleNameError::TooLong)
    );
}

#[test]
fn test_sanitize_module_name_control_chars() {
    assert_eq!(
        sanitize_module_name("api\x01"),
        Err(ModuleNameError::ControlCharacter)
    );
    assert_eq!(
        sanitize_module_name("api\n"),
        Err(ModuleNameError::ControlCharacter)
    );
}





#[test]
fn test_validate_windows_path_reserved_names() {
    // Reserved device names should be rejected
    assert_eq!(
        validate_windows_path("CON"),
        Err(PathTraversalError::ReservedWindowsName)
    );
    assert_eq!(
        validate_windows_path("con"),
        Err(PathTraversalError::ReservedWindowsName)
    );
    assert_eq!(
        validate_windows_path("PRN"),
        Err(PathTraversalError::ReservedWindowsName)
    );
    assert_eq!(
        validate_windows_path("NUL"),
        Err(PathTraversalError::ReservedWindowsName)
    );
    assert_eq!(
        validate_windows_path("COM1"),
        Err(PathTraversalError::ReservedWindowsName)
    );
    assert_eq!(
        validate_windows_path("LPT9"),
        Err(PathTraversalError::ReservedWindowsName)
    );
    // Reserved names with extensions should also be rejected
    assert_eq!(
        validate_windows_path("CON.txt"),
        Err(PathTraversalError::ReservedWindowsName)
    );
    assert_eq!(
        validate_windows_path("nul.anything"),
        Err(PathTraversalError::ReservedWindowsName)
    );
    // Reserved names in subdirectories
    assert_eq!(
        validate_windows_path("folder/CON"),
        Err(PathTraversalError::ReservedWindowsName)
    );
    assert_eq!(
        validate_windows_path("folder\\NUL.txt"),
        Err(PathTraversalError::ReservedWindowsName)
    );
}

#[test]
fn test_validate_windows_path_unc() {
    // UNC paths should be rejected
    assert_eq!(
        validate_windows_path("\\\\server\\share"),
        Err(PathTraversalError::UncPath)
    );
    assert_eq!(
        validate_windows_path("//server/share"),
        Err(PathTraversalError::UncPath)
    );
    assert_eq!(
        validate_windows_path("\\\\192.168.1.1\\c$"),
        Err(PathTraversalError::UncPath)
    );
}

#[test]
fn test_validate_windows_path_alternate_data_stream() {
    // Alternate data streams should be rejected
    assert_eq!(
        validate_windows_path("file.txt:hidden"),
        Err(PathTraversalError::AlternateDataStream)
    );
    assert_eq!(
        validate_windows_path("file.txt:$DATA"),
        Err(PathTraversalError::AlternateDataStream)
    );
    assert_eq!(
        validate_windows_path("folder/file:stream"),
        Err(PathTraversalError::AlternateDataStream)
    );
}

#[test]
fn test_validate_windows_path_valid() {
    // Normal paths should be allowed
    assert!(validate_windows_path("normal_file.txt").is_ok());
    assert!(validate_windows_path("my_folder/file.txt").is_ok());
    assert!(validate_windows_path("assets\\images\\logo.png").is_ok());
    // Names that look like reserved but aren't
    assert!(validate_windows_path("CONSOLE.txt").is_ok());
    assert!(validate_windows_path("PRNT.txt").is_ok());
    assert!(validate_windows_path("COM10.txt").is_ok()); // Only COM1-9 are reserved
}



// =========================================================================
// COMPREHENSIVE PATH TRAVERSAL EDGE CASE TESTS
// =========================================================================

#[test]
fn security_test_path_traversal_basic() {
    // Basic path traversal attempts
    assert_eq!(
        sanitize_file_path("../etc/passwd"),
        Err(PathTraversalError::EscapesBaseDirectory)
    );
    assert_eq!(
        sanitize_file_path("foo/../../../etc/passwd"),
        Err(PathTraversalError::EscapesBaseDirectory)
    );
    assert_eq!(
        sanitize_file_path(".."),
        Err(PathTraversalError::EscapesBaseDirectory)
    );
    assert_eq!(
        sanitize_file_path("../.."),
        Err(PathTraversalError::EscapesBaseDirectory)
    );
    // Deeply nested traversal
    assert_eq!(
        sanitize_file_path("a/b/c/../../../../etc/passwd"),
        Err(PathTraversalError::EscapesBaseDirectory)
    );
}

#[test]
fn security_test_path_traversal_double_encoded() {
    // Encoded dots are literal characters, so `%2e%2e` is an ordinary name.
    let result = sanitize_file_path("%2e%2e/etc/passwd");
    // This is a valid path component since %2e is just a literal filename char
    assert!(result.is_ok());

    // An encoded slash separates components, so `..%2Fetc/passwd` starts with `..`.
    assert_eq!(
        sanitize_file_path("..%2Fetc/passwd"),
        Err(PathTraversalError::EscapesBaseDirectory)
    );

    
}

#[test]
fn security_test_path_traversal_backslash_variants() {
    // Windows-style path traversal with backslashes
    assert_eq!(
        sanitize_file_path("..\\etc\\passwd"),
        Err(PathTraversalError::EscapesBaseDirectory)
    );
    assert_eq!(
        sanitize_file_path("..\\..\\windows\\system32"),
        Err(PathTraversalError::EscapesBaseDirectory)
    );
    assert_eq!(
        sanitize_file_path("foo\\..\\..\\..\\etc"),
        Err(PathTraversalError::EscapesBaseDirectory)
    );
}

#[test]
fn security_test_path_traversal_mixed_separators() {
    // Mix of forward and back slashes
    assert_eq!(
        sanitize_file_path("..\\../etc/passwd"),
        Err(PathTraversalError::EscapesBaseDirectory)
    );
    assert_eq!(
        sanitize_file_path("foo/..\\..\\etc"),
        Err(PathTraversalError::EscapesBaseDirectory)
    );
}

// =========================================================================
// NULL BYTE INJECTION TESTS
// =========================================================================

#[test]
fn security_test_null_byte_injection() {
    // Null byte at various positions
    assert_eq!(
        sanitize_file_path("valid.txt\0.exe"),
        Err(PathTraversalError::NullByte)
    );
    assert_eq!(
        sanitize_file_path("module\0evil"),
        Err(PathTraversalError::NullByte)
    );
    assert_eq!(
        sanitize_file_path("\0hidden"),
        Err(PathTraversalError::NullByte)
    );
    assert_eq!(
        sanitize_file_path("path/to/\0file"),
        Err(PathTraversalError::NullByte)
    );
    // Null byte at the end
    assert_eq!(
        sanitize_file_path("file.txt\0"),
        Err(PathTraversalError::NullByte)
    );
}

#[test]
fn test_null_byte_in_module_name() {
    assert_eq!(
        sanitize_module_name("valid\0evil"),
        Err(ModuleNameError::NullByte)
    );
    assert_eq!(sanitize_module_name("\0"), Err(ModuleNameError::NullByte));
    assert_eq!(
        sanitize_module_name("module\0"),
        Err(ModuleNameError::NullByte)
    );
}

// =========================================================================
// MODULE NAME VALIDATION TESTS
// =========================================================================

#[test]
fn test_module_name_valid() {
    // Various valid module name formats
    assert!(sanitize_module_name("my-module").is_ok());
    assert!(sanitize_module_name("module_v2").is_ok());
    assert!(sanitize_module_name("CamelCase").is_ok());
    assert!(sanitize_module_name("UPPERCASE").is_ok());
    assert!(sanitize_module_name("lowercase").is_ok());
    assert!(sanitize_module_name("mix3d-numb3rs_123").is_ok());
    assert!(sanitize_module_name("a").is_ok()); // Single char
    assert!(sanitize_module_name("module.wasm").is_ok()); // With extension
    assert!(sanitize_module_name("module.service.v2").is_ok()); // Multiple dots
}

#[test]
fn test_module_name_invalid_chars() {
    // Path separators
    assert_eq!(
        sanitize_module_name("../bad"),
        Err(ModuleNameError::PathSeparator)
    );
    assert_eq!(
        sanitize_module_name("bad/module"),
        Err(ModuleNameError::PathSeparator)
    );
    assert_eq!(
        sanitize_module_name("bad\\module"),
        Err(ModuleNameError::PathSeparator)
    );
    assert_eq!(
        sanitize_module_name("/absolute"),
        Err(ModuleNameError::PathSeparator)
    );
    assert_eq!(
        sanitize_module_name("\\backslash"),
        Err(ModuleNameError::PathSeparator)
    );
}

#[test]
fn test_module_name_too_long() {
    // Exactly at limit (255 chars) - should pass
    let at_limit = "a".repeat(255);
    assert!(sanitize_module_name(&at_limit).is_ok());

    // One over limit (256 chars) - should fail
    let over_limit = "a".repeat(256);
    assert_eq!(
        sanitize_module_name(&over_limit),
        Err(ModuleNameError::TooLong)
    );

    // Way over limit
    let way_over = "a".repeat(1000);
    assert_eq!(
        sanitize_module_name(&way_over),
        Err(ModuleNameError::TooLong)
    );
}

#[test]
fn test_module_name_control_characters() {
    // Various control characters
    assert_eq!(
        sanitize_module_name("mod\x00ule"), // Null (also caught by null check)
        Err(ModuleNameError::NullByte)
    );
    assert_eq!(
        sanitize_module_name("mod\x01ule"), // SOH
        Err(ModuleNameError::ControlCharacter)
    );
    assert_eq!(
        sanitize_module_name("mod\x1Bule"), // Escape
        Err(ModuleNameError::ControlCharacter)
    );
    assert_eq!(
        sanitize_module_name("module\r"), // Carriage return
        Err(ModuleNameError::ControlCharacter)
    );
    assert_eq!(
        sanitize_module_name("module\n"), // Newline
        Err(ModuleNameError::ControlCharacter)
    );
    assert_eq!(
        sanitize_module_name("module\t"), // Tab
        Err(ModuleNameError::ControlCharacter)
    );
}

#[test]
fn test_module_name_special_directories() {
    assert_eq!(
        sanitize_module_name("."),
        Err(ModuleNameError::SpecialDirectory)
    );
    assert_eq!(
        sanitize_module_name(".."),
        Err(ModuleNameError::SpecialDirectory)
    );
    // But these should be valid (contain dots but aren't special)
    assert!(sanitize_module_name("...").is_ok());
    assert!(sanitize_module_name(".hidden").is_ok());
    assert!(sanitize_module_name("file.txt").is_ok());
}

// =========================================================================
// VALID INPUT TESTS
// =========================================================================

#[test]
fn security_test_valid_paths() {
    // Valid nested paths
    let result = sanitize_file_path("assets/style.css");
    assert!(result.is_ok());
    assert_eq!(PathBuf::from(result.unwrap()), PathBuf::from("assets/style.css"));

    let result = sanitize_file_path("deep/nested/path/file.js");
    assert!(result.is_ok());
    assert_eq!(PathBuf::from(result.unwrap()), PathBuf::from("deep/nested/path/file.js"));

    // Valid path with safe .. usage (within bounds)
    let result = sanitize_file_path("a/b/../c/d");
    assert!(result.is_ok());
    assert_eq!(PathBuf::from(result.unwrap()), PathBuf::from("a/c/d"));
}

#[test]
fn security_test_valid_simple_filenames() {
    // Simple filenames
    assert_eq!(
        PathBuf::from(sanitize_file_path("file.txt").unwrap()),
        PathBuf::from("file.txt")
    );
    assert_eq!(
        PathBuf::from(sanitize_file_path("image.png").unwrap()),
        PathBuf::from("image.png")
    );
    assert_eq!(
        PathBuf::from(sanitize_file_path("data.json").unwrap()),
        PathBuf::from("data.json")
    );
    assert_eq!(
        PathBuf::from(sanitize_file_path("noextension").unwrap()),
        PathBuf::from("noextension")
    );
    assert_eq!(
        PathBuf::from(sanitize_file_path(".hidden").unwrap()),
        PathBuf::from(".hidden")
    );
}

#[test]
fn security_test_valid_paths_with_dots_in_name() {
    // Files with multiple dots (not traversal)
    assert_eq!(
        PathBuf::from(sanitize_file_path("file.min.js").unwrap()),
        PathBuf::from("file.min.js")
    );
    assert_eq!(
        PathBuf::from(sanitize_file_path("archive.tar.gz").unwrap()),
        PathBuf::from("archive.tar.gz")
    );
    assert_eq!(
        PathBuf::from(sanitize_file_path("version.1.2.3.txt").unwrap()),
        PathBuf::from("version.1.2.3.txt")
    );
}

// =========================================================================
// WINDOWS-SPECIFIC SECURITY TESTS
// =========================================================================

#[test]
fn test_windows_reserved_names_comprehensive() {
    // All reserved device names
    for name in &["CON", "PRN", "AUX", "NUL"] {
        assert_eq!(
            validate_windows_path(name),
            Err(PathTraversalError::ReservedWindowsName),
            "Should reject {}",
            name
        );
    }

    // COM ports 1-9
    for i in 1..=9 {
        let name = format!("COM{}", i);
        assert_eq!(
            validate_windows_path(&name),
            Err(PathTraversalError::ReservedWindowsName),
            "Should reject {}",
            name
        );
    }

    // LPT ports 1-9
    for i in 1..=9 {
        let name = format!("LPT{}", i);
        assert_eq!(
            validate_windows_path(&name),
            Err(PathTraversalError::ReservedWindowsName),
            "Should reject {}",
            name
        );
    }
}

#[test]
fn test_windows_reserved_names_case_insensitive() {
    // Case variations
    assert_eq!(
        validate_windows_path("con"),
        Err(PathTraversalError::ReservedWindowsName)
    );
    assert_eq!(
        validate_windows_path("CoN"),
        Err(PathTraversalError::ReservedWindowsName)
    );
    assert_eq!(
        validate_windows_path("cON"),
        Err(PathTraversalError::ReservedWindowsName)
    );
    assert_eq!(
        validate_windows_path("nUl"),
        Err(PathTraversalError::ReservedWindowsName)
    );
}

#[test]
fn test_windows_reserved_with_extensions() {
    // Reserved names with extensions are still dangerous
    assert_eq!(
        validate_windows_path("CON.txt"),
        Err(PathTraversalError::ReservedWindowsName)
    );
    assert_eq!(
        validate_windows_path("NUL.exe"),
        Err(PathTraversalError::ReservedWindowsName)
    );
    assert_eq!(
        validate_windows_path("COM1.log"),
        Err(PathTraversalError::ReservedWindowsName)
    );
    assert_eq!(
        validate_windows_path("aux.anything.here"),
        Err(PathTraversalError::ReservedWindowsName)
    );
}

#[test]
fn test_windows_alternate_data_streams() {
    // ADS syntax
    assert_eq!(
        validate_windows_path("file.txt:Zone.Identifier"),
        Err(PathTraversalError::AlternateDataStream)
    );
    assert_eq!(
        validate_windows_path("file:$DATA"),
        Err(PathTraversalError::AlternateDataStream)
    );
    assert_eq!(
        validate_windows_path("file.txt::$DATA"),
        Err(PathTraversalError::AlternateDataStream)
    );
}

#[test]
fn test_windows_unc_paths() {
    // UNC path variations
    assert_eq!(
        validate_windows_path("\\\\server\\share\\file.txt"),
        Err(PathTraversalError::UncPath)
    );
    assert_eq!(
        validate_windows_path("//server/share/file.txt"),
        Err(PathTraversalError::UncPath)
    );
    assert_eq!(
        validate_windows_path("\\\\?\\C:\\path"),
        Err(PathTraversalError::UncPath)
    );
    assert_eq!(
        validate_windows_path("\\\\localhost\\c$"),
        Err(PathTraversalError::UncPath)
    );
}

#[test]
fn test_windows_safe_names_similar_to_reserved() {
    // Names that look similar but aren't reserved
    assert!(validate_windows_path("CONN.txt").is_ok()); // Extra N
    assert!(validate_windows_path("PRNT.txt").is_ok()); // Extra T
    assert!(validate_windows_path("AUXILLARY.txt").is_ok()); // Extra chars
    assert!(validate_windows_path("NULLIFY.txt").is_ok()); // Contains NUL
    assert!(validate_windows_path("COM10.txt").is_ok()); // COM10+ not reserved
    assert!(validate_windows_path("COM0.txt").is_ok()); // COM0 not reserved
    assert!(validate_windows_path("LPT0.txt").is_ok()); // LPT0 not reserved
    assert!(validate_windows_path("LPT10.txt").is_ok()); // LPT10+ not reserved
}

// =========================================================================
// ERROR TYPE TESTS
// =========================================================================

#[test]
fn test_path_traversal_error_display() {
    assert_eq!(
        PathTraversalError::NullByte.to_string(),
        "Path contains null bytes"
    );
    assert_eq!(PathTraversalError::EmptyPath.to_string(), "Path is empty");
    assert_eq!(
        PathTraversalError::AbsolutePath.to_string(),
        "Absolute paths are not allowed"
    );
    assert_eq!(
        PathTraversalError::EscapesBaseDirectory.to_string(),
        "Path attempts to escape base directory using '..'"
    );
    assert_eq!(
        PathTraversalError::ReservedWindowsName.to_string(),
        "Path contains reserved Windows device name"
    );
    assert_eq!(
        PathTraversalError::UncPath.to_string(),
        "UNC paths are not allowed"
    );
    assert_eq!(
        PathTraversalError::AlternateDataStream.to_string(),
        "Alternate data streams are not allowed"
    );
}

#[test]
fn test_module_name_error_display() {
    assert_eq!(
        ModuleNameError::EmptyName.to_string(),
        "Module name is empty"
    );
    assert_eq!(
        ModuleNameError::NullByte.to_string(),
        "Module name contains null bytes"
    );
    assert_eq!(
        ModuleNameError::PathSeparator.to_string(),
        "Module name contains path separators"
    );
    assert_eq!(
        ModuleNameError::SpecialDirectory.to_string(),
        "Module name cannot be '.' or '..'"
    );
    assert_eq!(
        ModuleNameError::TooLong.to_string(),
        "Module name is too long (max 255 characters)"
    );
    assert_eq!(
        ModuleNameError::ControlCharacter.to_string(),
        "Module name contains control characters"
    );
}

// =========================================================================
// PATH NORMALIZATION EDGE CASES
// =========================================================================

#[test]
fn security_test_path_normalization_safe_usage() {
    // Safe .. that doesn't escape
    assert_eq!(
        PathBuf::from(sanitize_file_path("a/b/c/../../d").unwrap()),
        PathBuf::from("a/d")
    );

    // Multiple safe .. operations
    assert_eq!(
        PathBuf::from(sanitize_file_path("a/b/c/../d/../e").unwrap()),
        PathBuf::from("a/b/e")
    );

    // Current dir (.) is stripped
    assert_eq!(
        PathBuf::from(sanitize_file_path("./a/./b/./c").unwrap()),
        PathBuf::from("a/b/c")
    );

    // Mix of . and safe ..
    assert_eq!(
        PathBuf::from(sanitize_file_path("./a/b/../c/.").unwrap()),
        PathBuf::from("a/c")
    );
}

#[test]
fn security_test_path_only_current_dir() {
    // Just "." should result in empty path error after normalization
    assert_eq!(sanitize_file_path("."), Err(PathTraversalError::EmptyPath));
    assert_eq!(
        sanitize_file_path("././."),
        Err(PathTraversalError::EmptyPath)
    );
}

#[test]
fn security_test_absolute_paths_various_formats() {
    // Unix absolute paths
    assert_eq!(
        sanitize_file_path("/etc/passwd"),
        Err(PathTraversalError::AbsolutePath)
    );
    assert_eq!(
        sanitize_file_path("/"),
        Err(PathTraversalError::AbsolutePath)
    );
    assert_eq!(
        sanitize_file_path("/home/user/file"),
        Err(PathTraversalError::AbsolutePath)
    );
}
#[test]
fn security_test_windows_absolute_paths() {
    // Windows drive letters
    assert_eq!(
        sanitize_file_path("C:\\Windows\\System32"),
        Err(PathTraversalError::AbsolutePath)
    );
    assert_eq!(
        sanitize_file_path("D:/data/file.txt"),
        Err(PathTraversalError::AbsolutePath)
    );
    assert_eq!(
        sanitize_file_path("C:file.txt"),
        Err(PathTraversalError::AbsolutePath)
    );
}

#[test]
fn module_name_length_counts_characters() {
    let two_byte_letters = "é".repeat(128);
    assert_eq!(sanitize_module_name(&two_byte_letters), Ok(two_byte_letters.clone()));
    let at_limit = "é".repeat(255);
    assert_eq!(sanitize_module_name(&at_limit), Ok(at_limit.clone()));
    let over_limit = "é".repeat(256);
    assert_eq!(sanitize_module_name(&over_limit), Err(ModuleNameError::TooLong));
}
