//! Tests of script preprocessing.

use mik::runtime::script::context::preprocess_script;

#[test]
fn test_preprocess_export_default_function() {
    let script = "export default function(input) { return input.value * 2; }";
    let processed = preprocess_script(script);
    assert!(processed.contains("var __default__ = function"));
    assert!(processed.contains("__default__(input);"));
    assert!(!processed.contains("export default"));
}

#[test]
fn test_preprocess_export_default_async_function() {
    let script = "export default async function(input) { return await something(); }";
    let processed = preprocess_script(script);
    assert!(processed.contains("var __default__ = async function"));
    assert!(processed.contains("__async_result__"));
    assert!(processed.contains("__default__(input).then"));
}

#[test]
fn test_preprocess_export_default_arrow() {
    let script = "export default (input) => { return input.name; }";
    let processed = preprocess_script(script);
    assert!(processed.contains("var __default__ = function(input)"));
    assert!(processed.contains("__default__(input);"));
}

#[test]
fn preprocess_named_and_async_arrow_forms() {
    let named = preprocess_script("export default function handler(input) { return {handled: true}; }");
    assert_eq!(
        named,
        "var __default__ = function handler(input) { return {handled: true}; }\n__default__(input);"
    );
    let arrow = preprocess_script("export default async (x) => x");
    assert!(arrow.starts_with("var __default__ = async function(x) => x\nvar __async_result__"));
    assert!(arrow.ends_with("__async_result__;"));
    assert_eq!(preprocess_script(""), "\n__default__(input);");
}
