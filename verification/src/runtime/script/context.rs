//! Script preprocessing: support for `export default function(input) { .. }`.
//!
//! The default export becomes a variable `__default__` that is then called
//! with `input`; an async default export is called through `Promise.then` so
//! that its result can be read once the runtime has run the pending jobs.

use crate::text::{chars_of, contains_chars, has_infix, replace_all, replace_chars, string_from_chars};
use vstd::prelude::*;

verus! {

broadcast use vstd::string::group_string_axioms;

/// The script with each form of default export turned into an assignment
/// to `__default__`, in the order the replacements are applied.
pub open spec fn transformed(script: Seq<char>) -> Seq<char> {
    replace_all(
        replace_all(
            replace_all(
                replace_all(script, "export default async function"@, "var __default__ = async function"@),
                "export default function"@,
                "var __default__ = function"@,
            ),
            "export default async ("@,
            "var __default__ = async function("@,
        ),
        "export default ("@,
        "var __default__ = function("@,
    )
}

/// The lines that call an async default export and record its outcome.
pub open spec fn async_call_suffix() -> Seq<char> {
    "\nvar __async_result__ = { resolved: false, value: null, error: null };\n__default__(input).then(\nfunction(r) { __async_result__.resolved = true; __async_result__.value = r; },\nfunction(e) { __async_result__.resolved = true; __async_result__.error = e ? e.toString() : 'Unknown error'; }\n);\n__async_result__;"@
}

/// The line that calls a synchronous default export.
pub open spec fn sync_call_suffix() -> Seq<char> {
    "\n__default__(input);"@
}

/// The executable form of a script.
pub open spec fn preprocessed(script: Seq<char>) -> Seq<char> {
    if has_infix(script, "export default async"@) {
        transformed(script) + async_call_suffix()
    } else {
        transformed(script) + sync_call_suffix()
    }
}

fn replace_str(s: Vec<char>, from: &str, to: &str) -> (r: Vec<char>)
    requires
        from@.len() > 0,
    ensures
        r@ == replace_all(s@, from@, to@),
{
    let f = chars_of(from);
    let t = chars_of(to);
    replace_chars(s.as_slice(), f.as_slice(), t.as_slice())
}

/// Preprocesses a script so that `export default function(input) { .. }`
/// (also async, and arrow forms) is assigned to `__default__` and called
/// with `input`.
pub fn preprocess_script(script: &str) -> (r: String)
    ensures
        r@ == preprocessed(script@),
{
    proof {
        reveal_strlit("export default async function");
        reveal_strlit("export default function");
        reveal_strlit("export default async (");
        reveal_strlit("export default (");
    }
    let cs = chars_of(script);
    let marker = chars_of("export default async");
    let is_async = contains_chars(cs.as_slice(), marker.as_slice());
    let t1 = replace_str(cs, "export default async function", "var __default__ = async function");
    let t2 = replace_str(t1, "export default function", "var __default__ = function");
    let t3 = replace_str(t2, "export default async (", "var __default__ = async function(");
    let t4 = replace_str(t3, "export default (", "var __default__ = function(");
    let suffix = if is_async {
        chars_of(
            "\nvar __async_result__ = { resolved: false, value: null, error: null };\n__default__(input).then(\nfunction(r) { __async_result__.resolved = true; __async_result__.value = r; },\nfunction(e) { __async_result__.resolved = true; __async_result__.error = e ? e.toString() : 'Unknown error'; }\n);\n__async_result__;",
        )
    } else {
        chars_of("\n__default__(input);")
    };
    let mut out = t4;
    crate::text::push_all(&mut out, suffix.as_slice());
    string_from_chars(out.as_slice())
}

} // verus!
