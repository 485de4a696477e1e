//! Static OpenAPI schemas: `GET /openapi/<module>` answers with the
//! `<module>.openapi.json` file next to the module, or a 404.

use crate::paths::{joined, path_join};
use crate::runtime::request::{headers_view, Response};
use crate::text::push_str;
use std::path::PathBuf;
use vstd::prelude::*;
use vstd::utf8::encode_utf8;

verus! {

broadcast use vstd::string::group_string_axioms;

/// Header indicating the schema source.
pub const SCHEMA_SOURCE_HEADER: &'static str = "X-Schema-Source";

/// Static source indicator value.
pub const SOURCE_STATIC: &'static str = "static";

/// The schema file of `module_name` in `modules_dir`.
pub fn get_schema_path(modules_dir: &PathBuf, module_name: &str) -> (p: PathBuf)
    ensures
        p == joined(*modules_dir, module_name@ + ".openapi.json"@),
{
    let mut name = String::new();
    push_str(&mut name, module_name);
    push_str(&mut name, ".openapi.json");
    path_join(modules_dir, name.as_str())
}

/// The headers of every schema answer.
pub open spec fn schema_headers() -> Seq<(Seq<char>, Seq<char>)> {
    seq![("Content-Type"@, "application/json"@), ("X-Schema-Source"@, "static"@)]
}

/// The answer for a schema file: 200 with its content when it could be
/// read, otherwise 404 with `{"error":"Schema not available"}`.
pub fn schema_response(content: Option<Vec<u8>>) -> (r: Response)
    ensures
        headers_view(r.headers@) == schema_headers(),
        match content {
            Some(c) => r.status == 200 && r.body@ == c@,
            None => r.status == 404 && r.body@ == encode_utf8("{\"error\":\"Schema not available\"}"@),
        },
{
    let base = match &content {
        Some(_) => Response::new(200),
        None => Response::new(404),
    };
    let with_headers = base.with_header("Content-Type", "application/json").with_header(
        SCHEMA_SOURCE_HEADER,
        SOURCE_STATIC,
    );
    assert(headers_view(with_headers.headers@) =~= schema_headers());
    match content {
        Some(c) => with_headers.with_body(c),
        None => with_headers.with_body_str("{\"error\":\"Schema not available\"}"),
    }
}

} // verus!
