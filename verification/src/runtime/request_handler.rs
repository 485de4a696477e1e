//! Request routing decisions of the runtime.
//!
//! A request is answered by a built-in endpoint (health, metrics), refused
//! (path too long, body too large), served from static files or schemas,
//! handed to a script, or routed to a WASM module under `/run/<module>/`.
//! Executing modules and scripts, reading files and bodies are I/O that
//! happens outside this module; it decides where a request goes and builds
//! the answers that need no I/O.

use crate::constants::MAX_PATH_LENGTH;
use crate::runtime::error::{error_message, status_of, Error};
use crate::runtime::request::{headers_view, parse_usize_spec, Request, Response};
use crate::runtime::types::ErrorCategory;
use crate::text::{
    chars_of, contains_char, contains_chars, decimal, has_infix, has_prefix, lowercase_of,
    push_decimal, push_str, starts_with_chars, str_eq, str_to_lowercase, string_from_chars,
};
use vstd::prelude::*;
use vstd::utf8::encode_utf8;

verus! {

broadcast use vstd::string::group_string_axioms;

/// Path of the health endpoint.
pub const HEALTH_PATH: &'static str = "/health";
/// Path of the metrics endpoint.
pub const METRICS_PATH: &'static str = "/metrics";
/// Prefix of module routes.
pub const RUN_PREFIX: &'static str = "/run/";
/// Prefix of OpenAPI schema routes.
pub const OPENAPI_PREFIX: &'static str = "/openapi/";
/// Prefix of static file routes.
pub const STATIC_PREFIX: &'static str = "/static/";
/// Prefix of script routes.
pub const SCRIPT_PREFIX: &'static str = "/script/";
/// Retry-After (seconds) sent when a module's circuit breaker is open.
pub const CIRCUIT_BREAKER_RETRY_AFTER_SECS: &'static str = "30";
/// Retry-After (seconds) sent when a module is overloaded.
pub const MODULE_OVERLOAD_RETRY_AFTER_SECS: &'static str = "5";

/// What `percent_decode_str(s).decode_utf8_lossy()` yields: `%XX` escapes
/// decoded, invalid UTF-8 replaced by U+FFFD.
pub uninterp spec fn percent_decoded(s: Seq<char>) -> Seq<char>;

/// percent-encoding's `percent_decode_str(s).decode_utf8_lossy()`: the text
/// named `percent_decoded(s)`, a function of `s` alone.
#[verifier::external_body]
fn percent_decode_lossy(s: &str) -> (r: String)
    ensures
        r@ == percent_decoded(s@),
{
    percent_encoding::percent_decode_str(s).decode_utf8_lossy().into_owned()
}

/// A part of a route, percent-decoded only when it holds a `%`.
pub open spec fn decode_part(s: Seq<char>) -> Seq<char> {
    if s.contains('%') {
        percent_decoded(s)
    } else {
        s
    }
}

/// The position of the first `/` in `s`, if any.
pub open spec fn first_slash(s: Seq<char>) -> Option<int> {
    if s.contains('/') {
        Some(choose|i: int| 0 <= i < s.len() && s[i] == '/' && forall|j: int| 0 <= j < i ==> s[j] != '/')
    } else {
        None
    }
}

/// The module name and handler path of a run path (what follows `/run/`):
/// the module is everything before the first `/`, the handler path the rest
/// (or `/`); each part is percent-decoded when it holds a `%`.
pub open spec fn module_route(run_path: Seq<char>) -> (Seq<char>, Seq<char>) {
    if run_path.len() == 0 {
        (Seq::empty(), "/"@)
    } else {
        match first_slash(run_path) {
            Some(i) => (decode_part(run_path.take(i)), decode_part(run_path.skip(i))),
            None => (decode_part(run_path), "/"@),
        }
    }
}

fn decode_if_escaped(part: &[char]) -> (r: String)
    ensures
        r@ == decode_part(part@),
{
    let s = string_from_chars(part);
    if contains_char(part, '%') {
        percent_decode_lossy(s.as_str())
    } else {
        s
    }
}

/// Splits a run path into module name and handler path.
pub fn parse_module_route(run_path: &str) -> (r: (String, String))
    ensures
        r.0@ == module_route(run_path@).0,
        r.1@ == module_route(run_path@).1,
{
    let cs = chars_of(run_path);
    if cs.len() == 0 {
        return (String::new(), "/".to_string());
    }
    let mut i: usize = 0;
    while i < cs.len() && cs[i] != '/'
        invariant
            0 <= i <= cs@.len(),
            forall|j: int| 0 <= j < i ==> cs@[j] != '/',
        decreases cs@.len() - i,
    {
        i = i + 1;
    }
    if i == cs.len() {
        assert(!cs@.contains('/'));
        let decoded = decode_if_escaped(cs.as_slice());
        (decoded, "/".to_string())
    } else {
        assert(cs@.contains('/')) by {
            assert(cs@[i as int] == '/');
        }
        let ghost k = choose|k: int| 0 <= k < cs@.len() && cs@[k] == '/' && forall|j: int| 0 <= j < k ==> cs@[j] != '/';
        assert(k == i) by {
            if k < i {
                assert(cs@[k] != '/');
            } else if k > i {
                assert(cs@[i as int] != '/');
            }
        }
        let head = vstd::slice::slice_subrange(cs.as_slice(), 0, i);
        let tail = vstd::slice::slice_subrange(cs.as_slice(), i, cs.len());
        assert(head@ =~= cs@.take(i as int));
        assert(tail@ =~= cs@.skip(i as int));
        (decode_if_escaped(head), decode_if_escaped(tail))
    }
}

/// The JSON text of a string: quoted, with `"`, `\` and control characters
/// escaped as serde_json writes them.
pub open spec fn json_escape_char(c: char) -> Seq<char> {
    if c == '"' {
        "\\\""@
    } else if c == '\\' {
        "\\\\"@
    } else if c == '\n' {
        "\\n"@
    } else if c == '\r' {
        "\\r"@
    } else if c == '\t' {
        "\\t"@
    } else if c == '\u{8}' {
        "\\b"@
    } else if c == '\u{c}' {
        "\\f"@
    } else if (c as u32) < 0x20 {
        "\\u00"@ + seq![crate::text::hex_digit((c as u32 / 16) as nat), crate::text::hex_digit((c as u32 % 16) as nat)]
    } else {
        seq![c]
    }
}

/// The escaped body of a JSON string (without the quotes).
pub open spec fn json_escaped(s: Seq<char>) -> Seq<char>
    decreases s.len(),
{
    if s.len() == 0 {
        Seq::empty()
    } else {
        json_escaped(s.drop_last()) + json_escape_char(s.last())
    }
}

/// Appends `s` escaped for a JSON string.
pub(crate) fn push_json_text(out: &mut String, s: &str)
    ensures
        final(out)@ == old(out)@ + json_escaped(s@),
{
    push_json_escaped(out, s)
}

fn push_json_escaped(out: &mut String, s: &str)
    ensures
        final(out)@ == old(out)@ + json_escaped(s@),
{
    let cs = chars_of(s);
    let ghost start = out@;
    let mut i: usize = 0;
    while i < cs.len()
        invariant
            0 <= i <= cs@.len(),
            cs@ == s@,
            out@ == start + json_escaped(cs@.take(i as int)),
        decreases cs@.len() - i,
    {
        assert(cs@.take(i + 1).drop_last() =~= cs@.take(i as int));
        let c = cs[i];
        if c == '"' {
            push_str(out, "\\\"");
        } else if c == '\\' {
            push_str(out, "\\\\");
        } else if c == '\n' {
            push_str(out, "\\n");
        } else if c == '\r' {
            push_str(out, "\\r");
        } else if c == '\t' {
            push_str(out, "\\t");
        } else if c == '\u{8}' {
            push_str(out, "\\b");
        } else if c == '\u{c}' {
            push_str(out, "\\f");
        } else if (c as u32) < 0x20 {
            push_str(out, "\\u00");
            let hi = crate::text::hex_digit_of((c as u32 / 16) as u8);
            let lo = crate::text::hex_digit_of((c as u32 % 16) as u8);
            crate::text::push_char(out, hi);
            crate::text::push_char(out, lo);
        } else {
            crate::text::push_char(out, c);
        }
        i = i + 1;
        assert(out@ =~= start + json_escaped(cs@.take(i as int)));
    }
    assert(cs@.take(cs@.len() as int) =~= cs@);
}

/// A 404 answer whose body is `message`, with no headers.
pub fn not_found(message: &str) -> (r: Response)
    ensures
        r.status == 404,
        r.headers@.len() == 0,
        r.body@ == encode_utf8(message@),
{
    Response::new(404).with_body_str(message)
}

/// The JSON body of an error answer: `{"error":<message>,"status":<code>}`.
pub open spec fn error_body(message: Seq<char>, status: u16) -> Seq<char> {
    "{\"error\":\""@ + json_escaped(message) + "\",\"status\":"@ + decimal(status as nat) + "}"@
}

/// The answer for a runtime error: its status code, a JSON content type, and
/// a JSON body with the message and the status.
pub fn error_response(err: &Error) -> (r: Response)
    ensures
        r.status == status_of(*err),
        headers_view(r.headers@) == seq![("Content-Type"@, "application/json"@)],
        exists|io_text: Seq<char>| r.body@ == encode_utf8(
            error_body(error_message(*err, io_text), status_of(*err)),
        ),
        !(*err is Io) ==> r.body@ == encode_utf8(
            error_body(error_message(*err, Seq::empty()), status_of(*err)),
        ),
{
    let status = err.status_code();
    let message = err.to_string();
    let mut body = String::new();
    push_str(&mut body, "{\"error\":\"");
    push_json_escaped(&mut body, message.as_str());
    push_str(&mut body, "\",\"status\":");
    push_decimal(&mut body, status as u64);
    push_str(&mut body, "}");
    let r = Response::new(status).with_header("Content-Type", "application/json").with_body_str(
        body.as_str(),
    );
    assert(headers_view(r.headers@) =~= seq![("Content-Type"@, "application/json"@)]);
    r
}

/// The 414 body for a path of `len` bytes.
pub open spec fn uri_too_long_body(len: nat) -> Seq<char> {
    "{\"error\":\"URI too long\",\"length\":"@ + decimal(len) + ",\"max\":"@ + decimal(
        MAX_PATH_LENGTH as nat,
    ) + "}"@
}

/// Refuses a path longer than `MAX_PATH_LENGTH` bytes with a 414 answer.
pub fn validate_path_length(path: &str) -> (r: Option<Response>)
    ensures
        encode_utf8(path@).len() <= MAX_PATH_LENGTH ==> r is None,
        encode_utf8(path@).len() > MAX_PATH_LENGTH ==> (r matches Some(x) && x.status == 414
            && headers_view(x.headers@) == seq![("Content-Type"@, "application/json"@)] && x.body@
            == encode_utf8(uri_too_long_body(encode_utf8(path@).len()))),
{
    let len = path.as_bytes().len();
    if len > MAX_PATH_LENGTH {
        let mut body = String::new();
        push_str(&mut body, "{\"error\":\"URI too long\",\"length\":");
        push_decimal(&mut body, len as u64);
        push_str(&mut body, ",\"max\":");
        push_decimal(&mut body, MAX_PATH_LENGTH as u64);
        push_str(&mut body, "}");
        let r = Response::new(414).with_header("Content-Type", "application/json").with_body_str(
            body.as_str(),
        );
        assert(headers_view(r.headers@) =~= seq![("Content-Type"@, "application/json"@)]);
        Some(r)
    } else {
        None
    }
}

/// The 413 body for a declared body size over the limit.
pub open spec fn body_too_large_body(size: nat, max: nat) -> Seq<char> {
    "{\"error\":\"Request body too large\",\"size\":"@ + decimal(size) + ",\"max\":"@ + decimal(max)
        + "}"@
}

/// The declared body size of a request: its first `Content-Length` header
/// as a number, when there is one and it parses.
pub open spec fn declared_length(req: Request) -> Option<nat> {
    match req.header_spec("content-length"@) {
        Some(v) => parse_usize_spec(v),
        None => None,
    }
}

/// Refuses a request whose declared body size exceeds `max_body` with a 413
/// answer.
pub fn validate_content_length(req: &Request, max_body: usize) -> (r: Option<Response>)
    ensures
        match declared_length(*req) {
            Some(n) => if n > max_body {
                r matches Some(x) && x.status == 413 && headers_view(x.headers@) == seq![
                    ("Content-Type"@, "application/json"@),
                ] && x.body@ == encode_utf8(body_too_large_body(n, max_body as nat))
            } else {
                r is None
            },
            None => r is None,
        },
{
    match req.content_length() {
        Some(len) => {
            if len > max_body {
                let mut body = String::new();
                push_str(&mut body, "{\"error\":\"Request body too large\",\"size\":");
                push_decimal(&mut body, len as u64);
                push_str(&mut body, ",\"max\":");
                push_decimal(&mut body, max_body as u64);
                push_str(&mut body, "}");
                let r = Response::new(413).with_header("Content-Type", "application/json").with_body_str(
                    body.as_str(),
                );
                assert(headers_view(r.headers@) =~= seq![("Content-Type"@, "application/json"@)]);
                Some(r)
            } else {
                None
            }
        },
        None => None,
    }
}

/// The 413 answer when the body read exceeds `max_body` bytes.
pub fn body_limit_response(max_body: usize) -> (r: Response)
    ensures
        r.status == 413,
        headers_view(r.headers@) == seq![("Content-Type"@, "application/json"@)],
        r.body@ == encode_utf8("{\"error\":\"Request body too large\",\"max\":"@ + decimal(max_body as nat) + "}"@),
{
    let mut body = String::new();
    push_str(&mut body, "{\"error\":\"Request body too large\",\"max\":");
    push_decimal(&mut body, max_body as u64);
    push_str(&mut body, "}");
    let r = Response::new(413).with_header("Content-Type", "application/json").with_body_str(body.as_str());
    assert(headers_view(r.headers@) =~= seq![("Content-Type"@, "application/json"@)]);
    r
}

/// The category a single error message points to, if any.
pub open spec fn message_category(msg: Seq<char>) -> Option<ErrorCategory> {
    if has_infix(msg, "timed out"@) {
        Some(ErrorCategory::Timeout)
    } else if has_infix(msg, "Module not found"@) || has_infix(msg, "Failed to load"@) {
        Some(ErrorCategory::ModuleLoad)
    } else if has_infix(msg, "Not found"@) || has_infix(msg, "Invalid"@) {
        Some(ErrorCategory::InvalidRequest)
    } else if has_infix(msg, "Failed to instantiate"@) {
        Some(ErrorCategory::Instantiation)
    } else if has_infix(msg, "Handler call failed"@) {
        Some(ErrorCategory::Execution)
    } else if has_infix(msg, "static file"@) {
        Some(ErrorCategory::StaticFile)
    } else {
        None
    }
}

/// The category of an error chain (outermost message first): that of the
/// first message that points to one, else `Internal`.
pub open spec fn chain_category(chain: Seq<Seq<char>>) -> ErrorCategory
    decreases chain.len(),
{
    if chain.len() == 0 {
        ErrorCategory::Internal
    } else {
        match message_category(chain[0]) {
            Some(c) => c,
            None => chain_category(chain.drop_first()),
        }
    }
}

fn has(msg: &Vec<char>, pat: &str) -> (b: bool)
    ensures
        b == has_infix(msg@, pat@),
{
    let p = chars_of(pat);
    contains_chars(msg.as_slice(), p.as_slice())
}

fn message_category_of(msg: &str) -> (c: Option<ErrorCategory>)
    ensures
        c == message_category(msg@),
{
    let m = chars_of(msg);
    if has(&m, "timed out") {
        Some(ErrorCategory::Timeout)
    } else if has(&m, "Module not found") || has(&m, "Failed to load") {
        Some(ErrorCategory::ModuleLoad)
    } else if has(&m, "Not found") || has(&m, "Invalid") {
        Some(ErrorCategory::InvalidRequest)
    } else if has(&m, "Failed to instantiate") {
        Some(ErrorCategory::Instantiation)
    } else if has(&m, "Handler call failed") {
        Some(ErrorCategory::Execution)
    } else if has(&m, "static file") {
        Some(ErrorCategory::StaticFile)
    } else {
        None
    }
}

/// The messages as character sequences.
pub open spec fn messages_view(chain: Seq<String>) -> Seq<Seq<char>> {
    chain.map_values(|m: String| m@)
}

/// Categorizes an error by the messages of its chain, outermost first.
pub fn categorize_error(chain: &Vec<String>) -> (c: ErrorCategory)
    ensures
        c == chain_category(messages_view(chain@)),
{
    let mut i: usize = 0;
    assert(messages_view(chain@).skip(0) =~= messages_view(chain@));
    while i < chain.len()
        invariant
            0 <= i <= chain@.len(),
            chain_category(messages_view(chain@)) == chain_category(messages_view(chain@).skip(i as int)),
        decreases chain@.len() - i,
    {
        let ghost rest = messages_view(chain@).skip(i as int);
        assert(rest[0] == chain@[i as int]@);
        assert(rest.drop_first() =~= messages_view(chain@).skip(i + 1));
        match message_category_of(chain[i].as_str()) {
            Some(c) => {
                return c;
            },
            None => {},
        }
        i = i + 1;
    }
    ErrorCategory::Internal
}

/// The logging category of a runtime error.
pub open spec fn category_of(err: Error) -> ErrorCategory {
    match err {
        Error::ModuleNotFound { .. } | Error::ModuleLoadFailed { .. } => ErrorCategory::ModuleLoad,
        Error::ExecutionTimeout { .. } => ErrorCategory::Timeout,
        Error::PathTraversal { .. } | Error::InvalidRequest(_) => ErrorCategory::InvalidRequest,
        Error::ScriptNotFound { .. } | Error::ScriptError { .. } => ErrorCategory::Script,
        Error::CircuitBreakerOpen { .. } | Error::RateLimitExceeded { .. } => ErrorCategory::Reliability,
        Error::MemoryLimitExceeded { .. } => ErrorCategory::Execution,
        _ => ErrorCategory::Internal,
    }
}

impl ErrorCategory {
    /// The category under which a runtime error is logged.
    pub fn of_error(err: &Error) -> (c: ErrorCategory)
        ensures
            c == category_of(*err),
    {
        match err {
            Error::ModuleNotFound { .. } | Error::ModuleLoadFailed { .. } => ErrorCategory::ModuleLoad,
            Error::ExecutionTimeout { .. } => ErrorCategory::Timeout,
            Error::PathTraversal { .. } | Error::InvalidRequest(_) => ErrorCategory::InvalidRequest,
            Error::ScriptNotFound { .. } | Error::ScriptError { .. } => ErrorCategory::Script,
            Error::CircuitBreakerOpen { .. } | Error::RateLimitExceeded { .. } => ErrorCategory::Reliability,
            Error::MemoryLimitExceeded { .. } => ErrorCategory::Execution,
            _ => ErrorCategory::Internal,
        }
    }
}

/// The error answer with a `Retry-After` header added.
pub open spec fn with_retry_after(base: Response, r: Response, secs: Seq<char>) -> bool {
    &&& r.status == base.status
    &&& r.body == base.body
    &&& headers_view(r.headers@) == headers_view(base.headers@).push(("Retry-After"@, secs))
}

/// The answer when a module's circuit breaker is open: the error answer
/// for `CircuitBreakerOpen`, with `Retry-After: 30`.
pub open spec fn is_circuit_open_answer(r: Response, module: Seq<char>) -> bool {
    &&& r.status == 503
    &&& exists|base: Response| #[trigger] with_retry_after(base, r, "30"@) && headers_view(
        base.headers@,
    ) == seq![("Content-Type"@, "application/json"@)] && base.body@ == encode_utf8(
        error_body(("circuit breaker open for module '"@ + module + "'"@), 503),
    )
}

/// Builds the answer for a module whose circuit breaker is open.
pub fn circuit_open_response(module: &str) -> (r: Response)
    ensures
        is_circuit_open_answer(r, module@),
{
    let err = Error::circuit_breaker_open(module);
    let base = error_response(&err);
    let ghost b = base;
    let r = base.with_header("Retry-After", CIRCUIT_BREAKER_RETRY_AFTER_SECS);
    assert(with_retry_after(b, r, "30"@));
    r
}

/// The answer when a module has no free request slot: the error answer for
/// `RateLimitExceeded` naming the module and its limit, with `Retry-After: 5`.
pub open spec fn is_overloaded_answer(r: Response, module: Seq<char>, max_per_module: nat) -> bool {
    &&& r.status == 429
    &&& exists|base: Response| #[trigger] with_retry_after(base, r, "5"@) && headers_view(
        base.headers@,
    ) == seq![("Content-Type"@, "application/json"@)] && base.body@ == encode_utf8(
        error_body(
            "rate limit exceeded: "@ + "Module '"@ + module + "' overloaded (max "@ + decimal(
                max_per_module,
            ) + " concurrent)"@,
            429,
        ),
    )
}

/// Builds the answer for a module with no free request slot.
pub fn module_overloaded_response(module: &str, max_per_module: usize) -> (r: Response)
    ensures
        is_overloaded_answer(r, module@, max_per_module as nat),
{
    let mut reason = String::new();
    push_str(&mut reason, "Module '");
    push_str(&mut reason, module);
    push_str(&mut reason, "' overloaded (max ");
    push_decimal(&mut reason, max_per_module as u64);
    push_str(&mut reason, " concurrent)");
    let err = Error::rate_limit_exceeded(reason.as_str());
    let base = error_response(&err);
    assert(error_message(err, Seq::empty()) =~= "rate limit exceeded: "@ + "Module '"@ + module@
        + "' overloaded (max "@ + decimal(max_per_module as nat) + " concurrent)"@);
    let ghost b = base;
    let r = base.with_header("Retry-After", MODULE_OVERLOAD_RETRY_AFTER_SECS);
    assert(with_retry_after(b, r, "5"@));
    r
}

/// The answer for a module that is not there: the error answer for
/// `ModuleNotFound`.
pub open spec fn is_module_not_found_answer(r: Response, module: Seq<char>) -> bool {
    &&& r.status == 404
    &&& headers_view(r.headers@) == seq![("Content-Type"@, "application/json"@)]
    &&& r.body@ == encode_utf8(error_body("module not found: "@ + module, 404))
}

/// Builds the answer for a module that is not there.
pub fn module_not_found_response(module: &str) -> (r: Response)
    ensures
        is_module_not_found_answer(r, module@),
{
    let err = Error::module_not_found(module);
    error_response(&err)
}

/// What becomes of a request for a module at one step of its admission.
pub enum Admission {
    /// The request goes on to the next step.
    Proceed,
    /// The request is answered at once with this response.
    Answer(Response),
}

/// Admission in single-component mode: only the component's own name is
/// served; any other module is not there.
pub fn single_component_admission(module: &str, component_name: &str) -> (a: Admission)
    ensures
        a is Proceed <==> module@ == component_name@,
        a matches Admission::Answer(r) ==> is_module_not_found_answer(r, module@),
{
    if str_eq(module, component_name) {
        Admission::Proceed
    } else {
        Admission::Answer(module_not_found_response(module))
    }
}

/// Admission in multi-module mode, given the answers of the module's
/// circuit breaker and of its request-slot semaphore (asked in that order):
/// an open breaker refuses first, then a full module.
pub fn multi_module_admission(
    module: &str,
    breaker_allows: bool,
    slot_acquired: bool,
    max_per_module: usize,
) -> (a: Admission)
    ensures
        a is Proceed <==> breaker_allows && slot_acquired,
        !breaker_allows ==> (a matches Admission::Answer(r) && is_circuit_open_answer(r, module@)),
        breaker_allows && !slot_acquired ==> (a matches Admission::Answer(r)
            && is_overloaded_answer(r, module@, max_per_module as nat)),
{
    if !breaker_allows {
        Admission::Answer(circuit_open_response(module))
    } else if !slot_acquired {
        Admission::Answer(module_overloaded_response(module, max_per_module))
    } else {
        Admission::Proceed
    }
}

/// Admission once loading was tried: a module that did not load is
/// answered as not there (its breaker records the failure).
pub fn load_admission(module: &str, loaded: bool) -> (a: Admission)
    ensures
        a is Proceed <==> loaded,
        a matches Admission::Answer(r) ==> is_module_not_found_answer(r, module@),
{
    if loaded {
        Admission::Proceed
    } else {
        Admission::Answer(module_not_found_response(module))
    }
}

/// Where a request goes, as the contracts see it.
pub enum RouteView {
    Health,
    Metrics,
    UriTooLong(nat),
    BodyTooLarge(nat),
    StaticFile,
    NotFound(Seq<char>),
    Schema(Seq<char>),
    Script,
    Module(Seq<char>, Seq<char>),
}

/// Where a request goes.
#[derive(Debug)]
pub enum Route {
    /// The health endpoint.
    Health,
    /// The metrics endpoint.
    Metrics,
    /// Answered at once (path too long, body too large, not found).
    Respond(Response),
    /// A file from the static directory.
    StaticFile,
    /// The OpenAPI schema of this module.
    Schema(String),
    /// A script.
    Script,
    /// A WASM module, with the handler path the module sees.
    Module { module: String, handler_path: String },
}

/// The path part of a request target: everything before the first `?`.
pub open spec fn target_path(target: Seq<char>) -> Seq<char> {
    if target.contains('?') {
        target.take(choose|i: int| 0 <= i < target.len() && target[i] == '?' && forall|j: int| 0 <= j < i ==> target[j] != '?')
    } else {
        target
    }
}

/// `s` without its trailing slashes.
pub open spec fn trim_trailing_slashes(s: Seq<char>) -> Seq<char>
    decreases s.len(),
{
    if s.len() > 0 && s.last() == '/' {
        trim_trailing_slashes(s.drop_last())
    } else {
        s
    }
}

/// The route of a request: built-in endpoints, then the limits on path
/// length and declared body size, then static files, schemas and scripts
/// (the last two only when `with_extras`), then modules under `/run/`.
pub open spec fn route_of(req: Request, max_body: usize, static_enabled: bool, with_extras: bool) -> RouteView {
    let p = target_path(req.path@);
    if p == HEALTH_PATH@ {
        RouteView::Health
    } else if p == METRICS_PATH@ {
        RouteView::Metrics
    } else if encode_utf8(p).len() > MAX_PATH_LENGTH {
        RouteView::UriTooLong(encode_utf8(p).len())
    } else if declared_length(req) matches Some(n) && n > max_body {
        RouteView::BodyTooLarge(declared_length(req)->0)
    } else if has_prefix(p, STATIC_PREFIX@) {
        if static_enabled {
            RouteView::StaticFile
        } else {
            RouteView::NotFound("Static file serving not enabled"@)
        }
    } else if with_extras && has_prefix(p, OPENAPI_PREFIX@) {
        let name = trim_trailing_slashes(p.skip(OPENAPI_PREFIX@.len() as int));
        if name.len() == 0 {
            RouteView::NotFound("No module specified. Use /openapi/<module>"@)
        } else {
            RouteView::Schema(name)
        }
    } else if with_extras && has_prefix(p, SCRIPT_PREFIX@) {
        RouteView::Script
    } else if !has_prefix(p, RUN_PREFIX@) {
        RouteView::NotFound("Not found. WASM modules are served at /run/<module>/"@)
    } else {
        let (m, h) = module_route(p.skip(RUN_PREFIX@.len() as int));
        if m.len() == 0 {
            RouteView::NotFound("No module specified. Use /run/<module>/"@)
        } else {
            RouteView::Module(m, h)
        }
    }
}

/// A route carries out a routing decision; answers built at once are
/// exactly those the limits and `not_found` give.
pub open spec fn route_matches(r: Route, v: RouteView, max_body: usize) -> bool {
    match v {
        RouteView::Health => r is Health,
        RouteView::Metrics => r is Metrics,
        RouteView::UriTooLong(len) => r matches Route::Respond(x) && x.status == 414 && headers_view(
            x.headers@,
        ) == seq![("Content-Type"@, "application/json"@)] && x.body@ == encode_utf8(
            uri_too_long_body(len),
        ),
        RouteView::BodyTooLarge(n) => r matches Route::Respond(x) && x.status == 413 && headers_view(
            x.headers@,
        ) == seq![("Content-Type"@, "application/json"@)] && x.body@ == encode_utf8(
            body_too_large_body(n, max_body as nat),
        ),
        RouteView::StaticFile => r is StaticFile,
        RouteView::NotFound(m) => r matches Route::Respond(x) && x.status == 404 && x.headers@.len()
            == 0 && x.body@ == encode_utf8(m),
        RouteView::Schema(name) => r matches Route::Schema(n) && n@ == name,
        RouteView::Script => r is Script,
        RouteView::Module(m, h) => r matches Route::Module { module, handler_path } && module@ == m
            && handler_path@ == h,
    }
}

fn request_target_path(target: &str) -> (p: String)
    ensures
        p@ == target_path(target@),
{
    let cs = chars_of(target);
    let mut i: usize = 0;
    while i < cs.len() && cs[i] != '?'
        invariant
            0 <= i <= cs@.len(),
            cs@ == target@,
            forall|j: int| 0 <= j < i ==> cs@[j] != '?',
        decreases cs@.len() - i,
    {
        i = i + 1;
    }
    if i == cs.len() {
        assert(!cs@.contains('?'));
        target.to_string()
    } else {
        assert(cs@.contains('?')) by {
            assert(cs@[i as int] == '?');
        }
        let ghost k = choose|k: int| 0 <= k < cs@.len() && cs@[k] == '?' && forall|j: int| 0 <= j < k ==> cs@[j] != '?';
        assert(k == i) by {
            if k < i {
                assert(cs@[k] != '?');
            } else if k > i {
                assert(cs@[i as int] != '?');
            }
        }
        let head = vstd::slice::slice_subrange(cs.as_slice(), 0, i);
        assert(head@ =~= cs@.take(i as int));
        string_from_chars(head)
    }
}

proof fn lemma_trim_trailing(s: Seq<char>, n: int)
    requires
        0 <= n <= s.len(),
        forall|j: int| n <= j < s.len() ==> s[j] == '/',
        n == 0 || s[n - 1] != '/',
    ensures
        trim_trailing_slashes(s) == s.take(n),
    decreases s.len(),
{
    if s.len() > n {
        assert(s.drop_last().take(n) =~= s.take(n));
        lemma_trim_trailing(s.drop_last(), n);
    } else {
        assert(s.take(n) =~= s);
        if s.len() > 0 {
            assert(s.last() != '/');
        }
    }
}

fn trim_slashes(s: &[char]) -> (r: Vec<char>)
    ensures
        r@ == trim_trailing_slashes(s@),
{
    let mut n: usize = s.len();
    while n > 0 && s[n - 1] == '/'
        invariant
            0 <= n <= s@.len(),
            forall|j: int| n <= j < s@.len() ==> s@[j] == '/',
        decreases n,
    {
        n = n - 1;
    }
    proof {
        lemma_trim_trailing(s@, n as int);
    }
    let head = vstd::slice::slice_subrange(s, 0, n);
    assert(head@ =~= s@.take(n as int));
    vstd::slice::slice_to_vec(head)
}

/// Decides where a request goes. `static_enabled` tells whether a static
/// directory is configured; `with_extras` enables the schema and script
/// routes.
pub fn route_request(req: &Request, max_body: usize, static_enabled: bool, with_extras: bool) -> (r: Route)
    ensures
        route_matches(r, route_of(*req, max_body, static_enabled, with_extras), max_body),
{
    proof {
        reveal_strlit("/health");
        reveal_strlit("/metrics");
        reveal_strlit("/static/");
        reveal_strlit("/openapi/");
        reveal_strlit("/script/");
        reveal_strlit("/run/");
    }
    let path = request_target_path(req.path.as_str());
    let p = path.as_str();
    if str_eq(p, HEALTH_PATH) {
        return Route::Health;
    }
    if str_eq(p, METRICS_PATH) {
        return Route::Metrics;
    }
    match validate_path_length(p) {
        Some(resp) => {
            return Route::Respond(resp);
        },
        None => {},
    }
    match validate_content_length(req, max_body) {
        Some(resp) => {
            return Route::Respond(resp);
        },
        None => {},
    }
    let cs = chars_of(p);
    let static_prefix = chars_of(STATIC_PREFIX);
    if starts_with_chars(cs.as_slice(), static_prefix.as_slice()) {
        if static_enabled {
            return Route::StaticFile;
        } else {
            return Route::Respond(not_found("Static file serving not enabled"));
        }
    }
    let openapi_prefix = chars_of(OPENAPI_PREFIX);
    if with_extras && starts_with_chars(cs.as_slice(), openapi_prefix.as_slice()) {
        let rest = vstd::slice::slice_subrange(cs.as_slice(), 9, cs.len());
        assert(rest@ =~= cs@.skip(9));
        let name = trim_slashes(rest);
        if name.len() == 0 {
            return Route::Respond(not_found("No module specified. Use /openapi/<module>"));
        }
        return Route::Schema(string_from_chars(name.as_slice()));
    }
    let script_prefix = chars_of(SCRIPT_PREFIX);
    if with_extras && starts_with_chars(cs.as_slice(), script_prefix.as_slice()) {
        return Route::Script;
    }
    let run_prefix = chars_of(RUN_PREFIX);
    if !starts_with_chars(cs.as_slice(), run_prefix.as_slice()) {
        return Route::Respond(not_found("Not found. WASM modules are served at /run/<module>/"));
    }
    let run_path = string_from_chars(vstd::slice::slice_subrange(cs.as_slice(), 5, cs.len()));
    assert(run_path@ =~= cs@.skip(5));
    let (module, handler_path) = parse_module_route(run_path.as_str());
    let module_chars = chars_of(module.as_str());
    if module_chars.len() == 0 {
        return Route::Respond(not_found("No module specified. Use /run/<module>/"));
    }
    Route::Module { module, handler_path }
}

/// The trace ID of a request: its `X-Trace-ID` header, else its request ID.
pub fn request_trace_id(req: &Request, request_id: &str) -> (t: String)
    ensures
        t@ == match req.header_spec("x-trace-id"@) {
            Some(v) => v,
            None => request_id@,
        },
{
    match req.header("x-trace-id") {
        Some(v) => v.to_string(),
        None => request_id.to_string(),
    }
}

/// The headers without any named `name` (compared in lowercase), then `name: value`.
pub open spec fn header_inserted(
    hs: Seq<(Seq<char>, Seq<char>)>,
    name: Seq<char>,
    value: Seq<char>,
) -> Seq<(Seq<char>, Seq<char>)> {
    hs.filter(|p: (Seq<char>, Seq<char>)| lowercase_of(p.0) != lowercase_of(name)).push((name, value))
}

/// Sets header `name` to `value`, replacing any value it had (names compared
/// ignoring case), as a header map's `insert` does.
pub fn insert_header(resp: Response, name: &str, value: &str) -> (r: Response)
    ensures
        r.status == resp.status,
        r.body == resp.body,
        headers_view(r.headers@) == header_inserted(headers_view(resp.headers@), name@, value@),
{
    let Response { status, headers, body } = resp;
    let wanted = str_to_lowercase(name);
    let mut out: Vec<(String, String)> = Vec::new();
    let mut i: usize = 0;
    while i < headers.len()
        invariant
            0 <= i <= headers@.len(),
            wanted@ == lowercase_of(name@),
            headers_view(out@) == headers_view(headers@).take(i as int).filter(
                |p: (Seq<char>, Seq<char>)| lowercase_of(p.0) != lowercase_of(name@),
            ),
        decreases headers@.len() - i,
    {
        let ghost hv = headers_view(headers@);
        assert(hv.take(i + 1).drop_last() =~= hv.take(i as int));
        assert(hv.take(i + 1).last() == (headers@[i as int].0@, headers@[i as int].1@));
        reveal(Seq::filter);
        let lower = str_to_lowercase(headers[i].0.as_str());
        if !str_eq(lower.as_str(), wanted.as_str()) {
            let ghost prev = out@;
            out.push((headers[i].0.clone(), headers[i].1.clone()));
            assert(headers_view(out@) =~= headers_view(prev).push((headers@[i as int].0@, headers@[i as int].1@)));
        }
        i = i + 1;
    }
    assert(headers_view(headers@).take(headers@.len() as int) =~= headers_view(headers@));
    let ghost kept = out@;
    out.push((name.to_string(), value.to_string()));
    assert(headers_view(out@) =~= headers_view(kept).push((name@, value@)));
    Response { status, headers: out, body }
}

/// Tags a response with the request and trace IDs (`X-Request-ID`,
/// `X-Trace-ID`), replacing earlier values.
pub fn tag_response(resp: Response, request_id: &str, trace_id: &str) -> (r: Response)
    ensures
        r.status == resp.status,
        r.body == resp.body,
        headers_view(r.headers@) == header_inserted(
            header_inserted(headers_view(resp.headers@), "X-Request-ID"@, request_id@),
            "X-Trace-ID"@,
            trace_id@,
        ),
{
    let with_id = insert_header(resp, "X-Request-ID", request_id);
    insert_header(with_id, "X-Trace-ID", trace_id)
}

} // verus!
