//! Decisions of a script run.

use crate::runtime::request_handler::{json_escaped, SCRIPT_PREFIX};
use crate::runtime::security::error::{module_error_message, ModuleNameError};
use crate::runtime::security::{module_name_spec, sanitize_module_name};
use crate::paths::{joined, path_join};
use crate::text::{chars_of, decimal, push_decimal, push_str, string_from_chars};
use std::path::PathBuf;
use vstd::prelude::*;

verus! {

broadcast use vstd::string::group_string_axioms;

/// `s` without its leading slashes.
pub open spec fn trim_leading_slashes(s: Seq<char>) -> Seq<char>
    decreases s.len(),
{
    if s.len() > 0 && s[0] == '/' {
        trim_leading_slashes(s.drop_first())
    } else {
        s
    }
}

/// The part of `s` before its first `/` (all of `s` when it has none).
pub open spec fn first_segment(s: Seq<char>) -> Seq<char>
    decreases s.len(),
{
    if s.len() == 0 || s[0] == '/' {
        Seq::empty()
    } else {
        seq![s[0]] + first_segment(s.drop_first())
    }
}

/// Why a script path names no runnable script.
#[derive(Debug, Clone, PartialEq, Eq)]
pub enum ScriptNameError {
    /// No name after `/script/`.
    Missing,
    /// The name is not a valid module name.
    Invalid(ModuleNameError),
}

/// The script a path names: after `/script/` (kept when absent) and any
/// further leading slashes, the first segment, which must be a valid name.
pub open spec fn script_name_spec(path: Seq<char>) -> Result<Seq<char>, ScriptNameError> {
    let rest = if path.len() >= SCRIPT_PREFIX@.len() && path.take(SCRIPT_PREFIX@.len() as int) == SCRIPT_PREFIX@ {
        path.skip(SCRIPT_PREFIX@.len() as int)
    } else {
        path
    };
    let name = first_segment(trim_leading_slashes(rest));
    if name.len() == 0 {
        Err(ScriptNameError::Missing)
    } else {
        match module_name_spec(name) {
            Ok(n) => Ok(n),
            Err(e) => Err(ScriptNameError::Invalid(e)),
        }
    }
}

/// The message of a script name error.
pub open spec fn script_name_message(e: ScriptNameError) -> Seq<char> {
    match e {
        ScriptNameError::Missing => "Missing script name"@,
        ScriptNameError::Invalid(m) => "Invalid script name: "@ + module_error_message(m),
    }
}

impl ScriptNameError {
    /// The error message.
    pub fn to_string(&self) -> (s: String)
        ensures
            s@ == script_name_message(*self),
    {
        match self {
            ScriptNameError::Missing => "Missing script name".to_string(),
            ScriptNameError::Invalid(m) => {
                let mut s = String::new();
                push_str(&mut s, "Invalid script name: ");
                let t = m.to_string();
                push_str(&mut s, t.as_str());
                s
            },
        }
    }
}

proof fn lemma_trim_leading(s: Seq<char>, n: int)
    requires
        0 <= n <= s.len(),
        forall|j: int| 0 <= j < n ==> s[j] == '/',
        n == s.len() || s[n] != '/',
    ensures
        trim_leading_slashes(s) == s.skip(n),
    decreases n,
{
    if n > 0 {
        lemma_trim_leading(s.drop_first(), n - 1);
        assert(s.drop_first().skip(n - 1) =~= s.skip(n));
    } else {
        assert(s.skip(0) =~= s);
    }
}

proof fn lemma_first_segment(s: Seq<char>, n: int)
    requires
        0 <= n <= s.len(),
        forall|j: int| 0 <= j < n ==> s[j] != '/',
        n == s.len() || s[n] == '/',
    ensures
        first_segment(s) == s.take(n),
    decreases n,
{
    if n > 0 {
        lemma_first_segment(s.drop_first(), n - 1);
        assert(seq![s[0]] + s.drop_first().take(n - 1) =~= s.take(n));
    } else {
        assert(s.take(0) =~= Seq::<char>::empty());
    }
}

/// The file of script `name` in `scripts_dir`: `<name>.js`.
pub fn script_file_path(scripts_dir: &PathBuf, name: &str) -> (p: PathBuf)
    ensures
        p == joined(*scripts_dir, name@ + ".js"@),
{
    let mut file = String::new();
    push_str(&mut file, name);
    push_str(&mut file, ".js");
    path_join(scripts_dir, file.as_str())
}

/// The name of the script a `/script/<name>/...` path asks for.
pub fn script_name_from_path(path: &str) -> (r: Result<String, ScriptNameError>)
    ensures
        match r {
            Ok(n) => script_name_spec(path@) == Ok::<Seq<char>, ScriptNameError>(n@),
            Err(e) => script_name_spec(path@) == Err::<Seq<char>, ScriptNameError>(e),
        },
{
    proof {
        reveal_strlit("/script/");
    }
    let cs = chars_of(path);
    let prefix = chars_of(SCRIPT_PREFIX);
    let mut i: usize = 0;
    if crate::text::starts_with_chars(cs.as_slice(), prefix.as_slice()) {
        i = 8;
    }
    let ghost rest = cs@.skip(i as int);
    proof {
        if i == 0 {
            assert(rest =~= cs@);
        }
    }
    let start = i;
    while i < cs.len() && cs[i] == '/'
        invariant
            start <= i <= cs@.len(),
            forall|j: int| start <= j < i ==> cs@[j] == '/',
        decreases cs@.len() - i,
    {
        i = i + 1;
    }
    proof {
        assert forall|j: int| 0 <= j < i - start implies rest[j] == '/' by {
            assert(rest[j] == cs@[start + j]);
        }
        if i < cs@.len() {
            assert(rest[i - start] == cs@[i as int]);
        }
        lemma_trim_leading(rest, i - start);
        assert(rest.skip(i - start) =~= cs@.skip(i as int));
    }
    let name_start = i;
    while i < cs.len() && cs[i] != '/'
        invariant
            name_start <= i <= cs@.len(),
            forall|j: int| name_start <= j < i ==> cs@[j] != '/',
        decreases cs@.len() - i,
    {
        i = i + 1;
    }
    let ghost after = cs@.skip(name_start as int);
    proof {
        assert forall|j: int| 0 <= j < i - name_start implies after[j] != '/' by {
            assert(after[j] == cs@[name_start + j]);
        }
        if i < cs@.len() {
            assert(after[i - name_start] == cs@[i as int]);
        }
        lemma_first_segment(after, i - name_start);
    }
    if i == name_start {
        return Err(ScriptNameError::Missing);
    }
    let name = string_from_chars(vstd::slice::slice_subrange(cs.as_slice(), name_start, i));
    assert(name@ =~= after.take(i - name_start));
    match sanitize_module_name(name.as_str()) {
        Ok(n) => Ok(n),
        Err(e) => Err(ScriptNameError::Invalid(e)),
    }
}

/// The message for a body of `size` bytes over the limit `max`.
pub open spec fn body_too_large_message(size: nat, max: nat) -> Seq<char> {
    "Request body too large: "@ + decimal(size) + " bytes (max: "@ + decimal(max) + " bytes)"@
}

/// Refuses a body of `size` bytes (declared or read) above `max_body`.
pub fn check_script_body_size(size: usize, max_body: usize) -> (r: Result<(), String>)
    ensures
        size <= max_body ==> r is Ok,
        size > max_body ==> (r matches Err(m) && m@ == body_too_large_message(size as nat, max_body as nat)),
{
    if size > max_body {
        let mut m = String::new();
        push_str(&mut m, "Request body too large: ");
        push_decimal(&mut m, size as u64);
        push_str(&mut m, " bytes (max: ");
        push_decimal(&mut m, max_body as u64);
        push_str(&mut m, " bytes)");
        Err(m)
    } else {
        Ok(())
    }
}

/// Why a handler call from a script could not run.
#[derive(Debug, Clone, Copy, PartialEq, Eq, Structural)]
pub enum HostCallFailure {
    /// The module's circuit breaker is open.
    CircuitOpen,
    /// The module has no free request slot.
    RateLimited,
    /// The module could not be loaded.
    ModuleNotFound,
    /// The handler failed.
    HandlerError,
}

/// The status and code reported to the script for a failed call.
pub open spec fn failure_status(f: HostCallFailure) -> u16 {
    match f {
        HostCallFailure::CircuitOpen => 503,
        HostCallFailure::RateLimited => 429,
        HostCallFailure::ModuleNotFound => 404,
        HostCallFailure::HandlerError => 500,
    }
}

/// The error code reported to the script for a failed call.
pub open spec fn failure_code(f: HostCallFailure) -> Seq<char> {
    match f {
        HostCallFailure::CircuitOpen => "CIRCUIT_OPEN"@,
        HostCallFailure::RateLimited => "RATE_LIMITED"@,
        HostCallFailure::ModuleNotFound => "MODULE_NOT_FOUND"@,
        HostCallFailure::HandlerError => "HANDLER_ERROR"@,
    }
}

impl HostCallFailure {
    /// The HTTP status reported for the failure.
    pub fn status(&self) -> (s: u16)
        ensures
            s == failure_status(*self),
    {
        match self {
            HostCallFailure::CircuitOpen => 503,
            HostCallFailure::RateLimited => 429,
            HostCallFailure::ModuleNotFound => 404,
            HostCallFailure::HandlerError => 500,
        }
    }

    /// The error code reported for the failure.
    pub fn code(&self) -> (c: &'static str)
        ensures
            c@ == failure_code(*self),
    {
        match self {
            HostCallFailure::CircuitOpen => "CIRCUIT_OPEN",
            HostCallFailure::RateLimited => "RATE_LIMITED",
            HostCallFailure::ModuleNotFound => "MODULE_NOT_FOUND",
            HostCallFailure::HandlerError => "HANDLER_ERROR",
        }
    }
}

/// The JSON body of a failed call: `{"error":<code>,"message":<message>}`.
pub open spec fn failure_body(f: HostCallFailure, message: Seq<char>) -> Seq<char> {
    "{\"error\":\""@ + failure_code(f) + "\",\"message\":\""@ + json_escaped(message) + "\"}"@
}

/// The JSON text of the body reported to the script for a failed call; a
/// rate-limited call says `Module overloaded`.
pub fn failure_body_json(f: HostCallFailure, message: &str) -> (s: String)
    ensures
        f == HostCallFailure::RateLimited ==> s@ == failure_body(f, "Module overloaded"@),
        f != HostCallFailure::RateLimited ==> s@ == failure_body(f, message@),
{
    let mut s = String::new();
    push_str(&mut s, "{\"error\":\"");
    push_str(&mut s, f.code());
    push_str(&mut s, "\",\"message\":\"");
    if f == HostCallFailure::RateLimited {
        crate::runtime::request_handler::push_json_text(&mut s, "Module overloaded");
    } else {
        crate::runtime::request_handler::push_json_text(&mut s, message);
    }
    push_str(&mut s, "\"}");
    s
}

/// The outcome of one handler call as the script run records it.
#[derive(Debug, Clone, PartialEq, Eq)]
pub enum CallOutcome {
    /// The handler answered with this status.
    Answered(u16),
    /// The call failed with this message.
    Failed(String),
}

/// How the JavaScript side of a run ended.
#[derive(Debug, Clone, PartialEq, Eq)]
pub enum ScriptEnd {
    /// The script returned a value.
    Returned,
    /// The script threw this error.
    Threw(String),
    /// The script's thread panicked with this message.
    Panicked(String),
}

/// The bookkeeping of a script run: calls made and the last call error.
#[derive(Debug, Clone)]
pub struct ScriptCalls {
    calls_executed: usize,
    last_error: Option<String>,
}

/// The error text of a handler call for its timing span: `HTTP <status>`
/// for an answer of 400 or more, the message of a failure, none otherwise.
pub open spec fn span_error(o: CallOutcome) -> Option<Seq<char>> {
    match o {
        CallOutcome::Answered(status) => if status >= 400 {
            Some("HTTP "@ + decimal(status as nat))
        } else {
            None
        },
        CallOutcome::Failed(m) => Some(m@),
    }
}

/// The result of a run: the number of calls when the script returned and
/// no call failed; otherwise the error that ends it.
pub open spec fn run_result(calls: usize, last_error: Option<Seq<char>>, end: ScriptEnd) -> Result<usize, Seq<char>> {
    match end {
        ScriptEnd::Returned => match last_error {
            Some(e) => Err("Handler error: "@ + e),
            None => Ok(calls),
        },
        ScriptEnd::Threw(e) => Err("Script error: "@ + e@),
        ScriptEnd::Panicked(e) => Err("Script panicked: "@ + e@),
    }
}

impl ScriptCalls {
    /// The number of calls made.
    pub closed spec fn calls_spec(&self) -> usize {
        self.calls_executed
    }

    /// The message of the last failed call, if any.
    pub closed spec fn last_error_spec(&self) -> Option<Seq<char>> {
        match self.last_error {
            Some(e) => Some(e@),
            None => None,
        }
    }

    /// A run with no calls yet.
    pub fn new() -> (s: Self)
        ensures
            s.calls_spec() == 0,
            s.last_error_spec() is None,
    {
        ScriptCalls { calls_executed: 0, last_error: None }
    }

    /// Records a handler call: one more call, and a failure becomes the last
    /// error. Returns the error text for the call's timing span.
    pub fn record_call(&mut self, outcome: &CallOutcome) -> (span: Option<String>)
        ensures
            final(self).calls_spec() == (if old(self).calls_spec() == usize::MAX { 0 } else { (old(self).calls_spec() + 1) as usize }),
            final(self).last_error_spec() == match *outcome {
                CallOutcome::Failed(m) => Some(m@),
                CallOutcome::Answered(_) => old(self).last_error_spec(),
            },
            match span {
                Some(t) => span_error(*outcome) == Some(t@),
                None => span_error(*outcome) is None,
            },
    {
        self.calls_executed = if self.calls_executed == usize::MAX { 0 } else { self.calls_executed + 1 };
        match outcome {
            CallOutcome::Answered(status) => {
                if *status >= 400 {
                    let mut t = String::new();
                    push_str(&mut t, "HTTP ");
                    push_decimal(&mut t, *status as u64);
                    Some(t)
                } else {
                    None
                }
            },
            CallOutcome::Failed(m) => {
                self.last_error = Some(m.as_str().to_string());
                Some(m.as_str().to_string())
            },
        }
    }

    /// How the run ends once the script has: the number of calls, or the
    /// error message.
    pub fn finish(&self, end: &ScriptEnd) -> (r: Result<usize, String>)
        ensures
            match r {
                Ok(n) => run_result(self.calls_spec(), self.last_error_spec(), *end) == Ok::<usize, Seq<char>>(n),
                Err(m) => run_result(self.calls_spec(), self.last_error_spec(), *end) == Err::<usize, Seq<char>>(m@),
            },
    {
        let mut m = String::new();
        match end {
            ScriptEnd::Returned => match &self.last_error {
                Some(e) => {
                    push_str(&mut m, "Handler error: ");
                    push_str(&mut m, e.as_str());
                    Err(m)
                },
                None => Ok(self.calls_executed),
            },
            ScriptEnd::Threw(e) => {
                push_str(&mut m, "Script error: ");
                push_str(&mut m, e.as_str());
                Err(m)
            },
            ScriptEnd::Panicked(e) => {
                push_str(&mut m, "Script panicked: ");
                push_str(&mut m, e.as_str());
                Err(m)
            },
        }
    }
}

/// The headers of a handler request made by a script: `host: localhost`,
/// the trace ID, the script's headers, then a JSON content type when there
/// is a body.
pub open spec fn call_headers(
    trace_id: Seq<char>,
    headers: Seq<(Seq<char>, Seq<char>)>,
    has_body: bool,
) -> Seq<(Seq<char>, Seq<char>)> {
    let base = seq![("host"@, "localhost"@), ("x-trace-id"@, trace_id)] + headers;
    if has_body {
        base.push(("content-type"@, "application/json"@))
    } else {
        base
    }
}

/// Builds the URI and headers of a handler request made by a script.
pub fn handler_call_request(path: &str, trace_id: &str, headers: &Vec<(String, String)>, has_body: bool) -> (r: (
    String,
    Vec<(String, String)>,
))
    ensures
        r.0@ == "http://localhost"@ + path@,
        crate::runtime::request::headers_view(r.1@) == call_headers(
            trace_id@,
            crate::runtime::request::headers_view(headers@),
            has_body,
        ),
{
    let mut uri = String::new();
    push_str(&mut uri, "http://localhost");
    push_str(&mut uri, path);
    let mut out: Vec<(String, String)> = Vec::new();
    out.push(("host".to_string(), "localhost".to_string()));
    out.push(("x-trace-id".to_string(), trace_id.to_string()));
    let ghost base = out@;
    let mut i: usize = 0;
    while i < headers.len()
        invariant
            0 <= i <= headers@.len(),
            crate::runtime::request::headers_view(out@) == crate::runtime::request::headers_view(base)
                + crate::runtime::request::headers_view(headers@).take(i as int),
        decreases headers@.len() - i,
    {
        let ghost prev = out@;
        out.push((headers[i].0.as_str().to_string(), headers[i].1.as_str().to_string()));
        assert(crate::runtime::request::headers_view(out@) =~= crate::runtime::request::headers_view(prev).push(
            (headers@[i as int].0@, headers@[i as int].1@),
        ));
        assert(crate::runtime::request::headers_view(headers@).take(i + 1) =~= crate::runtime::request::headers_view(headers@).take(i as int).push(
            (headers@[i as int].0@, headers@[i as int].1@),
        ));
        i = i + 1;
        assert(crate::runtime::request::headers_view(out@) =~= crate::runtime::request::headers_view(base)
            + crate::runtime::request::headers_view(headers@).take(i as int));
    }
    assert(crate::runtime::request::headers_view(headers@).take(headers@.len() as int)
        =~= crate::runtime::request::headers_view(headers@));
    if has_body {
        out.push(("content-type".to_string(), "application/json".to_string()));
    }
    assert(crate::runtime::request::headers_view(base) =~= seq![("host"@, "localhost"@), ("x-trace-id"@, trace_id@)]);
    (uri, out)
}

} // verus!
