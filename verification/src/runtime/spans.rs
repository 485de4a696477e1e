//! Timing spans for request tracing.
//!
//! A span measures an operation (a request, a script, a handler call) and
//! may name a parent span, which gives the tree
//!
//! ```text
//! request (root)
//! └── script.checkout
//!     ├── handler.auth
//!     └── handler.orders
//! ```

use crate::text::{
    chars_of, has_prefix, hex_encode, hex_string, lemma_hex_encode_injective, lemma_hex_encode_len,
    starts_with_chars,
};
use crate::time::{elapsed_millis, instant_now};
use std::time::Instant;
use vstd::prelude::*;

verus! {

broadcast use vstd::string::group_string_axioms;

/// Status of a completed span.
#[derive(Debug, Clone, Copy, PartialEq, Eq, Structural)]
pub enum SpanStatus {
    /// Operation completed successfully (serialized as `ok`)
    Success,
    /// Operation failed with an error
    Error,
    /// Operation timed out
    Timeout,
}

impl SpanStatus {
    /// The lowercase name of the status.
    pub open spec fn name(self) -> Seq<char> {
        match self {
            SpanStatus::Success => "ok"@,
            SpanStatus::Error => "error"@,
            SpanStatus::Timeout => "timeout"@,
        }
    }

    /// The lowercase name: `ok`, `error` or `timeout`.
    pub fn to_string(&self) -> (s: String)
        ensures
            s@ == self.name(),
    {
        match self {
            SpanStatus::Success => "ok".to_string(),
            SpanStatus::Error => "error".to_string(),
            SpanStatus::Timeout => "timeout".to_string(),
        }
    }
}

/// A timing span that tracks the duration of an operation.
#[derive(Debug, Clone)]
pub struct Span {
    /// Unique identifier for this span
    pub span_id: String,
    /// Parent span ID (None for root spans)
    pub parent_id: Option<String>,
    /// Name of the span (e.g., "request", "script.checkout", "handler.auth")
    pub name: String,
    /// Duration in milliseconds (set when span completes)
    pub duration_ms: u64,
    /// Status of the operation
    pub status: SpanStatus,
    /// Optional error message
    pub error: Option<String>,
}

/// The view of an optional string.
pub open spec fn opt_view(s: Option<String>) -> Option<Seq<char>> {
    match s {
        Some(x) => Some(x@),
        None => None,
    }
}

/// The eight big-endian bytes of `n`.
pub open spec fn be_bytes(n: u64) -> Seq<u8> {
    seq![
        (n >> 56u64) as u8,
        (n >> 48u64) as u8,
        (n >> 40u64) as u8,
        (n >> 32u64) as u8,
        (n >> 24u64) as u8,
        (n >> 16u64) as u8,
        (n >> 8u64) as u8,
        n as u8,
    ]
}

/// The span id numbered `n`: `n` as 16 lowercase hex digits, zero-padded.
pub open spec fn span_id_text(n: u64) -> Seq<char> {
    hex_encode(be_bytes(n))
}

/// The number that follows `n` in a 64-bit counter that wraps around.
pub open spec fn next_number(n: u64) -> u64 {
    if n == u64::MAX {
        0
    } else {
        (n + 1) as u64
    }
}

/// The counter's value after `k` steps from `n`.
pub open spec fn advanced(n: u64, k: nat) -> u64
    decreases k,
{
    if k == 0 {
        n
    } else {
        next_number(advanced(n, (k - 1) as nat))
    }
}

/// The source of span ids: a counter from which each id takes the next
/// number, so that no id repeats until the counter has gone all the way
/// round. A process keeps one and starts every span from it.
#[derive(Debug)]
pub struct SpanIds {
    next: u64,
}

impl Default for SpanIds {
    fn default() -> (g: Self)
        ensures
            g.counter() == 1,
    {
        SpanIds { next: 1 }
    }
}

impl SpanIds {
    /// The number that the next id takes.
    pub closed spec fn counter(&self) -> u64 {
        self.next
    }

    /// A fresh source whose first id is number 1 (`0000000000000001`).
    pub fn new() -> (g: Self)
        ensures
            g.counter() == 1,
    {
        Self::default()
    }

    /// Takes the next id: the counter's number as 16 lowercase hex digits;
    /// the counter moves on by one.
    pub fn next_id(&mut self) -> (id: String)
        ensures
            id@ == span_id_text(old(self).counter()),
            final(self).counter() == next_number(old(self).counter()),
    {
        let n = self.next;
        let bytes: [u8; 8] = [
            (n >> 56u64) as u8,
            (n >> 48u64) as u8,
            (n >> 40u64) as u8,
            (n >> 32u64) as u8,
            (n >> 24u64) as u8,
            (n >> 16u64) as u8,
            (n >> 8u64) as u8,
            n as u8,
        ];
        assert(bytes@ =~= be_bytes(n));
        self.next = n.wrapping_add(1);
        hex_string(&bytes)
    }
}

/// Different numbers give different span ids.
pub proof fn lemma_span_ids_distinct(a: u64, b: u64)
    requires
        a != b,
    ensures
        span_id_text(a) != span_id_text(b),
{
    if span_id_text(a) == span_id_text(b) {
        lemma_hex_encode_injective(be_bytes(a), be_bytes(b));
        let (x, y) = (be_bytes(a), be_bytes(b));
        assert(x[0] == y[0] && x[1] == y[1] && x[2] == y[2] && x[3] == y[3]);
        assert(x[4] == y[4] && x[5] == y[5] && x[6] == y[6] && x[7] == y[7]);
        assert(((a >> 56u64) as u8 == (b >> 56u64) as u8 && (a >> 48u64) as u8 == (b >> 48u64) as u8
            && (a >> 40u64) as u8 == (b >> 40u64) as u8 && (a >> 32u64) as u8 == (b >> 32u64) as u8
            && (a >> 24u64) as u8 == (b >> 24u64) as u8 && (a >> 16u64) as u8 == (b >> 16u64) as u8
            && (a >> 8u64) as u8 == (b >> 8u64) as u8 && a as u8 == b as u8) ==> a == b)
            by (bit_vector);
    }
}

proof fn lemma_advanced_value(n: u64, k: nat)
    ensures
        advanced(n, k) as int == (n + k) % 0x1_0000_0000_0000_0000,
    decreases k,
{
    if k > 0 {
        lemma_advanced_value(n, (k - 1) as nat);
    }
}

/// Span ids never repeat: the ids that one source hands out on its `i`-th
/// and `j`-th calls (counted from any state) differ, for any two calls fewer
/// than 2^64 apart.
pub proof fn lemma_issued_ids_unique(start: u64, i: nat, j: nat)
    requires
        i < j,
        j - i < 0x1_0000_0000_0000_0000,
    ensures
        span_id_text(advanced(start, i)) != span_id_text(advanced(start, j)),
{
    lemma_advanced_value(start, i);
    lemma_advanced_value(start, j);
    assert(advanced(start, i) != advanced(start, j));
    lemma_span_ids_distinct(advanced(start, i), advanced(start, j));
}

/// Every span id is 16 characters long.
pub proof fn lemma_span_id_len(n: u64)
    ensures
        span_id_text(n).len() == 16,
{
    lemma_hex_encode_len(be_bytes(n));
}

/// Builder for creating and completing spans: `new` or `with_parent` start
/// timing, a `finish` method completes the span.
#[derive(Debug, Clone)]
pub struct SpanBuilder {
    span_id: String,
    parent_id: Option<String>,
    name: String,
    start: Instant,
}

impl SpanBuilder {
    /// The span's identifier.
    pub closed spec fn id_spec(&self) -> Seq<char> {
        self.span_id@
    }

    /// The parent's identifier, if any.
    pub closed spec fn parent_spec(&self) -> Option<Seq<char>> {
        opt_view(self.parent_id)
    }

    /// The span's name.
    pub closed spec fn name_spec(&self) -> Seq<char> {
        self.name@
    }

    /// Starts a root span whose id is the next one from `ids`.
    pub fn new(name: &str, ids: &mut SpanIds) -> (b: Self)
        ensures
            b.name_spec() == name@,
            b.parent_spec() is None,
            b.id_spec() == span_id_text(old(ids).counter()),
            final(ids).counter() == next_number(old(ids).counter()),
    {
        SpanBuilder {
            span_id: ids.next_id(),
            parent_id: None,
            name: name.to_string(),
            start: instant_now(),
        }
    }

    /// Starts a child span of the span `parent_id`, whose id is the next one
    /// from `ids`.
    pub fn with_parent(name: &str, parent_id: &str, ids: &mut SpanIds) -> (b: Self)
        ensures
            b.name_spec() == name@,
            b.parent_spec() == Some(parent_id@),
            b.id_spec() == span_id_text(old(ids).counter()),
            final(ids).counter() == next_number(old(ids).counter()),
    {
        SpanBuilder {
            span_id: ids.next_id(),
            parent_id: Some(parent_id.to_string()),
            name: name.to_string(),
            start: instant_now(),
        }
    }

    /// The span ID (for creating child spans).
    pub fn span_id(&self) -> (id: &str)
        ensures
            id@ == self.id_spec(),
    {
        self.span_id.as_str()
    }

    /// Completes the span after `duration_ms` milliseconds with the given
    /// status and error message.
    pub fn complete_after(self, duration_ms: u64, status: SpanStatus, error: Option<String>) -> (s: Span)
        ensures
            s.span_id@ == self.id_spec(),
            opt_view(s.parent_id) == self.parent_spec(),
            s.name@ == self.name_spec(),
            s.duration_ms == duration_ms,
            s.status == status,
            opt_view(s.error) == opt_view(error),
    {
        Span {
            span_id: self.span_id,
            parent_id: self.parent_id,
            name: self.name,
            duration_ms,
            status,
            error,
        }
    }

    /// Completes the span now: its duration is the time elapsed since it
    /// started, by the clock.
    fn complete(self, status: SpanStatus, error: Option<String>) -> (s: Span)
        ensures
            s.span_id@ == self.id_spec(),
            opt_view(s.parent_id) == self.parent_spec(),
            s.name@ == self.name_spec(),
            s.status == status,
            opt_view(s.error) == opt_view(error),
    {
        let duration_ms = elapsed_millis(&self.start);
        self.complete_after(duration_ms, status, error)
    }

    /// Completes the span with success status and no error.
    pub fn finish(self) -> (s: Span)
        ensures
            s.span_id@ == self.id_spec(),
            opt_view(s.parent_id) == self.parent_spec(),
            s.name@ == self.name_spec(),
            s.status == SpanStatus::Success,
            s.error is None,
    {
        self.complete(SpanStatus::Success, None)
    }

    /// Completes the span with error status and the given message.
    pub fn finish_with_error(self, error: &str) -> (s: Span)
        ensures
            s.span_id@ == self.id_spec(),
            opt_view(s.parent_id) == self.parent_spec(),
            s.name@ == self.name_spec(),
            s.status == SpanStatus::Error,
            opt_view(s.error) == Some(error@),
    {
        self.complete(SpanStatus::Error, Some(error.to_string()))
    }

    /// Completes the span with timeout status and the message
    /// `Operation timed out`.
    pub fn finish_timeout(self) -> (s: Span)
        ensures
            s.span_id@ == self.id_spec(),
            opt_view(s.parent_id) == self.parent_spec(),
            s.name@ == self.name_spec(),
            s.status == SpanStatus::Timeout,
            opt_view(s.error) == Some("Operation timed out"@),
    {
        self.complete(SpanStatus::Timeout, Some("Operation timed out".to_string()))
    }

    /// Milliseconds elapsed so far, by the clock (the span stays open).
    pub fn elapsed_ms(&self) -> u64 {
        elapsed_millis(&self.start)
    }
}

/// Collector for gathering the completed spans of a request, in the order
/// they are added. There is one list per request: the request's handlers
/// lend the collector down the call chain (`&mut`), so every span added on
/// the way is in what `collect` returns. The collector is not `Clone`, so no
/// copy can hold spans apart from it.
#[derive(Debug)]
pub struct SpanCollector {
    spans: Vec<Span>,
}

impl Default for SpanCollector {
    fn default() -> (c: Self)
        ensures
            c.spans_spec().len() == 0,
    {
        SpanCollector { spans: Vec::new() }
    }
}

impl SpanCollector {
    /// The spans collected so far, in order.
    pub closed spec fn spans_spec(&self) -> Seq<Span> {
        self.spans@
    }

    /// Creates an empty collector.
    pub fn new() -> (c: Self)
        ensures
            c.spans_spec().len() == 0,
    {
        Self::default()
    }

    /// Adds a completed span after those already collected.
    pub fn add(&mut self, span: Span)
        ensures
            final(self).spans_spec() == old(self).spans_spec().push(span),
    {
        self.spans.push(span);
    }

    /// All collected spans, in the order they were added.
    pub fn collect(self) -> (v: Vec<Span>)
        ensures
            v@ == self.spans_spec(),
    {
        self.spans
    }

    /// The number of spans collected.
    pub fn len(&self) -> (n: usize)
        ensures
            n == self.spans_spec().len(),
    {
        self.spans.len()
    }

    /// Whether no spans have been collected.
    pub fn is_empty(&self) -> (b: bool)
        ensures
            b == (self.spans_spec().len() == 0),
    {
        self.spans.len() == 0
    }
}

/// Whether a span is a handler call: its name starts with `handler.`.
pub open spec fn is_handler_call(s: Span) -> bool {
    has_prefix(s.name@, "handler."@)
}

/// The number of handler calls among `spans`.
pub open spec fn handler_call_count(spans: Seq<Span>) -> nat
    decreases spans.len(),
{
    if spans.len() == 0 {
        0
    } else {
        handler_call_count(spans.drop_last()) + if is_handler_call(spans.last()) { 1nat } else { 0nat }
    }
}

/// Summary of all spans for a request.
#[derive(Debug)]
pub struct SpanSummary {
    /// Trace ID for correlating all spans in this request
    pub trace_id: String,
    /// Total request duration in milliseconds
    pub total_ms: u64,
    /// Number of handler calls made
    pub handler_calls: usize,
    /// Individual spans (ordered by completion time)
    pub spans: Vec<Span>,
}

impl SpanSummary {
    /// Summarizes a request's spans: the handler calls are the spans whose
    /// name starts with `handler.`.
    pub fn new(trace_id: &str, total_ms: u64, spans: Vec<Span>) -> (s: Self)
        ensures
            s.trace_id@ == trace_id@,
            s.total_ms == total_ms,
            s.handler_calls == handler_call_count(spans@),
            s.spans@ == spans@,
    {
        let prefix = chars_of("handler.");
        let mut count: usize = 0;
        let mut i: usize = 0;
        while i < spans.len()
            invariant
                0 <= i <= spans@.len(),
                prefix@ == "handler."@,
                count == handler_call_count(spans@.take(i as int)),
                count <= i,
            decreases spans@.len() - i,
        {
            assert(spans@.take(i + 1).drop_last() =~= spans@.take(i as int));
            let name = chars_of(spans[i].name.as_str());
            if starts_with_chars(name.as_slice(), prefix.as_slice()) {
                count = count + 1;
            }
            i = i + 1;
        }
        assert(spans@.take(spans@.len() as int) =~= spans@);
        SpanSummary { trace_id: trace_id.to_string(), total_ms, handler_calls: count, spans }
    }
}

} // verus!
