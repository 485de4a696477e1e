//! W3C Trace Context support (<https://www.w3.org/TR/trace-context/>).
//!
//! A `traceparent` header reads `{version}-{trace-id}-{parent-id}-{trace-flags}`,
//! for example `00-4bf92f3577b34da6a3ce929d0e0e4736-00f067aa0ba902b7-01`:
//! version `00`, a 32-hex-digit trace id, a 16-hex-digit parent id and two hex
//! digits of flags, whose lowest bit marks the trace as sampled.

use crate::text::{
    all_hex, ascii_lower, ascii_lowercase, chars_of, hex_encode, hex_string, is_hex_char,
    is_hex_digit, lemma_split_on_append, lemma_split_on_single, push_char, push_str, split_chars,
    split_on, str_eq, string_from_chars, to_ascii_lower,
};
use crate::runtime::request::{find_header, headers_view, lookup_header};
use vstd::prelude::*;

verus! {

broadcast use vstd::string::group_string_axioms;

/// A parsed W3C Trace Context.
#[derive(Debug, Clone, PartialEq, Eq)]
pub struct TraceContext {
    /// The trace ID (128-bit, 32 hex chars).
    pub trace_id: String,
    /// The parent span ID (64-bit, 16 hex chars).
    pub parent_id: String,
    /// Whether this trace is sampled.
    pub sampled: bool,
}

/// Whether every character is `0`.
pub open spec fn all_zero(s: Seq<char>) -> bool {
    forall|i: int| 0 <= i < s.len() ==> s[i] == '0'
}

/// A field of `n` hex digits that are not all zero.
pub open spec fn valid_id(s: Seq<char>, n: nat) -> bool {
    s.len() == n && all_hex(s) && !all_zero(s)
}

/// Lowercase hexadecimal digits only.
pub open spec fn is_lower_hex(s: Seq<char>) -> bool {
    forall|i: int| 0 <= i < s.len() ==> (('0' <= #[trigger] s[i] && s[i] <= '9') || ('a' <= s[i] && s[i] <= 'f'))
}

/// A well-formed identifier as this module produces it: `n` lowercase hex
/// digits, not all zero.
pub open spec fn canonical_id(s: Seq<char>, n: nat) -> bool {
    s.len() == n && is_lower_hex(s) && !all_zero(s)
}

/// The numeric value of a hex digit.
pub open spec fn hex_value(c: char) -> int {
    if '0' <= c && c <= '9' {
        (c as u32) - ('0' as u32)
    } else if 'a' <= c && c <= 'f' {
        (c as u32) - ('a' as u32) + 10
    } else {
        (c as u32) - ('A' as u32) + 10
    }
}

/// What a `traceparent` header parses to: the lowercased trace id and parent
/// id, and whether the sampled flag bit is set; `None` when the header is not
/// four `-`-separated fields with version `00`, ids of 32 and 16 hex digits
/// that are not all zero, and two hex digits of flags.
pub open spec fn parse_spec(s: Seq<char>) -> Option<(Seq<char>, Seq<char>, bool)> {
    let parts = split_on(s, '-');
    if parts.len() == 4 && parts[0] == seq!['0', '0'] && valid_id(parts[1], 32) && valid_id(
        parts[2],
        16,
    ) && parts[3].len() == 2 && all_hex(parts[3]) {
        Some(
            (
                ascii_lowercase(parts[1]),
                ascii_lowercase(parts[2]),
                hex_value(parts[3][1]) % 2 == 1,
            ),
        )
    } else {
        None
    }
}

/// The flags field for a sampling decision.
pub open spec fn flags_field(sampled: bool) -> Seq<char> {
    if sampled {
        seq!['0', '1']
    } else {
        seq!['0', '0']
    }
}

/// The `traceparent` header value for a trace id, a parent id and a sampling decision.
pub open spec fn traceparent_of(trace_id: Seq<char>, parent_id: Seq<char>, sampled: bool) -> Seq<
    char,
> {
    seq!['0', '0'] + seq!['-'] + trace_id + seq!['-'] + parent_id + seq!['-'] + flags_field(sampled)
}

fn is_valid_id_chars(s: &Vec<char>, n: usize) -> (b: bool)
    ensures
        b == valid_id(s@, n as nat),
{
    if s.len() != n {
        return false;
    }
    let mut i: usize = 0;
    let mut nonzero = false;
    while i < s.len()
        invariant
            0 <= i <= s@.len(),
            forall|k: int| 0 <= k < i ==> is_hex_char(#[trigger] s@[k]),
            nonzero == exists|k: int| 0 <= k < i && #[trigger] s@[k] != '0',
        decreases s@.len() - i,
    {
        if !is_hex_digit(s[i]) {
            return false;
        }
        if s[i] != '0' {
            nonzero = true;
        }
        i = i + 1;
    }
    nonzero
}

fn is_all_hex_chars(s: &Vec<char>) -> (b: bool)
    ensures
        b == all_hex(s@),
{
    let mut i: usize = 0;
    while i < s.len()
        invariant
            0 <= i <= s@.len(),
            forall|k: int| 0 <= k < i ==> is_hex_char(#[trigger] s@[k]),
        decreases s@.len() - i,
    {
        if !is_hex_digit(s[i]) {
            return false;
        }
        i = i + 1;
    }
    true
}

fn lowercase_string(s: &Vec<char>) -> (r: String)
    ensures
        r@ == ascii_lowercase(s@),
{
    let mut r = String::new();
    let mut i: usize = 0;
    while i < s.len()
        invariant
            0 <= i <= s@.len(),
            r@ == ascii_lowercase(s@.subrange(0, i as int)),
        decreases s@.len() - i,
    {
        push_char(&mut r, to_ascii_lower(s[i]));
        i = i + 1;
        assert(r@ =~= ascii_lowercase(s@.subrange(0, i as int)));
    }
    assert(s@.subrange(0, s@.len() as int) =~= s@);
    r
}

/// Whether a string contains only hex digits (either case).
pub fn is_valid_hex(s: &str) -> (b: bool)
    ensures
        b == all_hex(s@),
{
    let cs = chars_of(s);
    is_all_hex_chars(&cs)
}

/// Whether a string consists of `0` characters only.
pub fn is_all_zeros(s: &str) -> (b: bool)
    ensures
        b == all_zero(s@),
{
    let cs = chars_of(s);
    let mut i: usize = 0;
    while i < cs.len()
        invariant
            0 <= i <= cs@.len(),
            cs@ == s@,
            forall|k: int| 0 <= k < i ==> cs@[k] == '0',
        decreases cs@.len() - i,
    {
        if cs[i] != '0' {
            return false;
        }
        i = i + 1;
    }
    true
}

/// Sixteen fresh random bytes of a version-4 UUID (`uuid::Uuid::new_v4`).
/// The result is random; the crate sets the version nibble of byte 6 to 4.
#[verifier::external_body]
fn random_uuid_bytes() -> (b: [u8; 16])
    ensures
        0x40 <= b@[6] && b@[6] < 0x50,
{
    uuid::Uuid::new_v4().into_bytes()
}

proof fn lemma_hex_encode_lower(bytes: Seq<u8>)
    ensures
        is_lower_hex(hex_encode(bytes)),
        hex_encode(bytes).len() == 2 * bytes.len(),
    decreases bytes.len(),
{
    if bytes.len() > 0 {
        lemma_hex_encode_lower(bytes.drop_last());
        let prev = hex_encode(bytes.drop_last());
        let b = bytes.last();
        assert forall|i: int| 0 <= i < hex_encode(bytes).len() implies (('0' <= #[trigger] hex_encode(
            bytes,
        )[i] && hex_encode(bytes)[i] <= '9') || ('a' <= hex_encode(bytes)[i] && hex_encode(bytes)[i]
            <= 'f')) by {
            if i >= prev.len() {
                assert(hex_encode(bytes)[i] == crate::text::hex_byte(b)[i - prev.len()]);
            } else {
                assert(hex_encode(bytes)[i] == prev[i]);
            }
        }
    }
}

proof fn lemma_hex_encode_index(bytes: Seq<u8>, k: int)
    requires
        0 <= k < bytes.len(),
    ensures
        hex_encode(bytes).len() == 2 * bytes.len(),
        hex_encode(bytes)[2 * k] == crate::text::hex_digit((bytes[k] / 16) as nat),
    decreases bytes.len(),
{
    lemma_hex_encode_lower(bytes);
    if k < bytes.len() - 1 {
        lemma_hex_encode_index(bytes.drop_last(), k);
        lemma_hex_encode_lower(bytes.drop_last());
    }
}

/// Generates a random 128-bit trace ID: 32 lowercase hex digits, not all zero.
pub fn generate_trace_id() -> (id: String)
    ensures
        canonical_id(id@, 32),
        id@[12] == '4',
{
    let bytes = random_uuid_bytes();
    let id = hex_string(&bytes);
    proof {
        lemma_hex_encode_lower(bytes@);
        lemma_hex_encode_index(bytes@, 6);
        assert(id@[12] != '0');
    }
    id
}

/// Generates a random 64-bit span ID: 16 lowercase hex digits (the first eight
/// bytes of a version-4 UUID), not all zero.
pub fn generate_span_id() -> (id: String)
    ensures
        canonical_id(id@, 16),
        id@[12] == '4',
{
    let bytes = random_uuid_bytes();
    let first: [u8; 8] = [
        bytes[0],
        bytes[1],
        bytes[2],
        bytes[3],
        bytes[4],
        bytes[5],
        bytes[6],
        bytes[7],
    ];
    let id = hex_string(&first);
    proof {
        lemma_hex_encode_lower(first@);
        lemma_hex_encode_index(first@, 6);
        assert(id@[12] != '0');
    }
    id
}

/// The same span ID with its last digit replaced by another one (`1` for
/// `0`, else `0`); the version digit keeps it from being all zero.
fn other_last_digit(id: &String) -> (r: String)
    requires
        canonical_id(id@, 16),
        id@[12] == '4',
    ensures
        canonical_id(r@, 16),
        r@ != id@,
{
    let cs = chars_of(id.as_str());
    let last = cs[15];
    let replacement = if last == '0' { '1' } else { '0' };
    let mut out: Vec<char> = Vec::new();
    let mut i: usize = 0;
    while i < 15
        invariant
            0 <= i <= 15,
            cs@ == id@,
            cs@.len() == 16,
            out@ == cs@.take(i as int),
        decreases 15 - i,
    {
        out.push(cs[i]);
        i = i + 1;
        assert(out@ =~= cs@.take(i as int));
    }
    out.push(replacement);
    let r = string_from_chars(out.as_slice());
    assert(r@[15] != id@[15]);
    assert(r@[12] == '4');
    r
}

impl TraceContext {
    /// Whether both identifiers are canonical (lowercase hex of the right length, not all zero).
    pub open spec fn is_canonical(&self) -> bool {
        canonical_id(self.trace_id@, 32) && canonical_id(self.parent_id@, 16)
    }

    /// Creates a new sampled trace context with a random trace ID and parent ID.
    pub fn new() -> (ctx: Self)
        ensures
            ctx.is_canonical(),
            ctx.sampled,
    {
        TraceContext { trace_id: generate_trace_id(), parent_id: generate_span_id(), sampled: true }
    }

    /// Creates a new span under this trace: same trace ID and sampling, a new
    /// random span ID that differs from this context's. A random ID equal to
    /// the current one is drawn again; should the second draw collide too,
    /// its last digit is changed.
    pub fn new_span(&self) -> (ctx: Self)
        ensures
            ctx.trace_id@ == self.trace_id@,
            ctx.sampled == self.sampled,
            canonical_id(ctx.parent_id@, 16),
            ctx.parent_id@ != self.parent_id@,
    {
        let mut id = generate_span_id();
        if str_eq(id.as_str(), self.parent_id.as_str()) {
            id = generate_span_id();
        }
        if str_eq(id.as_str(), self.parent_id.as_str()) {
            id = other_last_digit(&id);
        }
        TraceContext { trace_id: self.trace_id.clone(), parent_id: id, sampled: self.sampled }
    }

    /// Parses a `traceparent` header value; `None` if it is malformed.
    pub fn parse(traceparent: &str) -> (r: Option<Self>)
        ensures
            match r {
                None => parse_spec(traceparent@) is None,
                Some(ctx) => parse_spec(traceparent@) == Some(
                    (ctx.trace_id@, ctx.parent_id@, ctx.sampled),
                ),
            },
    {
        let cs = chars_of(traceparent);
        let parts = split_chars(cs.as_slice(), '-');
        if parts.len() != 4 {
            return None;
        }
        let version = &parts[0];
        let is_version = version.len() == 2 && version[0] == '0' && version[1] == '0';
        proof {
            if version@.len() == 2 && version@[0] == '0' && version@[1] == '0' {
                assert(version@ =~= seq!['0', '0']);
            }
        }
        if !is_version {
            return None;
        }
        if !is_valid_id_chars(&parts[1], 32) {
            return None;
        }
        if !is_valid_id_chars(&parts[2], 16) {
            return None;
        }
        let flags = &parts[3];
        if flags.len() != 2 || !is_all_hex_chars(flags) {
            return None;
        }
        let low = flags[1];
        let value: u32 = if '0' <= low && low <= '9' {
            (low as u32) - ('0' as u32)
        } else if 'a' <= low && low <= 'f' {
            (low as u32) - ('a' as u32) + 10
        } else {
            (low as u32) - ('A' as u32) + 10
        };
        let sampled = value % 2 == 1;
        Some(
            TraceContext {
                trace_id: lowercase_string(&parts[1]),
                parent_id: lowercase_string(&parts[2]),
                sampled,
            },
        )
    }

    /// Formats the context as a `traceparent` header value.
    pub fn to_traceparent(&self) -> (s: String)
        ensures
            s@ == traceparent_of(self.trace_id@, self.parent_id@, self.sampled),
    {
        let mut s = String::new();
        push_char(&mut s, '0');
        push_char(&mut s, '0');
        push_char(&mut s, '-');
        push_str(&mut s, self.trace_id.as_str());
        push_char(&mut s, '-');
        push_str(&mut s, self.parent_id.as_str());
        push_char(&mut s, '-');
        push_char(&mut s, '0');
        if self.sampled {
            push_char(&mut s, '1');
        } else {
            push_char(&mut s, '0');
        }
        assert(s@ =~= traceparent_of(self.trace_id@, self.parent_id@, self.sampled));
        s
    }

    /// The `traceparent` header value (the text form of the context).
    pub fn to_string(&self) -> (s: String)
        ensures
            s@ == traceparent_of(self.trace_id@, self.parent_id@, self.sampled),
    {
        self.to_traceparent()
    }

    /// The trace ID, for logging and correlation.
    pub fn trace_id(&self) -> (id: &str)
        ensures
            id@ == self.trace_id@,
    {
        self.trace_id.as_str()
    }

    /// The span (parent) ID.
    pub fn span_id(&self) -> (id: &str)
        ensures
            id@ == self.parent_id@,
    {
        self.parent_id.as_str()
    }
}

impl Default for TraceContext {
    fn default() -> (ctx: Self)
        ensures
            ctx.is_canonical(),
            ctx.sampled,
    {
        Self::new()
    }
}

/// The trace context of a request given its `traceparent` header value, if
/// any: the parsed context when the header is valid, a fresh one otherwise.
pub fn trace_context_from_header(traceparent: Option<&str>) -> (ctx: TraceContext)
    ensures
        match traceparent {
            Some(v) => match parse_spec(v@) {
                Some(parsed) => (ctx.trace_id@, ctx.parent_id@, ctx.sampled) == parsed,
                None => ctx.is_canonical() && ctx.sampled,
            },
            None => ctx.is_canonical() && ctx.sampled,
        },
{
    match traceparent {
        Some(v) => match TraceContext::parse(v) {
            Some(ctx) => ctx,
            None => TraceContext::new(),
        },
        None => TraceContext::new(),
    }
}

proof fn lemma_no_dash_in_lower_hex(s: Seq<char>)
    requires
        is_lower_hex(s),
    ensures
        !s.contains('-'),
{
    if s.contains('-') {
        let k = choose|k: int| 0 <= k < s.len() && s[k] == '-';
        assert(('0' <= s[k] && s[k] <= '9') || ('a' <= s[k] && s[k] <= 'f'));
    }
}

proof fn lemma_lower_hex_fixed(s: Seq<char>)
    requires
        is_lower_hex(s),
    ensures
        ascii_lowercase(s) == s,
        all_hex(s),
{
    assert(ascii_lowercase(s) =~= s) by {
        assert forall|i: int| 0 <= i < s.len() implies #[trigger] ascii_lowercase(s)[i] == s[i] by {
            assert(('0' <= s[i] && s[i] <= '9') || ('a' <= s[i] && s[i] <= 'f'));
        }
    }
    assert forall|i: int| 0 <= i < s.len() implies is_hex_char(#[trigger] s[i]) by {
        assert(('0' <= s[i] && s[i] <= '9') || ('a' <= s[i] && s[i] <= 'f'));
    }
}

/// Formatting and parsing agree: the header written for a context with
/// canonical identifiers parses back to exactly that context.
pub proof fn lemma_traceparent_roundtrip(trace_id: Seq<char>, parent_id: Seq<char>, sampled: bool)
    requires
        canonical_id(trace_id, 32),
        canonical_id(parent_id, 16),
    ensures
        parse_spec(traceparent_of(trace_id, parent_id, sampled)) == Some((trace_id, parent_id, sampled)),
{
    let v = seq!['0', '0'];
    let f = flags_field(sampled);
    lemma_no_dash_in_lower_hex(trace_id);
    lemma_no_dash_in_lower_hex(parent_id);
    assert(!v.contains('-')) by {
        if v.contains('-') {
            let k = choose|k: int| 0 <= k < v.len() && v[k] == '-';
        }
    }
    assert(!f.contains('-')) by {
        if f.contains('-') {
            let k = choose|k: int| 0 <= k < f.len() && f[k] == '-';
        }
    }
    lemma_split_on_single(v, '-');
    lemma_split_on_append(v, trace_id, '-');
    lemma_split_on_append(v + seq!['-'] + trace_id, parent_id, '-');
    lemma_split_on_append(v + seq!['-'] + trace_id + seq!['-'] + parent_id, f, '-');
    let s = traceparent_of(trace_id, parent_id, sampled);
    assert(s =~= v + seq!['-'] + trace_id + seq!['-'] + parent_id + seq!['-'] + f);
    let parts = split_on(s, '-');
    assert(parts =~= seq![v, trace_id, parent_id, f]);
    lemma_lower_hex_fixed(trace_id);
    lemma_lower_hex_fixed(parent_id);
    assert(all_hex(f));
}

/// Parsing is canonical: a parsed context writes a header that parses back to
/// the same context.
pub proof fn lemma_parse_is_canonical(s: Seq<char>)
    requires
        parse_spec(s) is Some,
    ensures
        match parse_spec(s) {
            Some((t, p, b)) => canonical_id(t, 32) && canonical_id(p, 16) && parse_spec(
                traceparent_of(t, p, b),
            ) == Some((t, p, b)),
            None => false,
        },
{
    let parts = split_on(s, '-');
    lemma_lowercase_canonical(parts[1]);
    lemma_lowercase_canonical(parts[2]);
    let p = parse_spec(s)->0;
    lemma_traceparent_roundtrip(p.0, p.1, p.2);
}

proof fn lemma_lowercase_canonical(s: Seq<char>)
    requires
        all_hex(s),
        !all_zero(s),
    ensures
        is_lower_hex(ascii_lowercase(s)),
        !all_zero(ascii_lowercase(s)),
        ascii_lowercase(s).len() == s.len(),
{
    let l = ascii_lowercase(s);
    assert forall|i: int| 0 <= i < l.len() implies (('0' <= #[trigger] l[i] && l[i] <= '9') || ('a'
        <= l[i] && l[i] <= 'f')) by {
        assert(is_hex_char(s[i]));
        assert(l[i] == ascii_lower(s[i]));
    }
    let k = choose|k: int| 0 <= k < s.len() && s[k] != '0';
    assert(l[k] == ascii_lower(s[k]));
    assert(l[k] != '0');
}

/// The trace context of a request with these headers: its `traceparent`
/// header (names compared ignoring case) when that parses, a fresh context
/// otherwise.
pub fn extract_trace_context(headers: &Vec<(String, String)>) -> (ctx: TraceContext)
    ensures
        match find_header(headers_view(headers@), "traceparent"@) {
            Some(v) => match parse_spec(v) {
                Some(parsed) => (ctx.trace_id@, ctx.parent_id@, ctx.sampled) == parsed,
                None => ctx.is_canonical() && ctx.sampled,
            },
            None => ctx.is_canonical() && ctx.sampled,
        },
{
    trace_context_from_header(lookup_header(headers, "traceparent"))
}

} // verus!
