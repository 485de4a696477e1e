//! Observability output: the Prometheus metrics text and the reading of the
//! process's memory figures.

use crate::runtime::request::{parse_usize, parse_usize_spec};
use crate::text::{chars_of, decimal, push_decimal, push_str, str_eq, string_from_chars};
use vstd::prelude::*;

verus! {

broadcast use vstd::string::group_string_axioms;

/// The gauge value of a circuit state name: 1 for `open`, 2 for
/// `half_open`, 0 for anything else (closed or unknown).
pub open spec fn circuit_state_value(state: Seq<char>) -> nat {
    if state == "open"@ {
        1
    } else if state == "half_open"@ {
        2
    } else {
        0
    }
}

/// One metric's help, type and value lines, followed by a blank line.
pub open spec fn metric_block(name: Seq<char>, help: Seq<char>, kind: Seq<char>, value: nat) -> Seq<char> {
    "# HELP "@ + name + " "@ + help + "\n"@ + "# TYPE "@ + name + " "@ + kind + "\n"@ + name + " "@
        + decimal(value) + "\n\n"@
}

/// The circuit state lines, one per module, in order.
pub open spec fn circuit_lines(states: Seq<(Seq<char>, Seq<char>)>) -> Seq<char>
    decreases states.len(),
{
    if states.len() == 0 {
        Seq::empty()
    } else {
        circuit_lines(states.drop_last()) + "mik_circuit_breaker_state{module=\""@ + states.last().0
            + "\"} "@ + decimal(circuit_state_value(states.last().1)) + "\n"@
    }
}

/// The Prometheus text for the given figures.
pub open spec fn prometheus_text(
    total_requests: u64,
    cache_entries: u64,
    cache_bytes: u64,
    max_cache_bytes: usize,
    max_concurrent_requests: usize,
    circuit_states: Seq<(Seq<char>, Seq<char>)>,
    memory_bytes: Option<usize>,
) -> Seq<char> {
    metric_block(
        "mik_requests_total"@,
        "Total number of HTTP requests received"@,
        "counter"@,
        total_requests as nat,
    ) + metric_block("mik_cache_entries"@, "Number of modules in cache"@, "gauge"@, cache_entries as nat)
        + metric_block(
        "mik_cache_bytes"@,
        "Total bytes used by cached modules"@,
        "gauge"@,
        cache_bytes as nat,
    ) + metric_block(
        "mik_cache_capacity_bytes"@,
        "Maximum cache size in bytes"@,
        "gauge"@,
        max_cache_bytes as nat,
    ) + metric_block(
        "mik_max_concurrent_requests"@,
        "Maximum allowed concurrent requests"@,
        "gauge"@,
        max_concurrent_requests as nat,
    )
        + "# HELP mik_circuit_breaker_state Circuit breaker state per module (0=closed, 1=open, 2=half-open)\n"@
        + "# TYPE mik_circuit_breaker_state gauge\n"@ + circuit_lines(circuit_states) + (if circuit_states.len() > 0 {
        "\n"@
    } else {
        Seq::empty()
    }) + match memory_bytes {
        Some(m) => "# HELP mik_memory_bytes Process memory usage in bytes\n"@
            + "# TYPE mik_memory_bytes gauge\n"@ + "mik_memory_bytes "@ + decimal(m as nat) + "\n"@,
        None => Seq::empty(),
    }
}

fn push_metric_block(out: &mut String, name: &str, help: &str, kind: &str, value: u64)
    ensures
        final(out)@ == old(out)@ + metric_block(name@, help@, kind@, value as nat),
{
    push_str(out, "# HELP ");
    push_str(out, name);
    push_str(out, " ");
    push_str(out, help);
    push_str(out, "\n");
    push_str(out, "# TYPE ");
    push_str(out, name);
    push_str(out, " ");
    push_str(out, kind);
    push_str(out, "\n");
    push_str(out, name);
    push_str(out, " ");
    push_decimal(out, value);
    push_str(out, "\n\n");
    assert(final(out)@ =~= old(out)@ + metric_block(name@, help@, kind@, value as nat));
}

/// The gauge value of a circuit state name.
fn circuit_state_number(state: &str) -> (v: u64)
    ensures
        v == circuit_state_value(state@),
{
    if str_eq(state, "open") {
        1
    } else if str_eq(state, "half_open") {
        2
    } else {
        0
    }
}

/// The pairs of strings as character sequences.
pub open spec fn pairs_of(v: Seq<(String, String)>) -> Seq<(Seq<char>, Seq<char>)> {
    v.map_values(|p: (String, String)| (p.0@, p.1@))
}

/// Writes the Prometheus metrics text: request total, cache figures,
/// concurrency limit, one circuit state line per module, and the process
/// memory when it is known.
pub fn prometheus_metrics(
    total_requests: u64,
    cache_entries: u64,
    cache_bytes: u64,
    max_cache_bytes: usize,
    max_concurrent_requests: usize,
    circuit_states: &Vec<(String, String)>,
    memory_bytes: Option<usize>,
) -> (s: String)
    ensures
        s@ == prometheus_text(
            total_requests,
            cache_entries,
            cache_bytes,
            max_cache_bytes,
            max_concurrent_requests,
            pairs_of(circuit_states@),
            memory_bytes,
        ),
{
    let mut out = String::new();
    push_metric_block(&mut out, "mik_requests_total", "Total number of HTTP requests received", "counter", total_requests);
    push_metric_block(&mut out, "mik_cache_entries", "Number of modules in cache", "gauge", cache_entries);
    push_metric_block(&mut out, "mik_cache_bytes", "Total bytes used by cached modules", "gauge", cache_bytes);
    push_metric_block(&mut out, "mik_cache_capacity_bytes", "Maximum cache size in bytes", "gauge", max_cache_bytes as u64);
    push_metric_block(
        &mut out,
        "mik_max_concurrent_requests",
        "Maximum allowed concurrent requests",
        "gauge",
        max_concurrent_requests as u64,
    );
    push_str(
        &mut out,
        "# HELP mik_circuit_breaker_state Circuit breaker state per module (0=closed, 1=open, 2=half-open)\n",
    );
    push_str(&mut out, "# TYPE mik_circuit_breaker_state gauge\n");
    let ghost head = out@;
    let mut i: usize = 0;
    while i < circuit_states.len()
        invariant
            0 <= i <= circuit_states@.len(),
            out@ == head + circuit_lines(pairs_of(circuit_states@).take(i as int)),
        decreases circuit_states@.len() - i,
    {
        let ghost before = out@;
        assert(pairs_of(circuit_states@).take(i + 1).drop_last() =~= pairs_of(circuit_states@).take(i as int));
        push_str(&mut out, "mik_circuit_breaker_state{module=\"");
        push_str(&mut out, circuit_states[i].0.as_str());
        push_str(&mut out, "\"} ");
        let v = circuit_state_number(circuit_states[i].1.as_str());
        push_decimal(&mut out, v);
        push_str(&mut out, "\n");
        i = i + 1;
        assert(out@ =~= head + circuit_lines(pairs_of(circuit_states@).take(i as int)));
    }
    assert(pairs_of(circuit_states@).take(circuit_states@.len() as int) =~= pairs_of(circuit_states@));
    if circuit_states.len() > 0 {
        push_str(&mut out, "\n");
    }
    match memory_bytes {
        Some(m) => {
            push_str(&mut out, "# HELP mik_memory_bytes Process memory usage in bytes\n");
            push_str(&mut out, "# TYPE mik_memory_bytes gauge\n");
            push_str(&mut out, "mik_memory_bytes ");
            push_decimal(&mut out, m as u64);
            push_str(&mut out, "\n");
        },
        None => {},
    }
    proof {
        reveal_strlit("");
    }
    assert(out@ =~= prometheus_text(
        total_requests,
        cache_entries,
        cache_bytes,
        max_cache_bytes,
        max_concurrent_requests,
        pairs_of(circuit_states@),
        memory_bytes,
    ));
    out
}

/// Unicode white space, as `char::is_whitespace` defines it.
pub open spec fn is_white_space(c: char) -> bool {
    ('\u{9}' <= c && c <= '\u{d}') || c == ' ' || c == '\u{85}' || c == '\u{a0}' || c
        == '\u{1680}' || ('\u{2000}' <= c && c <= '\u{200a}') || c == '\u{2028}' || c
        == '\u{2029}' || c == '\u{202f}' || c == '\u{205f}' || c == '\u{3000}'
}

fn white_space(c: char) -> (b: bool)
    ensures
        b == is_white_space(c),
{
    ('\u{9}' <= c && c <= '\u{d}') || c == ' ' || c == '\u{85}' || c == '\u{a0}' || c
        == '\u{1680}' || ('\u{2000}' <= c && c <= '\u{200a}') || c == '\u{2028}' || c
        == '\u{2029}' || c == '\u{202f}' || c == '\u{205f}' || c == '\u{3000}'
}

/// The number of leading white-space characters of `s`.
pub open spec fn leading_space(s: Seq<char>) -> nat
    decreases s.len(),
{
    if s.len() > 0 && is_white_space(s[0]) {
        1 + leading_space(s.drop_first())
    } else {
        0
    }
}

/// The length of the run of non-space characters that starts `s`.
pub open spec fn word_length(s: Seq<char>) -> nat
    decreases s.len(),
{
    if s.len() > 0 && !is_white_space(s[0]) {
        1 + word_length(s.drop_first())
    } else {
        0
    }
}

/// The first white-space separated word of `s`, if any (what
/// `split_whitespace().next()` yields).
pub open spec fn first_word(s: Seq<char>) -> Option<Seq<char>> {
    let rest = s.skip(leading_space(s) as int);
    if rest.len() == 0 {
        None
    } else {
        Some(rest.take(word_length(rest) as int))
    }
}

proof fn lemma_leading_space(s: Seq<char>, i: int)
    requires
        0 <= i <= s.len(),
        forall|k: int| 0 <= k < i ==> is_white_space(#[trigger] s[k]),
    ensures
        leading_space(s) == i + leading_space(s.skip(i)),
    decreases i,
{
    if i > 0 {
        assert(is_white_space(s[0]));
        lemma_leading_space(s.drop_first(), i - 1);
        assert(s.drop_first().skip(i - 1) =~= s.skip(i));
    } else {
        assert(s.skip(0) =~= s);
    }
}

proof fn lemma_word_length(s: Seq<char>, i: int)
    requires
        0 <= i <= s.len(),
        forall|k: int| 0 <= k < i ==> !is_white_space(#[trigger] s[k]),
    ensures
        word_length(s) == i + word_length(s.skip(i)),
    decreases i,
{
    if i > 0 {
        assert(!is_white_space(s[0]));
        lemma_word_length(s.drop_first(), i - 1);
        assert(s.drop_first().skip(i - 1) =~= s.skip(i));
    } else {
        assert(s.skip(0) =~= s);
    }
}

/// The first white-space separated word of `s`.
pub fn first_word_of(s: &str) -> (w: Option<String>)
    ensures
        match w {
            Some(x) => first_word(s@) == Some(x@),
            None => first_word(s@) is None,
        },
{
    let cs = chars_of(s);
    let mut i: usize = 0;
    while i < cs.len() && white_space(cs[i])
        invariant
            0 <= i <= cs@.len(),
            cs@ == s@,
            forall|k: int| 0 <= k < i ==> is_white_space(#[trigger] cs@[k]),
        decreases cs@.len() - i,
    {
        i = i + 1;
    }
    proof {
        lemma_leading_space(cs@, i as int);
        let rest = cs@.skip(i as int);
        if rest.len() > 0 {
            assert(rest[0] == cs@[i as int]);
        }
    }
    if i == cs.len() {
        return None;
    }
    let start = i;
    let mut j: usize = i;
    while j < cs.len() && !white_space(cs[j])
        invariant
            start <= j <= cs@.len(),
            forall|k: int| start <= k < j ==> !is_white_space(#[trigger] cs@[k]),
        decreases cs@.len() - j,
    {
        j = j + 1;
    }
    let ghost rest = cs@.skip(start as int);
    proof {
        assert forall|k: int| 0 <= k < j - start implies !is_white_space(#[trigger] rest[k]) by {
            assert(rest[k] == cs@[start + k]);
        }
        lemma_word_length(rest, j - start);
        let after = rest.skip(j - start);
        if after.len() > 0 {
            assert(after[0] == cs@[j as int]);
        }
    }
    let word = string_from_chars(&cs.as_slice()[start..j]);
    assert(word@ =~= rest.take(j - start));
    Some(word)
}

/// Page size used to convert `/proc/self/statm` pages to bytes.
pub const STATM_PAGE_BYTES: usize = 4096;

/// The resident memory in bytes that `/proc/self/statm` content reports:
/// its first field as a page count times 4096; `None` when that field is
/// missing or not a number, or the product does not fit in `usize`.
pub open spec fn statm_memory(content: Seq<char>) -> Option<nat> {
    match first_word(content) {
        Some(w) => match parse_usize_spec(w) {
            Some(pages) => if pages * 4096 <= usize::MAX {
                Some(pages * 4096)
            } else {
                None
            },
            None => None,
        },
        None => None,
    }
}

/// Reads the memory figure out of `/proc/self/statm` content.
pub fn memory_from_statm(content: &str) -> (m: Option<usize>)
    ensures
        match m {
            Some(v) => statm_memory(content@) == Some(v as nat),
            None => statm_memory(content@) is None,
        },
{
    match first_word_of(content) {
        Some(w) => match parse_usize(w.as_str()) {
            Some(pages) => pages.checked_mul(STATM_PAGE_BYTES),
            None => None,
        },
        None => None,
    }
}

} // verus!
