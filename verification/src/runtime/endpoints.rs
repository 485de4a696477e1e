//! The built-in health and metrics endpoints: which detail a health query
//! asks for, and the answers they give for an already rendered body.

use crate::constants::HEALTH_STATUS_READY;
use crate::runtime::host_config::HostConfig;
use crate::runtime::request::{headers_view, Response};
use crate::runtime::types::{HealthDetail, HealthStatus, MemoryStats};
use crate::time::now_rfc3339;
use crate::text::{chars_of, chars_eq, has_prefix, split_chars, split_on, starts_with_chars};
use vstd::prelude::*;
use vstd::utf8::encode_utf8;

verus! {

broadcast use vstd::string::group_string_axioms;

/// `k` is the first of `parts` that starts with `verbose=`.
pub open spec fn is_first_verbose(parts: Seq<Seq<char>>, k: int) -> bool {
    &&& 0 <= k < parts.len()
    &&& has_prefix(parts[k], "verbose="@)
    &&& forall|j: int| 0 <= j < k ==> !has_prefix(#[trigger] parts[j], "verbose="@)
}

/// Whether a query string asks for full detail: its first `&`-separated
/// part that starts with `verbose=` has the value `true` or `1`.
pub open spec fn wants_verbose(query: Seq<char>) -> bool {
    exists|k: int| #[trigger]
        is_first_verbose(split_on(query, '&'), k) && (split_on(query, '&')[k].skip(8) == "true"@
            || split_on(query, '&')[k].skip(8) == "1"@)
}

/// The detail level a health request asks for through its query string.
pub open spec fn detail_for(query: Option<Seq<char>>) -> HealthDetail {
    match query {
        Some(q) => if wants_verbose(q) {
            HealthDetail::Full
        } else {
            HealthDetail::Summary
        },
        None => HealthDetail::Summary,
    }
}

/// The characters of `s` from position `from` on.
fn chars_from(s: &Vec<char>, from: usize) -> (r: Vec<char>)
    requires
        from <= s@.len(),
    ensures
        r@ == s@.skip(from as int),
{
    let mut r: Vec<char> = Vec::new();
    let mut i: usize = from;
    while i < s.len()
        invariant
            from <= i <= s@.len(),
            r@ == s@.subrange(from as int, i as int),
        decreases s@.len() - i,
    {
        r.push(s[i]);
        i = i + 1;
        assert(r@ =~= s@.subrange(from as int, i as int));
    }
    assert(r@ =~= s@.skip(from as int));
    r
}

/// The detail level of a health request with query string `query`
/// (`?verbose=true` or `?verbose=1` asks for the full detail).
pub fn health_detail(query: Option<&str>) -> (d: HealthDetail)
    ensures
        d == detail_for(
            match query {
                Some(q) => Some(q@),
                None => None,
            },
        ),
{
    let q = match query {
        Some(q) => q,
        None => {
            return HealthDetail::Summary;
        },
    };
    let cs = chars_of(q);
    let parts = split_chars(cs.as_slice(), '&');
    let key = chars_of("verbose=");
    let yes = chars_of("true");
    let one = chars_of("1");
    proof {
        reveal_strlit("verbose=");
        reveal_strlit("true");
        reveal_strlit("1");
    }
    let ghost ps = split_on(q@, '&');
    let mut i: usize = 0;
    while i < parts.len()
        invariant
            0 <= i <= parts@.len(),
            parts@.len() == ps.len(),
            forall|k: int| 0 <= k < parts@.len() ==> #[trigger] parts@[k]@ == ps[k],
            ps == split_on(q@, '&'),
            query is Some && query.unwrap()@ == q@,
            cs@ == q@,
            key@ == "verbose="@,
            key@.len() == 8,
            yes@ == "true"@,
            one@ == "1"@,
            forall|j: int| 0 <= j < i ==> !has_prefix(#[trigger] ps[j], "verbose="@),
        decreases parts@.len() - i,
    {
        assert(parts@[i as int]@ == ps[i as int]);
        if starts_with_chars(parts[i].as_slice(), key.as_slice()) {
            let value = chars_from(&parts[i], 8);
            let ok = chars_eq(value.as_slice(), yes.as_slice()) || chars_eq(
                value.as_slice(),
                one.as_slice(),
            );
            assert(is_first_verbose(ps, i as int));
            if ok {
                assert(wants_verbose(q@));
                return HealthDetail::Full;
            } else {
                assert(!wants_verbose(q@)) by {
                    if wants_verbose(q@) {
                        let k = choose|k: int| #[trigger]
                            is_first_verbose(ps, k) && (ps[k].skip(8) == "true"@ || ps[k].skip(8)
                                == "1"@);
                        if k < i {
                            assert(!has_prefix(ps[k], "verbose="@));
                        } else if k > i {
                            assert(!has_prefix(ps[i as int], "verbose="@));
                        }
                    }
                }
                return HealthDetail::Summary;
            }
        }
        i = i + 1;
    }
    assert(!wants_verbose(q@)) by {
        if wants_verbose(q@) {
            let k = choose|k: int| #[trigger]
                is_first_verbose(ps, k) && (ps[k].skip(8) == "true"@ || ps[k].skip(8) == "1"@);
            assert(!has_prefix(ps[k], "verbose="@));
        }
    }
    HealthDetail::Summary
}

/// An endpoint answer: 200 with the given content type, the request and
/// trace headers, and `body`.
pub open spec fn is_endpoint_answer(
    r: Response,
    content_type: Seq<char>,
    body: Seq<char>,
    request_id: Seq<char>,
    traceparent: Seq<char>,
) -> bool {
    &&& r.status == 200
    &&& headers_view(r.headers@) == seq![
        ("Content-Type"@, content_type),
        ("X-Request-ID"@, request_id),
        ("traceparent"@, traceparent),
    ]
    &&& r.body@ == encode_utf8(body)
}

fn endpoint_response(content_type: &str, body: &str, request_id: &str, traceparent: &str) -> (r:
    Response)
    ensures
        is_endpoint_answer(r, content_type@, body@, request_id@, traceparent@),
{
    let r = Response::new(200).with_header("Content-Type", content_type).with_header(
        "X-Request-ID",
        request_id,
    ).with_header("traceparent", traceparent).with_body_str(body);
    assert(headers_view(r.headers@) =~= seq![
        ("Content-Type"@, content_type@),
        ("X-Request-ID"@, request_id@),
        ("traceparent"@, traceparent@),
    ]);
    r
}

/// The health endpoint's answer for the rendered health JSON `body`.
pub fn health_response(body: &str, request_id: &str, traceparent: &str) -> (r: Response)
    ensures
        is_endpoint_answer(r, "application/json"@, body@, request_id@, traceparent@),
{
    endpoint_response("application/json", body, request_id, traceparent)
}

/// The metrics endpoint's answer for the Prometheus text `metrics`.
pub fn metrics_response(metrics: &str, request_id: &str, traceparent: &str) -> (r: Response)
    ensures
        is_endpoint_answer(
            r,
            "text/plain; version=0.0.4; charset=utf-8"@,
            metrics@,
            request_id@,
            traceparent@,
        ),
{
    endpoint_response("text/plain; version=0.0.4; charset=utf-8", metrics, request_id, traceparent)
}

/// The health status built from the runtime's figures at time `timestamp`:
/// status `ready`, the cache figures against the configured limits, the
/// request total, the process memory against the per-request limit, and
/// the cached module names only when full detail is asked for.
pub open spec fn is_health_status(
    h: HealthStatus,
    detail: HealthDetail,
    timestamp: Seq<char>,
    cache_size: usize,
    cache_bytes: usize,
    total_requests: u64,
    allocated_bytes: Option<usize>,
    cached_modules: Seq<String>,
    config: HostConfig,
) -> bool {
    &&& h.status@ == "ready"@
    &&& h.timestamp@ == timestamp
    &&& h.cache_size == cache_size
    &&& h.cache_capacity == config.cache_size
    &&& h.cache_bytes == cache_bytes
    &&& h.cache_max_bytes == config.max_cache_bytes
    &&& h.total_requests == total_requests
    &&& h.memory.allocated_bytes == allocated_bytes
    &&& h.memory.limit_per_request_bytes == config.memory_limit_bytes
    &&& match h.loaded_modules {
        Some(m) => detail == HealthDetail::Full && m@ == cached_modules,
        None => detail == HealthDetail::Summary,
    }
}

/// Assembles the health status at time `timestamp`.
pub fn health_status_at(
    detail: HealthDetail,
    timestamp: String,
    cache_size: usize,
    cache_bytes: usize,
    total_requests: u64,
    allocated_bytes: Option<usize>,
    cached_modules: Vec<String>,
    config: &HostConfig,
) -> (h: HealthStatus)
    ensures
        is_health_status(
            h,
            detail,
            timestamp@,
            cache_size,
            cache_bytes,
            total_requests,
            allocated_bytes,
            cached_modules@,
            *config,
        ),
{
    proof {
        reveal_strlit("ready");
    }
    let loaded_modules = match detail {
        HealthDetail::Full => Some(cached_modules),
        HealthDetail::Summary => None,
    };
    HealthStatus {
        status: HEALTH_STATUS_READY.to_string(),
        timestamp,
        cache_size,
        cache_capacity: config.cache_size,
        cache_bytes,
        cache_max_bytes: config.max_cache_bytes,
        total_requests,
        memory: MemoryStats {
            allocated_bytes,
            limit_per_request_bytes: config.memory_limit_bytes,
        },
        loaded_modules,
    }
}

/// Assembles the health status now: as `health_status_at`, stamped with
/// the current UTC time in RFC 3339 form (a clock reading, of which nothing
/// is stated).
pub fn health_status(
    detail: HealthDetail,
    cache_size: usize,
    cache_bytes: usize,
    total_requests: u64,
    allocated_bytes: Option<usize>,
    cached_modules: Vec<String>,
    config: &HostConfig,
) -> (h: HealthStatus)
    ensures
        is_health_status(
            h,
            detail,
            h.timestamp@,
            cache_size,
            cache_bytes,
            total_requests,
            allocated_bytes,
            cached_modules@,
            *config,
        ),
{
    let timestamp = now_rfc3339();
    health_status_at(
        detail,
        timestamp,
        cache_size,
        cache_bytes,
        total_requests,
        allocated_bytes,
        cached_modules,
        config,
    )
}

} // verus!
