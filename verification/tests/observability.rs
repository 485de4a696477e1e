//! Tests of the metrics text and the memory reading.

use mik::runtime::observability::{first_word_of, memory_from_statm, prometheus_metrics};
use mik::runtime::types::{ErrorCategory, HealthDetail};

#[test]
fn prometheus_text_lists_metrics_and_circuits() {
    let states = vec![
        ("api".to_string(), "open".to_string()),
        ("jobs".to_string(), "half_open".to_string()),
        ("web".to_string(), "closed".to_string()),
    ];
    let text = prometheus_metrics(7, 2, 300, 1024, 50, &states, Some(8192));
    let expected = "# HELP mik_requests_total Total number of HTTP requests received\n\
# TYPE mik_requests_total counter\n\
mik_requests_total 7\n\n\
# HELP mik_cache_entries Number of modules in cache\n\
# TYPE mik_cache_entries gauge\n\
mik_cache_entries 2\n\n\
# HELP mik_cache_bytes Total bytes used by cached modules\n\
# TYPE mik_cache_bytes gauge\n\
mik_cache_bytes 300\n\n\
# HELP mik_cache_capacity_bytes Maximum cache size in bytes\n\
# TYPE mik_cache_capacity_bytes gauge\n\
mik_cache_capacity_bytes 1024\n\n\
# HELP mik_max_concurrent_requests Maximum allowed concurrent requests\n\
# TYPE mik_max_concurrent_requests gauge\n\
mik_max_concurrent_requests 50\n\n\
# HELP mik_circuit_breaker_state Circuit breaker state per module (0=closed, 1=open, 2=half-open)\n\
# TYPE mik_circuit_breaker_state gauge\n\
mik_circuit_breaker_state{module=\"api\"} 1\n\
mik_circuit_breaker_state{module=\"jobs\"} 2\n\
mik_circuit_breaker_state{module=\"web\"} 0\n\
\n\
# HELP mik_memory_bytes Process memory usage in bytes\n\
# TYPE mik_memory_bytes gauge\n\
mik_memory_bytes 8192\n";
    assert_eq!(text, expected);

    let bare = prometheus_metrics(0, 0, 0, 0, 0, &vec![], None);
    assert!(bare.ends_with("# TYPE mik_circuit_breaker_state gauge\n"));
}

#[test]
fn statm_first_field_is_pages() {
    assert_eq!(memory_from_statm("1234 567 89 1 0 100 0\n"), Some(1234 * 4096));
    assert_eq!(memory_from_statm("  \t 2 3"), Some(8192));
    assert_eq!(memory_from_statm(""), None);
    assert_eq!(memory_from_statm("   \n"), None);
    assert_eq!(memory_from_statm("abc 1"), None);
    assert_eq!(memory_from_statm("18446744073709551615"), None);
    assert_eq!(first_word_of("\u{3000}word\u{a0}next"), Some("word".to_string()));
}

#[test]
fn categories_and_detail_defaults() {
    assert_eq!(ErrorCategory::ModuleLoad.to_string(), "module_load");
    assert_eq!(ErrorCategory::StaticFile.to_string(), "static_file");
    assert_eq!(HealthDetail::default(), HealthDetail::Summary);
}
