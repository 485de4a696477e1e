//! Tests of timing spans, their collector and summary.

use mik::runtime::spans::{Span, SpanBuilder, SpanCollector, SpanIds, SpanStatus, SpanSummary};
use std::time::{Duration, Instant};

#[test]
fn test_span_builder_finish() {
    let mut ids = SpanIds::new();
    let builder = SpanBuilder::new("test", &mut ids);
    let start = Instant::now();
    while start.elapsed() < Duration::from_millis(10) {}
    let span = builder.finish();

    assert_eq!(span.name, "test");
    assert!(span.duration_ms >= 10);
    assert_eq!(span.status, SpanStatus::Success);
    assert!(span.error.is_none());
    assert!(!span.span_id.is_empty());
    assert!(span.parent_id.is_none());
}

#[test]
fn test_span_builder_with_parent() {
    let mut ids = SpanIds::new();
    let parent = SpanBuilder::new("parent", &mut ids);
    let parent_id = parent.span_id().to_string();

    let child = SpanBuilder::with_parent("child", &parent_id, &mut ids);
    let child_span = child.finish();

    assert_eq!(child_span.name, "child");
    assert_eq!(child_span.parent_id, Some(parent_id.clone()));
    assert_ne!(child_span.span_id, parent_id);
}

#[test]
fn test_span_builder_finish_with_error() {
    let mut ids = SpanIds::new();
    let builder = SpanBuilder::new("test", &mut ids);
    let span = builder.finish_with_error("something failed");

    assert_eq!(span.status, SpanStatus::Error);
    assert_eq!(span.error, Some("something failed".to_string()));
    assert!(!span.span_id.is_empty());
}

#[test]
fn test_span_builder_finish_timeout() {
    let mut ids = SpanIds::new();
    let builder = SpanBuilder::new("test", &mut ids);
    let span = builder.finish_timeout();

    assert_eq!(span.status, SpanStatus::Timeout);
    assert!(span.error.is_some());
    assert!(!span.span_id.is_empty());
}

#[test]
fn test_span_id_uniqueness() {
    let mut ids = SpanIds::new();
    let span1 = SpanBuilder::new("span1", &mut ids);
    let span2 = SpanBuilder::new("span2", &mut ids);
    let span3 = SpanBuilder::new("span3", &mut ids);

    assert_ne!(span1.span_id(), span2.span_id());
    assert_ne!(span2.span_id(), span3.span_id());
    assert_ne!(span1.span_id(), span3.span_id());
}

#[test]
fn test_span_collector() {
    let mut collector = SpanCollector::new();
    let mut ids = SpanIds::new();
    let parent = SpanBuilder::new("request", &mut ids);
    let parent_id = parent.span_id().to_string();

    collector.add(Span {
        span_id: "0000000000000001".to_string(),
        parent_id: None,
        name: "span1".to_string(),
        duration_ms: 10,
        status: SpanStatus::Success,
        error: None,
    });

    collector.add(Span {
        span_id: "0000000000000002".to_string(),
        parent_id: Some(parent_id),
        name: "span2".to_string(),
        duration_ms: 20,
        status: SpanStatus::Success,
        error: None,
    });

    assert_eq!(collector.len(), 2);

    let spans = collector.collect();
    assert_eq!(spans.len(), 2);
    assert_eq!(spans[0].name, "span1");
    assert_eq!(spans[1].name, "span2");
    assert!(spans[1].parent_id.is_some());
}

#[test]
fn test_span_summary() {
    let spans = vec![
        Span {
            span_id: "0000000000000001".to_string(),
            parent_id: None,
            name: "request".to_string(),
            duration_ms: 100,
            status: SpanStatus::Success,
            error: None,
        },
        Span {
            span_id: "0000000000000002".to_string(),
            parent_id: Some("0000000000000001".to_string()),
            name: "handler.auth".to_string(),
            duration_ms: 20,
            status: SpanStatus::Success,
            error: None,
        },
        Span {
            span_id: "0000000000000003".to_string(),
            parent_id: Some("0000000000000001".to_string()),
            name: "handler.orders".to_string(),
            duration_ms: 50,
            status: SpanStatus::Success,
            error: None,
        },
    ];

    let summary = SpanSummary::new("trace-abc123", 100, spans);
    assert_eq!(summary.trace_id, "trace-abc123");
    assert_eq!(summary.total_ms, 100);
    assert_eq!(summary.handler_calls, 2);
    assert_eq!(summary.spans.len(), 3);
}

#[test]
fn span_ids_are_sixteen_hex_digits_and_status_names() {
    let mut ids = SpanIds::new();
    let b = SpanBuilder::new("x", &mut ids);
    assert_eq!(b.span_id().len(), 16);
    assert!(b.span_id().chars().all(|c| c.is_ascii_hexdigit() && !c.is_ascii_uppercase()));
    assert_eq!(SpanStatus::Success.to_string(), "ok");
    assert_eq!(SpanStatus::Error.to_string(), "error");
    assert_eq!(SpanStatus::Timeout.to_string(), "timeout");
    let span = SpanBuilder::new("t", &mut ids).finish_timeout();
    assert_eq!(span.error.as_deref(), Some("Operation timed out"));
    let c = SpanCollector::new();
    assert!(c.is_empty());
    let s = SpanSummary::new("t", 0, vec![]);
    assert_eq!(s.handler_calls, 0);
    let handlerish = SpanSummary::new(
        "t",
        1,
        vec![
            SpanBuilder::new("handler", &mut ids).finish(),
            SpanBuilder::new("handler.x", &mut ids).finish(),
        ],
    );
    assert_eq!(handlerish.handler_calls, 1);
}

#[test]
fn span_ids_count_up_from_one() {
    let mut ids = SpanIds::new();
    assert_eq!(ids.next_id(), "0000000000000001");
    let root = SpanBuilder::new("request", &mut ids);
    assert_eq!(root.span_id(), "0000000000000002");
    let child = SpanBuilder::with_parent("script.x", root.span_id(), &mut ids);
    assert_eq!(child.span_id(), "0000000000000003");
    for _ in 0..12 {
        ids.next_id();
    }
    assert_eq!(ids.next_id(), "0000000000000010");
}

fn add_handler_spans(collector: &mut SpanCollector, ids: &mut SpanIds, parent: &str) {
    collector.add(SpanBuilder::with_parent("handler.auth", parent, ids).finish());
    collector.add(SpanBuilder::with_parent("handler.orders", parent, ids).finish());
}

#[test]
fn spans_added_down_the_call_chain_are_collected() {
    let mut ids = SpanIds::new();
    let mut collector = SpanCollector::new();
    let request = SpanBuilder::new("request", &mut ids);
    let request_id = request.span_id().to_string();
    add_handler_spans(&mut collector, &mut ids, &request_id);
    collector.add(request.finish());
    let spans = collector.collect();
    let names: Vec<&str> = spans.iter().map(|s| s.name.as_str()).collect();
    assert_eq!(names, vec!["handler.auth", "handler.orders", "request"]);
    assert_eq!(spans[0].parent_id.as_deref(), Some(request_id.as_str()));
}

#[test]
fn complete_after_records_the_given_duration() {
    let mut ids = SpanIds::new();
    let parent = SpanBuilder::new("request", &mut ids);
    let child = SpanBuilder::with_parent("handler.auth", parent.span_id(), &mut ids);
    let span = child.complete_after(42, SpanStatus::Error, Some("denied".to_string()));
    assert_eq!(span.duration_ms, 42);
    assert_eq!(span.status, SpanStatus::Error);
    assert_eq!(span.error.as_deref(), Some("denied"));
    assert_eq!(span.parent_id.as_deref(), Some("0000000000000001"));
    assert_eq!(span.span_id, "0000000000000002");
}
