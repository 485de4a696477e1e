//! Tests of W3C trace context parsing, formatting and id generation.

use mik::runtime::trace_context::{
    extract_trace_context, generate_span_id, generate_trace_id, is_all_zeros, is_valid_hex, trace_context_from_header,
    TraceContext,
};

#[test]
fn test_trace_context_new() {
    let ctx = TraceContext::new();

    assert_eq!(ctx.trace_id.len(), 32);
    assert_eq!(ctx.parent_id.len(), 16);
    assert!(ctx.sampled);
    assert!(is_valid_hex(&ctx.trace_id));
    assert!(is_valid_hex(&ctx.parent_id));
}

#[test]
fn test_trace_context_parse_valid() {
    let traceparent = "00-4bf92f3577b34da6a3ce929d0e0e4736-00f067aa0ba902b7-01";
    let ctx = TraceContext::parse(traceparent).expect("should parse");

    assert_eq!(ctx.trace_id, "4bf92f3577b34da6a3ce929d0e0e4736");
    assert_eq!(ctx.parent_id, "00f067aa0ba902b7");
    assert!(ctx.sampled);
}

#[test]
fn test_trace_context_parse_not_sampled() {
    let traceparent = "00-4bf92f3577b34da6a3ce929d0e0e4736-00f067aa0ba902b7-00";
    let ctx = TraceContext::parse(traceparent).expect("should parse");

    assert!(!ctx.sampled);
}

#[test]
fn test_trace_context_parse_invalid_version() {
    let traceparent = "01-4bf92f3577b34da6a3ce929d0e0e4736-00f067aa0ba902b7-01";
    assert!(TraceContext::parse(traceparent).is_none());
}

#[test]
fn test_trace_context_parse_invalid_trace_id_length() {
    let traceparent = "00-4bf92f3577b34da6a3ce929d0e0e47-00f067aa0ba902b7-01";
    assert!(TraceContext::parse(traceparent).is_none());
}

#[test]
fn test_trace_context_parse_invalid_all_zeros_trace_id() {
    let traceparent = "00-00000000000000000000000000000000-00f067aa0ba902b7-01";
    assert!(TraceContext::parse(traceparent).is_none());
}

#[test]
fn test_trace_context_parse_invalid_all_zeros_parent_id() {
    let traceparent = "00-4bf92f3577b34da6a3ce929d0e0e4736-0000000000000000-01";
    assert!(TraceContext::parse(traceparent).is_none());
}

#[test]
fn test_trace_context_parse_invalid_hex() {
    let traceparent = "00-4bf92f3577b34da6a3ce929d0e0e473g-00f067aa0ba902b7-01";
    assert!(TraceContext::parse(traceparent).is_none());
}

#[test]
fn test_trace_context_to_traceparent() {
    let ctx = TraceContext {
        trace_id: "4bf92f3577b34da6a3ce929d0e0e4736".to_string(),
        parent_id: "00f067aa0ba902b7".to_string(),
        sampled: true,
    };

    assert_eq!(
        ctx.to_traceparent(),
        "00-4bf92f3577b34da6a3ce929d0e0e4736-00f067aa0ba902b7-01"
    );
}

#[test]
fn test_trace_context_to_traceparent_not_sampled() {
    let ctx = TraceContext {
        trace_id: "4bf92f3577b34da6a3ce929d0e0e4736".to_string(),
        parent_id: "00f067aa0ba902b7".to_string(),
        sampled: false,
    };

    assert_eq!(
        ctx.to_traceparent(),
        "00-4bf92f3577b34da6a3ce929d0e0e4736-00f067aa0ba902b7-00"
    );
}

#[test]
fn test_trace_context_roundtrip() {
    let header = "00-4bf92f3577b34da6a3ce929d0e0e4736-00f067aa0ba902b7-01";
    let ctx = TraceContext::parse(header).expect("should parse");
    assert_eq!(ctx.to_traceparent(), header);
}

#[test]
fn test_trace_context_new_span() {
    let ctx = TraceContext::new();
    let child = ctx.new_span();

    assert_eq!(child.trace_id, ctx.trace_id);
    assert_ne!(child.parent_id, ctx.parent_id);
    assert_eq!(child.sampled, ctx.sampled);
}

#[test]
fn test_generate_trace_id_format() {
    let id = generate_trace_id();
    assert_eq!(id.len(), 32);
    assert!(is_valid_hex(&id));
    assert!(!is_all_zeros(&id));
}

#[test]
fn test_generate_span_id_format() {
    let id = generate_span_id();
    assert_eq!(id.len(), 16);
    assert!(is_valid_hex(&id));
}

#[test]
fn test_display() {
    let ctx = TraceContext {
        trace_id: "4bf92f3577b34da6a3ce929d0e0e4736".to_string(),
        parent_id: "00f067aa0ba902b7".to_string(),
        sampled: true,
    };

    assert_eq!(
        ctx.to_string(),
        "00-4bf92f3577b34da6a3ce929d0e0e4736-00f067aa0ba902b7-01"
    );
}

#[test]
fn test_parse_uppercase_is_normalized() {
    let traceparent = "00-4BF92F3577B34DA6A3CE929D0E0E4736-00F067AA0BA902B7-01";
    let ctx = TraceContext::parse(traceparent).expect("should parse");

    assert_eq!(ctx.trace_id, "4bf92f3577b34da6a3ce929d0e0e4736");
    assert_eq!(ctx.parent_id, "00f067aa0ba902b7");
}

#[test]
fn parse_rejects_wrong_flags_and_separators() {
    let other_flags = TraceContext::parse("00-4bf92f3577b34da6a3ce929d0e0e4736-00f067aa0ba902b7-02")
        .expect("any two hex digits are flags");
    assert!(!other_flags.sampled);
    assert!(TraceContext::parse("00-4bf92f3577b34da6a3ce929d0e0e4736-00f067aa0ba902b7-0x").is_none());
    assert!(TraceContext::parse("00_4bf92f3577b34da6a3ce929d0e0e4736-00f067aa0ba902b7-01").is_none());
    assert!(TraceContext::parse("00-4bf92f3577b34da6a3ce929d0e0e4736-00f067aa0ba902b7-01-").is_none());
    assert!(TraceContext::parse("").is_none());
}

#[test]
fn header_context_continues_or_starts_a_trace() {
    let ctx = trace_context_from_header(Some(
        "00-4bf92f3577b34da6a3ce929d0e0e4736-00f067aa0ba902b7-01",
    ));
    assert_eq!(ctx.trace_id, "4bf92f3577b34da6a3ce929d0e0e4736");
    assert_eq!(ctx.parent_id, "00f067aa0ba902b7");

    let fresh = trace_context_from_header(Some("garbage"));
    assert_eq!(fresh.trace_id.len(), 32);
    assert!(fresh.sampled);
    let none = trace_context_from_header(None);
    assert!(is_valid_hex(&none.trace_id));
}

#[test]
fn ids_are_lowercase_hex() {
    assert!(is_valid_hex("0123456789abcdefABCDEF"));
    assert!(!is_valid_hex("xyz"));
    assert!(is_all_zeros("0000"));
    assert!(!is_all_zeros("0001"));
}

#[test]
fn trace_context_comes_from_the_traceparent_header() {
    let headers = vec![
        ("Accept".to_string(), "*/*".to_string()),
        (
            "TraceParent".to_string(),
            "00-4bf92f3577b34da6a3ce929d0e0e4736-00f067aa0ba902b7-01".to_string(),
        ),
    ];
    let ctx = extract_trace_context(&headers);
    assert_eq!(ctx.trace_id(), "4bf92f3577b34da6a3ce929d0e0e4736");
    assert_eq!(ctx.span_id(), "00f067aa0ba902b7");
    let fresh = extract_trace_context(&vec![("traceparent".to_string(), "garbage".to_string())]);
    assert_eq!(fresh.trace_id().len(), 32);
    assert_eq!(fresh.to_traceparent().len(), 55);
}
