use axum::http::{HeaderMap, HeaderName, HeaderValue};
use openai_trtllm::triton::telemetry::{extract, inject, propagate_context, TraceCarrier};
use openai_trtllm::triton::UpstreamCall;

const TRACEPARENT: &str = "00-4bf92f3577b34da6a3ce929d0e0e4736-00f067aa0ba902b7-01";

fn keys() -> Vec<String> {
    vec!["traceparent".to_string(), "tracestate".to_string()]
}

fn pair(key: &str, value: &str) -> (String, String) {
    (key.to_string(), value.to_string())
}

#[test]
fn no_trace_headers_add_no_metadata() {
    let mut headers = HeaderMap::new();
    headers.insert(
        HeaderName::from_static("content-type"),
        HeaderValue::from_static("application/json"),
    );
    let mut call = UpstreamCall::new(7u32);
    propagate_context(&mut call, &headers, &keys());
    assert_eq!(call.metadata, Vec::<(String, String)>::new());
    assert_eq!(call.message, 7);
}

#[test]
fn empty_headers_add_no_metadata() {
    let mut call = UpstreamCall::new("payload".to_string());
    propagate_context(&mut call, &HeaderMap::new(), &keys());
    assert!(call.metadata.is_empty());
    assert_eq!(call.message, "payload");
}

#[test]
fn trace_headers_are_carried_with_their_values() {
    let mut headers = HeaderMap::new();
    headers.insert(
        HeaderName::from_static("traceparent"),
        HeaderValue::from_static(TRACEPARENT),
    );
    headers.insert(
        HeaderName::from_static("tracestate"),
        HeaderValue::from_static("vendor=opaque,other=1"),
    );
    let mut call = UpstreamCall::new(());
    propagate_context(&mut call, &headers, &keys());
    assert_eq!(
        call.metadata,
        vec![
            pair("traceparent", TRACEPARENT),
            pair("tracestate", "vendor=opaque,other=1"),
        ]
    );
}

#[test]
fn only_the_keys_that_are_present_are_carried() {
    let mut headers = HeaderMap::new();
    headers.insert(
        HeaderName::from_static("tracestate"),
        HeaderValue::from_static("a=b"),
    );
    let carrier = extract(&headers, &keys());
    assert_eq!(carrier.entries, vec![pair("tracestate", "a=b")]);
}

#[test]
fn headers_outside_the_key_set_are_dropped() {
    let mut headers = HeaderMap::new();
    headers.insert(
        HeaderName::from_static("authorization"),
        HeaderValue::from_static("Bearer token"),
    );
    headers.insert(
        HeaderName::from_static("traceparent"),
        HeaderValue::from_static(TRACEPARENT),
    );
    headers.insert(
        HeaderName::from_static("x-request-id"),
        HeaderValue::from_static("42"),
    );
    let carrier = extract(&headers, &keys());
    assert_eq!(carrier.entries, vec![pair("traceparent", TRACEPARENT)]);
}

#[test]
fn carried_entries_follow_the_order_of_the_keys() {
    let mut headers = HeaderMap::new();
    headers.insert(
        HeaderName::from_static("traceparent"),
        HeaderValue::from_static(TRACEPARENT),
    );
    headers.insert(
        HeaderName::from_static("tracestate"),
        HeaderValue::from_static("a=b"),
    );
    let reversed = vec!["tracestate".to_string(), "traceparent".to_string()];
    let carrier = extract(&headers, &reversed);
    assert_eq!(
        carrier.entries,
        vec![pair("tracestate", "a=b"), pair("traceparent", TRACEPARENT)]
    );
}

#[test]
fn header_lookup_ignores_case() {
    let mut headers = HeaderMap::new();
    headers.insert(
        HeaderName::from_bytes(b"TraceParent").unwrap(),
        HeaderValue::from_static(TRACEPARENT),
    );
    let carrier = extract(&headers, &vec!["TRACEPARENT".to_string()]);
    assert_eq!(carrier.entries, vec![pair("TRACEPARENT", TRACEPARENT)]);
    let carrier = extract(&headers, &vec!["traceparent".to_string()]);
    assert_eq!(carrier.entries, vec![pair("traceparent", TRACEPARENT)]);
}

#[test]
fn first_value_of_a_repeated_header_is_carried() {
    let mut headers = HeaderMap::new();
    headers.append(
        HeaderName::from_static("tracestate"),
        HeaderValue::from_static("first=1"),
    );
    headers.append(
        HeaderName::from_static("tracestate"),
        HeaderValue::from_static("second=2"),
    );
    let carrier = extract(&headers, &keys());
    assert_eq!(carrier.entries, vec![pair("tracestate", "first=1")]);
}

#[test]
fn value_that_is_not_text_is_not_carried() {
    let mut headers = HeaderMap::new();
    headers.insert(
        HeaderName::from_static("traceparent"),
        HeaderValue::from_bytes(&[0x61, 0xff, 0x62]).unwrap(),
    );
    headers.insert(
        HeaderName::from_static("tracestate"),
        HeaderValue::from_static("a=b"),
    );
    let carrier = extract(&headers, &keys());
    assert_eq!(carrier.entries, vec![pair("tracestate", "a=b")]);
}

#[test]
fn key_that_is_no_header_name_finds_nothing() {
    let mut headers = HeaderMap::new();
    headers.insert(
        HeaderName::from_static("traceparent"),
        HeaderValue::from_static(TRACEPARENT),
    );
    let odd = vec!["trace parent".to_string(), String::new(), "tr\u{e4}ce".to_string()];
    let carrier = extract(&headers, &odd);
    assert_eq!(carrier.entries, Vec::<(String, String)>::new());
}

#[test]
fn empty_key_set_carries_nothing() {
    let mut headers = HeaderMap::new();
    headers.insert(
        HeaderName::from_static("traceparent"),
        HeaderValue::from_static(TRACEPARENT),
    );
    let carrier = extract(&headers, &Vec::new());
    assert!(carrier.entries.is_empty());
}

#[test]
fn inject_appends_after_existing_metadata() {
    let mut call = UpstreamCall {
        message: 1u8,
        metadata: vec![pair("x-model", "ensemble")],
    };
    let carrier = TraceCarrier {
        entries: vec![pair("traceparent", TRACEPARENT)],
    };
    inject(carrier, &mut call);
    assert_eq!(
        call.metadata,
        vec![pair("x-model", "ensemble"), pair("traceparent", TRACEPARENT)]
    );
    assert_eq!(call.message, 1);
}

#[test]
fn propagation_keeps_what_the_call_already_carries() {
    let mut headers = HeaderMap::new();
    headers.insert(
        HeaderName::from_static("traceparent"),
        HeaderValue::from_static(TRACEPARENT),
    );
    let mut call = UpstreamCall {
        message: "m".to_string(),
        metadata: vec![pair("x-model", "ensemble")],
    };
    propagate_context(&mut call, &headers, &keys());
    assert_eq!(
        call.metadata,
        vec![pair("x-model", "ensemble"), pair("traceparent", TRACEPARENT)]
    );
    assert_eq!(call.message, "m");
}

#[test]
fn new_call_has_no_metadata() {
    let call = UpstreamCall::new(3i64);
    assert_eq!(call.message, 3);
    assert!(call.metadata.is_empty());
}
