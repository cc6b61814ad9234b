use moltbot_harness::rules::{default_rules, Rule};
use moltbot_harness::sse::{parse_sse_events, SseEvent, SseLineBuffer};
use moltbot_harness::streaming::StreamInterceptor;

fn get_rules() -> Vec<Rule> {
    default_rules()
}

fn make_event(event_type: &str, data: &str) -> SseEvent {
    SseEvent { event_type: event_type.to_string(), data: data.to_string() }
}

#[test]
fn test_text_only_passthrough() {
    let rules = get_rules();
    let mut interceptor = StreamInterceptor::new(rules, true);

    let events = vec![
        make_event("message_start", r#"{"type":"message_start","message":{"id":"msg_1","type":"message","role":"assistant","content":[],"model":"m1","stop_reason":null,"usage":{"input_tokens":10,"output_tokens":0}}}"#),
        make_event("content_block_start", r#"{"type":"content_block_start","index":0,"content_block":{"type":"text","text":""}}"#),
        make_event("content_block_delta", r#"{"type":"content_block_delta","index":0,"delta":{"type":"text_delta","text":"Hello world"}}"#),
        make_event("content_block_stop", r#"{"type":"content_block_stop","index":0}"#),
        make_event("message_delta", r#"{"type":"message_delta","delta":{"stop_reason":"end_turn"},"usage":{"output_tokens":5}}"#),
        make_event("message_stop", r#"{"type":"message_stop"}"#),
    ];

    let mut output = Vec::new();
    for e in events {
        output.extend(interceptor.process_event(e));
    }

    assert_eq!(output.len(), 6);
    assert_eq!(output[0].event_type, "message_start");
    assert_eq!(output[1].event_type, "content_block_start");
    assert!(interceptor.intercepts.is_empty());
}

#[test]
fn test_safe_tool_use_passthrough() {
    let rules = get_rules();
    let mut interceptor = StreamInterceptor::new(rules, true);

    let events = vec![
        make_event("message_start", r#"{"type":"message_start","message":{"id":"msg_1","type":"message","role":"assistant","content":[],"model":"m1","stop_reason":null,"usage":{"input_tokens":10,"output_tokens":0}}}"#),
        make_event("content_block_start", r#"{"type":"content_block_start","index":0,"content_block":{"type":"tool_use","id":"toolu_1","name":"exec"}}"#),
        make_event("content_block_delta", r#"{"type":"content_block_delta","index":0,"delta":{"type":"input_json_delta","partial_json":"{\"command\": \"ls -la\"}"}}"#),
        make_event("content_block_stop", r#"{"type":"content_block_stop","index":0}"#),
        make_event("message_stop", r#"{"type":"message_stop"}"#),
    ];

    let mut output = Vec::new();
    for e in events {
        output.extend(interceptor.process_event(e));
    }

    assert_eq!(output.len(), 5);
    assert_eq!(output[1].event_type, "content_block_start");
}

#[test]
fn test_dangerous_tool_use_blocked() {
    let rules = get_rules();
    let mut interceptor = StreamInterceptor::new(rules, true);

    let events = vec![
        make_event("message_start", r#"{"type":"message_start","message":{"id":"msg_1","type":"message","role":"assistant","content":[],"model":"m1","stop_reason":null,"usage":{"input_tokens":10,"output_tokens":0}}}"#),
        make_event("content_block_start", r#"{"type":"content_block_start","index":0,"content_block":{"type":"tool_use","id":"toolu_1","name":"exec"}}"#),
        make_event("content_block_delta", r#"{"type":"content_block_delta","index":0,"delta":{"type":"input_json_delta","partial_json":"{\"com"}}"#),
        make_event("content_block_delta", r#"{"type":"content_block_delta","index":0,"delta":{"type":"input_json_delta","partial_json":"mand\": \"rm -rf /\"}"}}"#),
        make_event("content_block_stop", r#"{"type":"content_block_stop","index":0}"#),
        make_event("message_stop", r#"{"type":"message_stop"}"#),
    ];

    let mut output = Vec::new();
    for e in events {
        output.extend(interceptor.process_event(e));
    }

    assert_eq!(output.len(), 5);
    assert_eq!(output[1].event_type, "content_block_start");
    let start_data: serde_json::Value = serde_json::from_str(&output[1].data).unwrap();
    assert_eq!(start_data.pointer("/content_block/type").unwrap(), "text");
    let delta_data: serde_json::Value = serde_json::from_str(&output[2].data).unwrap();
    let text = delta_data.pointer("/delta/text").unwrap().as_str().unwrap();
    assert!(text.contains("MoltBot Harness blocked"));
    assert!(!interceptor.intercepts.is_empty());
}

#[test]
fn test_mixed_blocks() {
    let rules = get_rules();
    let mut interceptor = StreamInterceptor::new(rules, true);

    let events = vec![
        make_event("message_start", r#"{"type":"message_start","message":{"id":"msg_1","type":"message","role":"assistant","content":[],"model":"m1","stop_reason":null,"usage":{"input_tokens":10,"output_tokens":0}}}"#),
        make_event("content_block_start", r#"{"type":"content_block_start","index":0,"content_block":{"type":"text","text":""}}"#),
        make_event("content_block_delta", r#"{"type":"content_block_delta","index":0,"delta":{"type":"text_delta","text":"Let me help"}}"#),
        make_event("content_block_stop", r#"{"type":"content_block_stop","index":0}"#),
        make_event("content_block_start", r#"{"type":"content_block_start","index":1,"content_block":{"type":"tool_use","id":"toolu_1","name":"exec"}}"#),
        make_event("content_block_delta", r#"{"type":"content_block_delta","index":1,"delta":{"type":"input_json_delta","partial_json":"{\"command\": \"rm -rf /\"}"}}"#),
        make_event("content_block_stop", r#"{"type":"content_block_stop","index":1}"#),
        make_event("content_block_start", r#"{"type":"content_block_start","index":2,"content_block":{"type":"tool_use","id":"toolu_2","name":"exec"}}"#),
        make_event("content_block_delta", r#"{"type":"content_block_delta","index":2,"delta":{"type":"input_json_delta","partial_json":"{\"command\": \"ls -la\"}"}}"#),
        make_event("content_block_stop", r#"{"type":"content_block_stop","index":2}"#),
        make_event("message_stop", r#"{"type":"message_stop"}"#),
    ];

    let mut output = Vec::new();
    for e in events {
        output.extend(interceptor.process_event(e));
    }

    assert_eq!(output.len(), 11);
    assert_eq!(output[1].event_type, "content_block_start");

    let blocked_start: serde_json::Value = serde_json::from_str(&output[4].data).unwrap();
    assert_eq!(blocked_start.pointer("/content_block/type").unwrap(), "text");

    let safe_start: serde_json::Value = serde_json::from_str(&output[7].data).unwrap();
    assert_eq!(safe_start.pointer("/content_block/type").unwrap(), "tool_use");

    assert_eq!(interceptor.intercepts.len(), 1);
}

#[test]
fn test_parse_sse_events() {
    let raw = "event: message_start\ndata: {\"type\":\"message_start\"}\n\nevent: content_block_start\ndata: {\"type\":\"content_block_start\"}\n\n";
    let events = parse_sse_events(raw);
    assert_eq!(events.len(), 2);
    assert_eq!(events[0].event_type, "message_start");
    assert_eq!(events[1].event_type, "content_block_start");
}

#[test]
fn test_sse_line_buffer() {
    let mut buf = SseLineBuffer::new();

    let r1 = buf.feed("event: message_start\ndata: {\"type\"");
    assert!(r1.is_empty());

    let r2 = buf.feed(":\"message_start\"}\n\nevent: ping\ndata: {}\n\n");
    assert_eq!(r2.len(), 2);
}

#[test]
fn test_openai_streaming_block() {
    let rules = get_rules();
    let mut interceptor = StreamInterceptor::new(rules, true);

    let events = vec![
        make_event("message", r#"{"id":"chatcmpl-1","choices":[{"delta":{"role":"assistant"},"index":0}]}"#),
        make_event("message", r#"{"id":"chatcmpl-1","choices":[{"delta":{"tool_calls":[{"index":0,"id":"call_1","type":"function","function":{"name":"exec","arguments":""}}]},"index":0}]}"#),
        make_event("message", r#"{"id":"chatcmpl-1","choices":[{"delta":{"tool_calls":[{"index":0,"function":{"arguments":"{\"com"}}]},"index":0}]}"#),
        make_event("message", r#"{"id":"chatcmpl-1","choices":[{"delta":{"tool_calls":[{"index":0,"function":{"arguments":"mand\": \"rm -rf /\"}"}}]},"index":0}]}"#),
        make_event("message", r#"{"id":"chatcmpl-1","choices":[{"delta":{},"index":0,"finish_reason":"tool_calls"}]}"#),
    ];

    let mut output = Vec::new();
    for e in events {
        output.extend(interceptor.process_event(e));
    }

    assert!(!interceptor.intercepts.is_empty());
    let has_blocked = output.iter().any(|e| e.data.contains("MoltBot Harness blocked"));
    assert!(has_blocked, "Should contain block message, got: {:?}", output.iter().map(|e| e.data.clone()).collect::<Vec<_>>());
}

#[test]
fn test_openai_streaming_passthrough() {
    let rules = get_rules();
    let mut interceptor = StreamInterceptor::new(rules, true);

    let events = vec![
        make_event("message", r#"{"id":"chatcmpl-1","choices":[{"delta":{"role":"assistant"},"index":0}]}"#),
        make_event("message", r#"{"id":"chatcmpl-1","choices":[{"delta":{"tool_calls":[{"index":0,"id":"call_1","type":"function","function":{"name":"exec","arguments":""}}]},"index":0}]}"#),
        make_event("message", r#"{"id":"chatcmpl-1","choices":[{"delta":{"tool_calls":[{"index":0,"function":{"arguments":"{\"command\": \"ls -la\"}"}}]},"index":0}]}"#),
        make_event("message", r#"{"id":"chatcmpl-1","choices":[{"delta":{},"index":0,"finish_reason":"tool_calls"}]}"#),
    ];

    let mut output = Vec::new();
    for e in events {
        output.extend(interceptor.process_event(e));
    }

    assert!(interceptor.intercepts.is_empty());
    let has_blocked = output.iter().any(|e| e.data.contains("MoltBot Harness blocked"));
    assert!(!has_blocked);
}

#[test]
fn test_gemini_streaming_block() {
    let rules = get_rules();
    let mut interceptor = StreamInterceptor::new(rules, true);

    let event = make_event("message", r#"{"candidates":[{"content":{"parts":[{"functionCall":{"name":"exec","args":{"command":"rm -rf /"}}}]},"finishReason":"STOP"}]}"#);

    let output = interceptor.process_event(event);
    assert!(!interceptor.intercepts.is_empty());
    assert!(output[0].data.contains("MoltBot Harness blocked"));
}

#[test]
fn test_gemini_streaming_passthrough() {
    let rules = get_rules();
    let mut interceptor = StreamInterceptor::new(rules, true);

    let event = make_event("message", r#"{"candidates":[{"content":{"parts":[{"functionCall":{"name":"exec","args":{"command":"ls -la"}}}]},"finishReason":"STOP"}]}"#);

    let output = interceptor.process_event(event);
    assert!(interceptor.intercepts.is_empty());
    assert!(!output[0].data.contains("MoltBot Harness blocked"));
}

#[test]
fn test_monitor_mode_no_block() {
    let rules = get_rules();
    let mut interceptor = StreamInterceptor::new(rules, false);

    let events = vec![
        make_event("content_block_start", r#"{"type":"content_block_start","index":0,"content_block":{"type":"tool_use","id":"toolu_1","name":"exec"}}"#),
        make_event("content_block_delta", r#"{"type":"content_block_delta","index":0,"delta":{"type":"input_json_delta","partial_json":"{\"command\": \"rm -rf /\"}"}}"#),
        make_event("content_block_stop", r#"{"type":"content_block_stop","index":0}"#),
    ];

    let mut output = Vec::new();
    for e in events {
        output.extend(interceptor.process_event(e));
    }

    assert_eq!(output.len(), 3);
    let start_data: serde_json::Value = serde_json::from_str(&output[0].data).unwrap();
    assert_eq!(start_data.pointer("/content_block/type").unwrap(), "tool_use");
    assert_eq!(interceptor.intercepts.len(), 1);
}

#[test]
fn test_split_feeding_matches_single_feed() {
    let stream = "event: a\ndata: {\"k\":1}\n\nevent: b\ndata: {\"k\":2}\n\nevent: c\ndata: {\"k\":3}\n\n";
    let whole: Vec<String> = {
        let mut buf = SseLineBuffer::new();
        buf.feed(stream)
    };
    for cut in [1usize, 7, 13, 20, stream.len() - 2] {
        let mut buf = SseLineBuffer::new();
        let mut parts = buf.feed(&stream[..cut]);
        parts.extend(buf.feed(&stream[cut..]));
        assert_eq!(parts, whole, "split at {} changed the output", cut);
    }
}

#[test]
fn test_boundary_chunk_yields_nothing_premature() {
    let mut buf = SseLineBuffer::new();
    let r1 = buf.feed("event: e\ndata: {\"command\": \"rm");
    assert!(r1.is_empty());
    let r2 = buf.feed(" -rf /\"}\n\n");
    assert_eq!(r2.len(), 1);
    let events = parse_sse_events(&r2[0]);
    assert_eq!(events.len(), 1);
    assert_eq!(events[0].data, "{\"command\": \"rm -rf /\"}");
}

#[test]
fn test_event_serialization_round() {
    let e = SseEvent { event_type: "ping".to_string(), data: "{}".to_string() };
    assert_eq!(e.to_sse_string(), "event: ping\ndata: {}\n\n");
    assert_eq!(e.to_sse_bytes(), b"event: ping\ndata: {}\n\n".to_vec());
}
