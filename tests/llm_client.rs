use clawdbot_server::llm_client::{
    generate_url, health_url, is_event_stream, normalize_base_url, SseDecoder,
};

#[test]
fn sse_lines_become_tokens() {
    let mut d = SseDecoder::new();
    assert_eq!(d.feed("data: He\ndata: l"), vec!["He".to_string()]);
    assert_eq!(d.feed("lo\r\n: comment\n\ndata:  sp\n"), vec!["llo".to_string(), " sp".to_string()]);
    assert!(!d.is_finished());
    assert_eq!(d.feed("data: [DONE]\ndata: late\n"), Vec::<String>::new());
    assert!(d.is_finished());
    assert!(d.feed("data: more\n").is_empty());
}

#[test]
fn sse_without_newline_waits() {
    let mut d = SseDecoder::new();
    assert!(d.feed("data: x").is_empty());
    assert_eq!(d.feed("\r\r\n"), vec!["x".to_string()]);
}

#[test]
fn base_url_and_endpoints() {
    assert_eq!(normalize_base_url("http://127.0.0.1:8000//"), "http://127.0.0.1:8000");
    assert_eq!(normalize_base_url("http://h"), "http://h");
    assert_eq!(generate_url("http://h"), "http://h/generate");
    assert_eq!(health_url("http://h"), "http://h/health");
}

#[test]
fn event_stream_content_type() {
    assert!(is_event_stream("text/event-stream"));
    assert!(is_event_stream("text/event-stream; charset=utf-8"));
    assert!(!is_event_stream("application/json"));
    assert!(!is_event_stream(""));
}
