use pdforge_adapter::body::{BodyError, ChunkRead, parse_body};
use pdforge_adapter::headers::parse_headers;
use pdforge_adapter::payload::PdforgeGeneratePdfPayload;
use pdforge_adapter::response::{
    ResponseOutparam, build_response, build_response_html, build_response_json,
    build_response_json_error,
};

#[test]
fn parse_headers_lowercases_and_keeps_order() {
    let raw = vec![
        ("Content-Type".to_string(), b"text/plain".to_vec()),
        ("X-Multi".to_string(), b"one".to_vec()),
        ("x-multi".to_string(), b"two".to_vec()),
    ];
    let map = parse_headers(&raw);
    assert_eq!(map.entry_count(), 2);
    assert_eq!(
        map.get_all("content-type"),
        Some(&vec!["text/plain".to_string()])
    );
    assert_eq!(
        map.get_all("x-multi"),
        Some(&vec!["one".to_string(), "two".to_string()])
    );
    assert_eq!(map.get_all("absent"), None);
}

#[test]
fn parse_headers_decodes_invalid_utf8_leniently() {
    let raw = vec![("x-bin".to_string(), vec![0x66, 0xff, 0x6f])];
    let map = parse_headers(&raw);
    let values = map.get_all("x-bin").unwrap();
    assert_eq!(values.len(), 1);
    assert_eq!(values[0], "f\u{fffd}o");
}

#[test]
fn parse_body_concatenates_chunks_in_order() {
    let chunks = vec![
        ChunkRead::Data(b"hello ".to_vec()),
        ChunkRead::Data(b"world".to_vec()),
        ChunkRead::Closed,
    ];
    assert_eq!(parse_body(chunks).unwrap(), b"hello world".to_vec());
}

#[test]
fn parse_body_stops_at_empty_chunk() {
    let chunks = vec![
        ChunkRead::Data(b"head".to_vec()),
        ChunkRead::Data(Vec::new()),
        ChunkRead::Data(b"ignored".to_vec()),
    ];
    assert_eq!(parse_body(chunks).unwrap(), b"head".to_vec());
}

#[test]
fn parse_body_drained_stream_is_empty_success() {
    assert_eq!(parse_body(Vec::new()).unwrap(), Vec::<u8>::new());
}

#[test]
fn parse_body_failure_is_total() {
    let chunks = vec![
        ChunkRead::Data(b"partial".to_vec()),
        ChunkRead::Failed("connection reset".to_string()),
    ];
    match parse_body(chunks) {
        Err(BodyError::ReadFailed(detail)) => {
            assert_eq!(detail, "Failed to read from request stream: connection reset");
        }
        other => panic!("expected a read failure, got {other:?}"),
    }
}

#[test]
fn payload_serialization_has_fixed_shape() {
    let payload = PdforgeGeneratePdfPayload::new(r#"{"a":1}"#, "tpl-1");
    assert_eq!(payload.to_json(), r#"{"templateId":"tpl-1","data":{"a":1}}"#);
}

#[test]
fn payload_template_id_is_json_encoded() {
    // A template id holding a quote must come out escaped, not verbatim.
    let payload = PdforgeGeneratePdfPayload::new("0", "t\"x");
    assert_eq!(payload.to_json(), "{\"templateId\":\"t\\\"x\",\"data\":0}");
}

#[test]
fn payload_round_trips_its_data_text() {
    let data = r#"{"username":"JohnyDoe","email":"John@Doe.com"}"#;
    let payload = PdforgeGeneratePdfPayload::new(data, "tpl-1");
    let text = payload.to_json();
    assert_eq!(
        PdforgeGeneratePdfPayload::read_data(&text, "tpl-1").as_deref(),
        Some(data)
    );
}

#[test]
fn payload_round_trips_at_the_json_level() {
    // Encoding a request body into the payload and reading `data` back with
    // a real JSON parser yields the original value unchanged.
    let original: serde_json::Value =
        serde_json::from_str(r#"{"username": "JohnyDoe", "nested": {"n": [1, 2, 3]}}"#).unwrap();
    let normalized = serde_json::to_string(&original).unwrap();
    let payload = PdforgeGeneratePdfPayload::new(&normalized, "tpl-1");
    let parsed: serde_json::Value = serde_json::from_str(&payload.to_json()).unwrap();
    assert_eq!(parsed.get("data"), Some(&original));
    assert_eq!(
        parsed.get("templateId"),
        Some(&serde_json::Value::String("tpl-1".to_string()))
    );
}

#[test]
fn read_data_rejects_a_foreign_payload() {
    assert_eq!(
        PdforgeGeneratePdfPayload::read_data(r#"{"other":true}"#, "tpl-1"),
        None
    );
}

#[test]
fn build_response_sets_all_three_parts() {
    let builder = build_response("abc", 200, "text/plain");
    let slot = builder.send(ResponseOutparam::new());
    assert_eq!(slot.committed_status(), Some(200));
    assert_eq!(slot.body_text(), "abc");
    let headers = slot.committed_headers().unwrap();
    assert_eq!(
        headers.get_all("content-type"),
        Some(&vec!["text/plain".to_string()])
    );
}

#[test]
fn build_response_html_uses_html_content_type() {
    let builder = build_response_html("<p>hi</p>", 201);
    let slot = builder.send(ResponseOutparam::new());
    assert_eq!(slot.committed_status(), Some(201));
    let headers = slot.committed_headers().unwrap();
    assert_eq!(
        headers.get_all("content-type"),
        Some(&vec!["text/html; charset=utf-8".to_string()])
    );
}

#[test]
fn build_response_json_error_wraps_the_message() {
    let builder = build_response_json_error("fail", 500);
    let slot = builder.send(ResponseOutparam::new());
    assert_eq!(slot.committed_status(), Some(500));
    assert_eq!(slot.body_text(), r#"{"error": "fail"}"#);
}

#[test]
fn builder_setters_shape_the_committed_response() {
    let mut builder = pdforge_adapter::response::ResponseBuilder::default();
    builder.set_header("X-Custom", "one");
    builder.set_header("x-custom", "two");
    builder.set_status_code(404);
    builder.set_body("hello world");
    let slot = builder.send(ResponseOutparam::new());
    assert_eq!(slot.committed_status(), Some(404));
    assert_eq!(slot.body_text(), "hello world");
    let headers = slot.committed_headers().unwrap();
    // `set_header` replaces: only the second value survives, under the
    // lower-cased name.
    assert_eq!(headers.get_all("x-custom"), Some(&vec!["two".to_string()]));
}

#[test]
fn send_finalizes_exactly_once_with_a_body() {
    let builder = build_response_json(r#"{"ok":true}"#, 200);
    let slot = builder.send(ResponseOutparam::new());
    assert_eq!(slot.writes(), 1);
    assert_eq!(slot.finishes(), 1);
}

#[test]
fn send_finalizes_exactly_once_without_a_body() {
    let builder = pdforge_adapter::response::ResponseBuilder::new();
    let slot = builder.send(ResponseOutparam::new());
    assert_eq!(slot.writes(), 0);
    assert_eq!(slot.finishes(), 1);
    assert_eq!(slot.body_text(), "");
    assert_eq!(slot.committed_status(), Some(200));
}
