use pdforge_adapter::adapter::{
    BodyStep, RequestEnvelope, RequestStep, on_body, on_request, on_upstream,
};
use pdforge_adapter::headers::HeaderMap;
use pdforge_adapter::response::ResponseOutparam;
use pdforge_adapter::settings::Settings;

fn settings_headers() -> HeaderMap {
    let mut headers = HeaderMap::new();
    headers.append(
        "x-edgee-component-settings",
        r#"{"api_key": "test_value", "template_id": "test_template_id"}"#.to_string(),
    );
    headers
}

#[test]
fn test_handle_json_request_success() {
    let headers = settings_headers();
    let body = r#"{"username": "JohnyDoe", "email": "John@Doe.com"}"#.as_bytes().to_vec();

    let settings = match on_request("POST", &headers) {
        RequestStep::ReadBody(settings) => settings,
        RequestStep::Respond(_) => panic!("expected the request to be accepted"),
    };
    assert_eq!(settings.api_key, "test_value");
    assert_eq!(settings.template_id, "test_template_id");

    // The well-formed body must lead to the one outbound call.
    let send_called = matches!(on_body(&settings, &body), BodyStep::Call(_));
    assert!(send_called);

    // The upstream answers 200 with a signed URL; the adapter passes it on.
    let upstream_body = r#"{"signedUrl":"https://example.com/signed-url"}"#.as_bytes().to_vec();
    let builder = on_upstream(200, Some(upstream_body));
    let slot = builder.send(ResponseOutparam::new());
    assert_eq!(slot.committed_status(), Some(200));
    assert_eq!(
        slot.body_text(),
        r#"{"signedUrl":"https://example.com/signed-url"}"#
    );
}

#[test]
fn missing_settings_header_gives_fixed_500() {
    let headers = HeaderMap::new();
    let builder = match on_request("POST", &headers) {
        RequestStep::Respond(builder) => builder,
        RequestStep::ReadBody(_) => panic!("expected a short-circuit response"),
    };
    let slot = builder.send(ResponseOutparam::new());
    assert_eq!(slot.committed_status(), Some(500));
    assert_eq!(
        slot.body_text(),
        r#"{"error": "Failed to parse component settings, missing Pdforge API Key"}"#
    );
    let headers = slot.committed_headers().unwrap();
    assert_eq!(
        headers.get_all("content-type"),
        Some(&vec!["application/json".to_string()])
    );
}

#[test]
fn non_post_method_is_rejected_before_anything_else() {
    // Even with perfectly good settings, a GET is answered right away.
    let headers = settings_headers();
    let builder = match on_request("GET", &headers) {
        RequestStep::Respond(builder) => builder,
        RequestStep::ReadBody(_) => panic!("expected a short-circuit response"),
    };
    let slot = builder.send(ResponseOutparam::new());
    assert_eq!(slot.committed_status(), Some(400));
    assert_eq!(slot.body_text(), r#"{"error": "Unsupported method"}"#);
}

#[test]
fn upstream_201_with_json_body_is_passed_through() {
    let upstream_body = r#"{"signedUrl":"https://x"}"#.as_bytes().to_vec();
    let builder = on_upstream(201, Some(upstream_body));
    let slot = builder.send(ResponseOutparam::new());
    assert_eq!(slot.committed_status(), Some(201));
    assert_eq!(slot.body_text(), r#"{"signedUrl":"https://x"}"#);
    let headers = slot.committed_headers().unwrap();
    assert_eq!(
        headers.get_all("content-type"),
        Some(&vec!["application/json".to_string()])
    );
}

#[test]
fn upstream_non_json_body_is_never_forwarded() {
    let upstream_body = b"<html>oops</html>".to_vec();
    let builder = on_upstream(200, Some(upstream_body));
    let slot = builder.send(ResponseOutparam::new());
    assert_eq!(slot.committed_status(), Some(500));
    assert_eq!(
        slot.body_text(),
        r#"{"error": "Failed to parse Pdforge response"}"#
    );
}

#[test]
fn upstream_missing_body_is_a_parse_failure() {
    let builder = on_upstream(200, None);
    let slot = builder.send(ResponseOutparam::new());
    assert_eq!(slot.committed_status(), Some(500));
    assert_eq!(
        slot.body_text(),
        r#"{"error": "Failed to parse Pdforge response"}"#
    );
}

#[test]
fn malformed_request_body_gives_400() {
    let headers = settings_headers();
    let settings = match on_request("POST", &headers) {
        RequestStep::ReadBody(settings) => settings,
        RequestStep::Respond(_) => panic!("expected the request to be accepted"),
    };
    let body = b"{not json".to_vec();
    let builder = match on_body(&settings, &body) {
        BodyStep::Respond(builder) => builder,
        BodyStep::Call(_) => panic!("expected a short-circuit response"),
    };
    let slot = builder.send(ResponseOutparam::new());
    assert_eq!(slot.committed_status(), Some(400));
    let text = slot.body_text();
    assert!(text.starts_with(r#"{"error": ""#));
    assert!(text.ends_with(r#""}"#));
}

#[test]
fn raw_transport_headers_feed_the_whole_flow() {
    // Headers exactly as a transport hands them over: names in mixed case,
    // values as bytes.
    let raw = vec![
        ("Content-Type".to_string(), b"application/json".to_vec()),
        (
            "X-Edgee-Component-Settings".to_string(),
            br#"{"api_key": "k", "template_id": "t"}"#.to_vec(),
        ),
    ];
    let headers = pdforge_adapter::headers::parse_headers(&raw);
    let settings = match on_request("POST", &headers) {
        RequestStep::ReadBody(settings) => settings,
        RequestStep::Respond(_) => panic!("expected the request to be accepted"),
    };
    assert_eq!(settings.api_key, "k");
    assert_eq!(settings.template_id, "t");
}

#[test]
fn settings_extract_from_whole_envelope() {
    let req = RequestEnvelope {
        method: "POST".to_string(),
        headers: settings_headers(),
        body: b"{}".to_vec(),
    };
    let settings = Settings::from_req(&req).unwrap();
    assert_eq!(settings.api_key, "test_value");
    assert_eq!(settings.template_id, "test_template_id");
}

#[test]
fn upstream_body_is_reserialized_not_echoed() {
    // Stray whitespace in the upstream body must not survive: the body is
    // parsed and printed again, not passed along byte for byte.
    let upstream_body = br#"{ "a" :  1 }"#.to_vec();
    let builder = on_upstream(200, Some(upstream_body));
    let slot = builder.send(ResponseOutparam::new());
    assert_eq!(slot.body_text(), r#"{"a":1}"#);
}

#[test]
fn outbound_call_carries_endpoint_auth_and_payload() {
    let headers = settings_headers();
    let settings = match on_request("POST", &headers) {
        RequestStep::ReadBody(settings) => settings,
        RequestStep::Respond(_) => panic!("expected the request to be accepted"),
    };
    let body = br#"{"a": 1}"#.to_vec();
    let call = match on_body(&settings, &body) {
        BodyStep::Call(call) => call,
        BodyStep::Respond(_) => panic!("expected the outbound call"),
    };
    assert_eq!(call.url, "https://api.pdforge.com/v1/pdf/sync");
    assert_eq!(call.content_type, "application/json");
    assert_eq!(call.authorization, "Bearer test_value");
    assert_eq!(
        call.body,
        r#"{"templateId":"test_template_id","data":{"a":1}}"#
    );
}
