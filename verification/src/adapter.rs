//! The per-request decision core: each stage of the request is a function
//! from plain values to either the next stage's input or a finished
//! error-shaped response. The transport layer performs the reads, the one
//! outbound POST and the final commit, and hands the results back in.

use vstd::prelude::*;
use crate::body::BodyError;
use crate::headers::{HeaderMap, replace_value, str_eq};
use crate::json::{json_norm, json_wf, normalize_json};
use crate::payload::{PdforgeGeneratePdfPayload, UpstreamCall, payload_text, pdforge_endpoint};
use crate::response::{
    ResponseBuilder, build_response_json, build_response_json_error, error_body,
};
use crate::settings::{
    Settings, settings_api_key, settings_ok, settings_template_id,
};

verus! {

/// The fixed response body for a request whose tenant settings could not be
/// extracted.
pub open spec fn settings_error_message() -> Seq<char> {
    "Failed to parse component settings, missing Pdforge API Key"@
}

/// The JSON content type, as every response of the adapter carries it.
pub open spec fn json_content_type(m: crate::headers::HeadersModel) -> bool {
    m == replace_value(
        Seq::<(Seq<char>, Seq<Seq<char>>)>::empty(),
        "content-type"@,
        "application/json"@,
    )
}

/// One inbound request, as the transport hands it over: its method, its
/// parsed header map, and its body fully materialized into one buffer.
pub struct RequestEnvelope {
    pub method: String,
    pub headers: HeaderMap,
    pub body: Vec<u8>,
}

impl RequestEnvelope {
    /// The envelope's invariant: its header map is well-formed.
    pub open spec fn wf(&self) -> bool {
        self.headers.wf()
    }
}

/// What to do after looking at a request's method and headers: answer
/// right away, or go on to read the body with the extracted settings.
pub enum RequestStep {
    /// Short-circuit: commit this response, read nothing further.
    Respond(ResponseBuilder),
    /// Method and settings are good: read the body next.
    ReadBody(Settings),
}

/// What to do after reading the body: answer right away, or perform this
/// one outbound POST.
pub enum BodyStep {
    /// Short-circuit: commit this response.
    Respond(ResponseBuilder),
    /// Perform the outbound call and hand its outcome back in.
    Call(UpstreamCall),
}

/// Look at an inbound request's method and headers. Only `POST` is
/// accepted; then the tenant settings must extract. Either failure ends the
/// request with an error-shaped response before any of the body is read;
/// otherwise the body is read next.
pub fn on_request(method: &str, headers: &HeaderMap) -> (r: RequestStep)
    requires
        headers.wf(),
    ensures
        (r is ReadBody) <==> (method@ == "POST"@ && settings_ok(headers@)),
        (r is ReadBody) ==> (r->ReadBody_0).api_key@ == settings_api_key(headers@),
        (r is ReadBody) ==> (r->ReadBody_0).template_id@ == settings_template_id(headers@),
        method@ != "POST"@ ==> (r is Respond && (r->Respond_0).wf() && (
        r->Respond_0).status_spec() == 400 && (r->Respond_0).body_spec() == Some(
            error_body("Unsupported method"@),
        ) && json_content_type((r->Respond_0).headers_spec())),
        (method@ == "POST"@ && !settings_ok(headers@)) ==> (r is Respond && (
        r->Respond_0).wf() && (r->Respond_0).status_spec() == 500 && (
        r->Respond_0).body_spec() == Some(error_body(settings_error_message()))
            && json_content_type((r->Respond_0).headers_spec())),
{
    if !str_eq(method, "POST") {
        return RequestStep::Respond(build_response_json_error("Unsupported method", 400));
    }
    match Settings::new(headers) {
        Ok(settings) => RequestStep::ReadBody(settings),
        Err(_) => RequestStep::Respond(
            build_response_json_error(
                "Failed to parse component settings, missing Pdforge API Key",
                500,
            ),
        ),
    }
}

/// Look at the request body once it is fully read. A well-formed JSON body
/// becomes the one outbound POST: the fixed endpoint, a JSON content type,
/// a bearer authorization for the tenant's API key, and the payload
/// wrapping the re-serialized body beside the tenant's template id. A
/// malformed body ends the request with the parse failure detail under
/// status 400.
pub fn on_body(settings: &Settings, body: &Vec<u8>) -> (r: BodyStep)
    ensures
        (r is Call) <==> json_wf(body@),
        (r is Call) ==> (r->Call_0).url@ == pdforge_endpoint(),
        (r is Call) ==> (r->Call_0).content_type@ == "application/json"@,
        (r is Call) ==> (r->Call_0).authorization@ == "Bearer "@ + settings.api_key@,
        (r is Call) ==> (r->Call_0).body@ == payload_text(
            settings.template_id@,
            json_norm(body@),
        ),
        !json_wf(body@) ==> (r is Respond && (r->Respond_0).wf() && (
        r->Respond_0).status_spec() == 400 && (exists|detail: Seq<char>|
            (r->Respond_0).body_spec() == Some(error_body(detail))) && json_content_type(
            (r->Respond_0).headers_spec(),
        )),
{
    match normalize_json(body.as_slice()) {
        Ok(norm) => {
            let payload = PdforgeGeneratePdfPayload::new(
                norm.as_str(),
                settings.template_id.as_str(),
            );
            BodyStep::Call(payload.request(settings.api_key.as_str()))
        },
        Err(detail) => {
            let err = BodyError::InvalidJson(detail);
            BodyStep::Respond(build_response_json_error(err.message(), 400))
        },
    }
}

/// Turn a failed body read into its response: the read failure's detail,
/// error-shaped, under status 400.
pub fn on_body_error(e: &BodyError) -> (r: ResponseBuilder)
    ensures
        r.wf(),
        r.status_spec() == 400,
        r.body_spec() == Some(error_body(e.message_spec())),
        json_content_type(r.headers_spec()),
{
    build_response_json_error(e.message(), 400)
}

/// Turn the upstream response into the outbound one. A body that holds
/// well-formed JSON is re-serialized and passed through verbatim under the
/// upstream's own status code; anything else — a malformed body, or none —
/// is never forwarded and becomes the fixed parse-failure response under
/// status 500. Either way the response carries the JSON content type.
pub fn on_upstream(status: u16, body: Option<Vec<u8>>) -> (r: ResponseBuilder)
    ensures
        r.wf(),
        json_content_type(r.headers_spec()),
        json_wf(upstream_bytes(body)) ==> (r.status_spec() == status && r.body_spec() == Some(
            json_norm(upstream_bytes(body)),
        )),
        !json_wf(upstream_bytes(body)) ==> (r.status_spec() == 500 && r.body_spec() == Some(
            error_body("Failed to parse Pdforge response"@),
        )),
{
    let ghost ob = upstream_bytes(body);
    let bytes = match body {
        Some(b) => b,
        None => Vec::new(),
    };
    proof {
        assert(bytes@ =~= ob);
    }
    match normalize_json(bytes.as_slice()) {
        Ok(norm) => build_response_json(norm.as_str(), status),
        Err(_) => build_response_json_error("Failed to parse Pdforge response", 500),
    }
}

/// The bytes an upstream response handed over: its body, or none at all.
pub open spec fn upstream_bytes(body: Option<Vec<u8>>) -> Seq<u8> {
    match body {
        Some(b) => b@,
        None => Seq::empty(),
    }
}

/// Turn an unreachable upstream into its response: the failure detail,
/// error-shaped, under status 500.
pub fn on_upstream_error(detail: &str) -> (r: ResponseBuilder)
    ensures
        r.wf(),
        r.status_spec() == 500,
        r.body_spec() == Some(error_body(detail@)),
        json_content_type(r.headers_spec()),
{
    build_response_json_error(detail, 500)
}

} // verus!
