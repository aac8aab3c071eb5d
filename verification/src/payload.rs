//! The outbound payload: the JSON object posted to the PDF-generation API,
//! wrapping the request body unmodified beside the template id.

use vstd::prelude::*;
use crate::json::{json_str_lit, json_string};
use vstd::string::StringExecFns;
use vstd::string::StrSliceExecFns;
use crate::headers::str_eq;

verus! {

/// The fixed endpoint of the PDF-generation API.
pub open spec fn pdforge_endpoint() -> Seq<char> {
    "https://api.pdforge.com/v1/pdf/sync"@
}

/// Everything up to and including the `data` field name in the payload
/// text: the opening brace, the template id under its fixed field name, and
/// the `data` key.
pub open spec fn payload_head(tid: Seq<char>) -> Seq<char> {
    "{\"templateId\":"@ + json_str_lit(tid) + ",\"data\":"@
}

/// The payload text for a template id and a (JSON) data text: the data
/// stands verbatim between the fixed head and the closing brace.
pub open spec fn payload_text(tid: Seq<char>, data: Seq<char>) -> Seq<char> {
    payload_head(tid) + data + "}"@
}

/// Reading the `data` field back out of a payload text for a known template
/// id: the text between the head and the final closing brace, if the text
/// has that shape.
pub open spec fn payload_data(p: Seq<char>, tid: Seq<char>) -> Option<Seq<char>> {
    let h = payload_head(tid);
    if p.len() > h.len() && p.take(h.len() as int) == h && p.skip(p.len() - 1) == "}"@ {
        Some(p.subrange(h.len() as int, p.len() - 1))
    } else {
        None
    }
}

/// Round trip: the payload built from a template id and a data text gives
/// that data text back unchanged when its `data` field is read out.
pub proof fn lemma_payload_round_trip(tid: Seq<char>, data: Seq<char>)
    ensures
        payload_data(payload_text(tid, data), tid) == Some(data),
{
    reveal_strlit("}");
    let h = payload_head(tid);
    let p = payload_text(tid, data);
    assert(p.len() == h.len() + data.len() + 1);
    assert(p.take(h.len() as int) =~= h);
    assert(p.skip(p.len() - 1) =~= "}"@);
    assert(p.subrange(h.len() as int, p.len() - 1) =~= data);
}

/// The payload posted to the PDF-generation API: a template id and the
/// request body's JSON text, wrapped under fixed field names.
pub struct PdforgeGeneratePdfPayload {
    pub template_id: String,
    pub pdf_data: String,
}

/// What the one outbound POST is made of: its URL, its two headers and its
/// serialized body.
pub struct UpstreamCall {
    pub url: String,
    pub content_type: String,
    pub authorization: String,
    pub body: String,
}

impl PdforgeGeneratePdfPayload {
    /// Wrap a (JSON) data text and a template id into a payload. Nothing
    /// here can fail: the data's shape is the upstream API's business.
    pub fn new(pdf_data: &str, template_id: &str) -> (r: Self)
        ensures
            r.pdf_data@ == pdf_data@,
            r.template_id@ == template_id@,
    {
        PdforgeGeneratePdfPayload {
            template_id: template_id.to_owned(),
            pdf_data: pdf_data.to_owned(),
        }
    }

    /// Serialize the payload: the template id as a JSON string under
    /// `templateId`, the data text verbatim under `data`.
    pub fn to_json(&self) -> (r: String)
        ensures
            r@ == payload_text(self.template_id@, self.pdf_data@),
    {
        let lit = json_string(self.template_id.as_str());
        "{\"templateId\":".to_owned().concat(lit.as_str()).concat(",\"data\":").concat(
            self.pdf_data.as_str(),
        ).concat("}")
    }

    /// Read the `data` field back out of a payload text, given the template
    /// id the payload was built with.
    pub fn read_data(payload: &str, template_id: &str) -> (r: Option<String>)
        ensures
            (r is Some) <==> (payload_data(payload@, template_id@) is Some),
            (r is Some) ==> Some((r->0)@) == payload_data(payload@, template_id@),
    {
        let lit = json_string(template_id);
        let head = "{\"templateId\":".to_owned().concat(lit.as_str()).concat(",\"data\":");
        let plen = payload.unicode_len();
        let hlen = head.as_str().unicode_len();
        if plen > hlen && str_eq(payload.substring_char(0, hlen), head.as_str()) && str_eq(
            payload.substring_char(plen - 1, plen),
            "}",
        ) {
            proof {
                assert(payload@.take(hlen as int) =~= payload@.subrange(0, hlen as int));
                assert(payload@.skip(plen - 1) =~= payload@.subrange(
                    plen - 1,
                    payload@.len() as int,
                ));
            }
            Some(payload.substring_char(hlen, plen - 1).to_owned())
        } else {
            proof {
                assert(payload@.take(hlen as int) =~= payload@.subrange(0, hlen as int));
                if payload@.len() > hlen {
                    assert(payload@.skip(plen - 1) =~= payload@.subrange(
                        plen - 1,
                        payload@.len() as int,
                    ));
                }
            }
            None
        }
    }

    /// The one outbound POST this payload and an API key give rise to:
    /// the fixed endpoint, a JSON content type, a bearer authorization for
    /// the key, and the serialized payload as the body.
    pub fn request(&self, api_key: &str) -> (r: UpstreamCall)
        ensures
            r.url@ == pdforge_endpoint(),
            r.content_type@ == "application/json"@,
            r.authorization@ == "Bearer "@ + api_key@,
            r.body@ == payload_text(self.template_id@, self.pdf_data@),
    {
        UpstreamCall {
            url: "https://api.pdforge.com/v1/pdf/sync".to_owned(),
            content_type: "application/json".to_owned(),
            authorization: "Bearer ".to_owned().concat(api_key),
            body: self.to_json(),
        }
    }
}

} // verus!
