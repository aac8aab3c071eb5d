//! The response builder: constructs the outbound response (status, headers,
//! body) for success and error paths alike, and commits it to the outbound
//! slot exactly once, with the body written at most once and the stream
//! finalized exactly once on every path.

use vstd::prelude::*;
use crate::headers::{HeaderMap, HeadersModel, lower_char, lower_seq, replace_value};
use vstd::string::StringExecFns;

verus! {

/// The one header name the builder helpers set carries no upper-case
/// letter, so storing it lower-cased stores it as it stands.
proof fn lemma_content_type_is_lowercase()
    ensures
        lower_seq("content-type"@) == "content-type"@,
{
    reveal_strlit("content-type");
    assert(lower_seq("content-type"@) =~= "content-type"@) by {
        assert forall|i: int| 0 <= i < "content-type"@.len() implies lower_char(
            "content-type"@[i],
        ) == "content-type"@[i] by {
            let c = "content-type"@[i];
            if 'A' <= c && c <= 'Z' {
                assert(false);
            }
        }
    }
}

/// The error-shaped JSON body for a message. The message is inserted into
/// the template without escaping: callers keep messages free of characters
/// that would break a JSON string literal.
pub open spec fn error_body(msg: Seq<char>) -> Seq<char> {
    "{\"error\": \""@ + msg + "\"}"@
}

/// An outbound response under construction: status code, headers, optional
/// body.
pub struct ResponseBuilder {
    headers: HeaderMap,
    status_code: u16,
    body_content: Option<String>,
}

/// The model of the host's response slot: it takes one committed response,
/// counts the writes to the outbound body stream and the times the stream
/// was finalized. The transport layer replays a filled slot outward.
pub struct ResponseOutparam {
    sent: Option<(u16, HeaderMap)>,
    body_written: String,
    write_count: u64,
    finish_count: u64,
}

impl ResponseBuilder {
    /// The headers of the response under construction.
    pub closed spec fn headers_spec(&self) -> HeadersModel {
        self.headers@
    }

    /// The status code of the response under construction.
    pub closed spec fn status_spec(&self) -> u16 {
        self.status_code
    }

    /// The body of the response under construction, if one was set.
    pub closed spec fn body_spec(&self) -> Option<Seq<char>> {
        match self.body_content {
            Some(ref s) => Some(s@),
            None => None,
        }
    }

    /// The builder's invariant: its header map is well-formed.
    pub closed spec fn wf(&self) -> bool {
        self.headers.wf()
    }

    /// A fresh response: status 200, no headers, no body.
    pub fn new() -> (r: ResponseBuilder)
        ensures
            r.wf(),
            r.status_spec() == 200,
            r.headers_spec() == Seq::<(Seq<char>, Seq<Seq<char>>)>::empty(),
            r.body_spec() is None,
    {
        ResponseBuilder { headers: HeaderMap::new(), status_code: 200, body_content: None }
    }

    /// Set a header, replacing any values the name carried before.
    pub fn set_header(&mut self, key: &str, value: &str)
        requires
            old(self).wf(),
        ensures
            final(self).wf(),
            final(self).headers_spec() == replace_value(
                old(self).headers_spec(),
                lower_seq(key@),
                value@,
            ),
            final(self).status_spec() == old(self).status_spec(),
            final(self).body_spec() == old(self).body_spec(),
    {
        self.headers.set(key, value.to_owned());
    }

    /// Set the status code.
    pub fn set_status_code(&mut self, status_code: u16)
        ensures
            final(self).wf() == old(self).wf(),
            final(self).status_spec() == status_code,
            final(self).headers_spec() == old(self).headers_spec(),
            final(self).body_spec() == old(self).body_spec(),
    {
        self.status_code = status_code;
    }

    /// Set the body.
    pub fn set_body(&mut self, body: &str)
        ensures
            final(self).wf() == old(self).wf(),
            final(self).body_spec() == Some(body@),
            final(self).status_spec() == old(self).status_spec(),
            final(self).headers_spec() == old(self).headers_spec(),
    {
        self.body_content = Some(body.to_owned());
    }

    /// Commit the response to the outbound slot: status and headers are
    /// committed once, the body (if any) is written to the outbound stream
    /// exactly once, and the stream is finalized exactly once — also when
    /// there is no body. The slot must still be fresh: a request is answered
    /// at most once.
    pub fn send(self, resp: ResponseOutparam) -> (r: ResponseOutparam)
        requires
            resp.is_fresh(),
        ensures
            r.sent_spec() == Some((self.status_spec(), self.headers_spec())),
            r.finish_count_spec() == 1,
            (self.body_spec() is Some) ==> (r.write_count_spec() == 1 && r.body_written_spec()
                == self.body_spec()->0),
            (self.body_spec() is None) ==> (r.write_count_spec() == 0 && r.body_written_spec()
                == Seq::<char>::empty()),
    {
        let ResponseBuilder { headers, status_code, body_content } = self;
        let mut out = resp;
        out.sent = Some((status_code, headers));
        match body_content {
            Some(b) => {
                out.body_written = b;
                out.write_count = out.write_count + 1;
            },
            None => {},
        }
        out.finish_count = out.finish_count + 1;
        out
    }
}

impl Default for ResponseBuilder {
    /// The default response is the fresh one: status 200, no headers, no
    /// body.
    fn default() -> (r: Self)
        ensures
            r.wf(),
            r.status_spec() == 200,
            r.headers_spec() == Seq::<(Seq<char>, Seq<Seq<char>>)>::empty(),
            r.body_spec() is None,
    {
        ResponseBuilder::new()
    }
}

impl ResponseOutparam {
    /// What was committed: the status code and headers, or `None` while the
    /// slot is still fresh.
    pub closed spec fn sent_spec(&self) -> Option<(u16, HeadersModel)> {
        match self.sent {
            Some((s, ref h)) => Some((s, h@)),
            None => None,
        }
    }

    /// Everything written to the outbound body stream so far.
    pub closed spec fn body_written_spec(&self) -> Seq<char> {
        self.body_written@
    }

    /// How often the outbound body stream was written.
    pub closed spec fn write_count_spec(&self) -> u64 {
        self.write_count
    }

    /// How often the outbound body stream was finalized.
    pub closed spec fn finish_count_spec(&self) -> u64 {
        self.finish_count
    }

    /// A slot nothing was committed to yet.
    pub closed spec fn is_fresh(&self) -> bool {
        &&& self.sent is None
        &&& self.body_written@ == Seq::<char>::empty()
        &&& self.write_count == 0
        &&& self.finish_count == 0
    }

    /// A fresh slot for one request.
    pub fn new() -> (r: ResponseOutparam)
        ensures
            r.is_fresh(),
    {
        ResponseOutparam {
            sent: None,
            body_written: String::new(),
            write_count: 0,
            finish_count: 0,
        }
    }

    /// The committed status code, once one is there.
    pub fn committed_status(&self) -> (r: Option<u16>)
        ensures
            (r is Some) <==> (self.sent_spec() is Some),
            (r is Some) ==> r->0 == (self.sent_spec()->0).0,
    {
        match &self.sent {
            Some((s, _)) => Some(*s),
            None => None,
        }
    }

    /// The committed headers, once they are there.
    pub fn committed_headers(&self) -> (r: Option<&HeaderMap>)
        ensures
            (r is Some) <==> (self.sent_spec() is Some),
            (r is Some) ==> (r->0)@ == (self.sent_spec()->0).1,
    {
        match &self.sent {
            Some((_, h)) => Some(h),
            None => None,
        }
    }

    /// How often the outbound body stream was written.
    pub fn writes(&self) -> (r: u64)
        ensures
            r == self.write_count_spec(),
    {
        self.write_count
    }

    /// How often the outbound body stream was finalized.
    pub fn finishes(&self) -> (r: u64)
        ensures
            r == self.finish_count_spec(),
    {
        self.finish_count
    }

    /// Everything written to the outbound body stream.
    pub fn body_text(&self) -> (r: &str)
        ensures
            r@ == self.body_written_spec(),
    {
        self.body_written.as_str()
    }
}

/// Construct a response carrying a body, a status code and a content type.
pub fn build_response(body: &str, status_code: u16, content_type: &str) -> (r: ResponseBuilder)
    ensures
        r.wf(),
        r.status_spec() == status_code,
        r.body_spec() == Some(body@),
        r.headers_spec() == replace_value(
            Seq::<(Seq<char>, Seq<Seq<char>>)>::empty(),
            "content-type"@,
            content_type@,
        ),
{
    let mut builder = ResponseBuilder::new();
    builder.set_header("content-type", content_type);
    proof {
        lemma_content_type_is_lowercase();
    }
    builder.set_status_code(status_code);
    builder.set_body(body);
    builder
}

/// Construct an HTML response.
pub fn build_response_html(body: &str, status_code: u16) -> (r: ResponseBuilder)
    ensures
        r.wf(),
        r.status_spec() == status_code,
        r.body_spec() == Some(body@),
        r.headers_spec() == replace_value(
            Seq::<(Seq<char>, Seq<Seq<char>>)>::empty(),
            "content-type"@,
            "text/html; charset=utf-8"@,
        ),
{
    build_response(body, status_code, "text/html; charset=utf-8")
}

/// Construct a JSON response.
pub fn build_response_json(body: &str, status_code: u16) -> (r: ResponseBuilder)
    ensures
        r.wf(),
        r.status_spec() == status_code,
        r.body_spec() == Some(body@),
        r.headers_spec() == replace_value(
            Seq::<(Seq<char>, Seq<Seq<char>>)>::empty(),
            "content-type"@,
            "application/json"@,
        ),
{
    build_response(body, status_code, "application/json")
}

/// Construct the error-shaped JSON response for a message: a JSON object
/// with the one `error` field, under the given status code.
pub fn build_response_json_error(message: &str, status_code: u16) -> (r: ResponseBuilder)
    ensures
        r.wf(),
        r.status_spec() == status_code,
        r.body_spec() == Some(error_body(message@)),
        r.headers_spec() == replace_value(
            Seq::<(Seq<char>, Seq<Seq<char>>)>::empty(),
            "content-type"@,
            "application/json"@,
        ),
{
    let body = "{\"error\": \"".to_owned().concat(message).concat("\"}");
    build_response_json(body.as_str(), status_code)
}

} // verus!
