//! The body reader: drains a pull-based chunk stream into one buffer, in a
//! single pass. Empty chunks and a clean closed state end the read; any
//! other stream failure fails the whole request, with no partial buffer.

use vstd::prelude::*;
use vstd::string::StringExecFns;

verus! {

/// One outcome of pulling the inbound body stream.
pub enum ChunkRead {
    /// A chunk of body bytes; an empty chunk signals end-of-data.
    Data(Vec<u8>),
    /// The stream reported a clean closed state: end-of-data.
    Closed,
    /// The stream failed with this detail.
    Failed(String),
}

/// Why the request body could not be obtained.
#[derive(Debug)]
pub enum BodyError {
    /// The body stream failed mid-read; carries the failure detail.
    ReadFailed(String),
    /// The body is not a well-formed JSON document; carries the parse
    /// failure detail.
    InvalidJson(String),
}

impl BodyError {
    /// The message a body failure is described by.
    pub open spec fn message_spec(&self) -> Seq<char> {
        match self {
            BodyError::ReadFailed(d) => d@,
            BodyError::InvalidJson(d) => d@,
        }
    }

    /// Describe the failure.
    pub fn message(&self) -> (r: &str)
        ensures
            r@ == self.message_spec(),
    {
        match self {
            BodyError::ReadFailed(d) => d.as_str(),
            BodyError::InvalidJson(d) => d.as_str(),
        }
    }
}

/// What a single sequential pass over the chunk outcomes yields: the
/// concatenation of the chunks up to the first end-of-data signal, or the
/// detail of the first failure met before one.
pub open spec fn drained(chunks: Seq<ChunkRead>) -> Result<Seq<u8>, Seq<char>>
    decreases chunks.len(),
{
    if chunks.len() == 0 {
        Ok(Seq::empty())
    } else {
        match chunks[0] {
            ChunkRead::Data(d) => if d@.len() == 0 {
                Ok(Seq::empty())
            } else {
                match drained(chunks.drop_first()) {
                    Ok(rest) => Ok(d@ + rest),
                    Err(e) => Err(e),
                }
            },
            ChunkRead::Closed => Ok(Seq::empty()),
            ChunkRead::Failed(e) => Err(e@),
        }
    }
}

/// Drain the inbound body: concatenate the chunks the stream produced, in
/// order, up to the first end-of-data signal (an empty chunk or a clean
/// close). A failing read fails the whole request: no partial buffer comes
/// back, only the failure detail behind a fixed message prefix.
pub fn parse_body(chunks: Vec<ChunkRead>) -> (r: Result<Vec<u8>, BodyError>)
    ensures
        (r is Ok) <==> (drained(chunks@) is Ok),
        (r is Ok) ==> (r->Ok_0)@ == drained(chunks@)->Ok_0,
        (r is Err) ==> (r->Err_0 is ReadFailed && (r->Err_0)->ReadFailed_0@
            == "Failed to read from request stream: "@ + drained(chunks@)->Err_0),
{
    let mut buf: Vec<u8> = Vec::new();
    let n = chunks.len();
    let mut i: usize = 0;
    proof {
        assert(chunks@.skip(0) =~= chunks@);
        if drained(chunks@) is Ok {
            assert(buf@ + drained(chunks@)->Ok_0 =~= drained(chunks@)->Ok_0);
        }
    }
    while i < n
        invariant
            n == chunks@.len(),
            i <= n,
            (drained(chunks@.skip(i as int)) is Ok) ==> drained(chunks@) == Ok::<Seq<u8>, Seq<
                char,
            >>(buf@ + drained(chunks@.skip(i as int))->Ok_0),
            (drained(chunks@.skip(i as int)) is Err) ==> drained(chunks@) == drained(
                chunks@.skip(i as int),
            ),
        decreases n - i,
    {
        proof {
            assert(chunks@.skip(i as int)[0] == chunks@[i as int]);
            assert(chunks@.skip(i as int).drop_first() =~= chunks@.skip(i + 1));
        }
        match &chunks[i] {
            ChunkRead::Data(d) => {
                if d.len() == 0 {
                    proof {
                        assert(drained(chunks@.skip(i as int)) == Ok::<Seq<u8>, Seq<char>>(
                            Seq::empty(),
                        ));
                        assert(buf@ + Seq::<u8>::empty() =~= buf@);
                    }
                    return Ok(buf);
                }
                let ghost b0 = buf@;
                buf.extend_from_slice(d.as_slice());
                proof {
                    let si = chunks@.skip(i as int);
                    let tail = drained(chunks@.skip(i + 1));
                    assert(si.len() > 0);
                    assert(si[0] == ChunkRead::Data(*d));
                    if tail is Ok {
                        assert(drained(si) == Ok::<Seq<u8>, Seq<char>>(d@ + tail->Ok_0));
                        assert(b0 + (d@ + tail->Ok_0) =~= (b0 + d@) + tail->Ok_0);
                        assert(buf@ =~= b0 + d@);
                        assert(drained(chunks@) == Ok::<Seq<u8>, Seq<char>>(buf@ + tail->Ok_0));
                    } else {
                        assert(drained(si) == tail);
                    }
                }
            },
            ChunkRead::Closed => {
                proof {
                    assert(drained(chunks@.skip(i as int)) == Ok::<Seq<u8>, Seq<char>>(
                        Seq::empty(),
                    ));
                    assert(buf@ + Seq::<u8>::empty() =~= buf@);
                }
                return Ok(buf);
            },
            ChunkRead::Failed(e) => {
                return Err(
                    BodyError::ReadFailed(
                        "Failed to read from request stream: ".to_owned().concat(e.as_str()),
                    ),
                );
            },
        }
        i += 1;
    }
    proof {
        assert(chunks@.skip(n as int) =~= Seq::<ChunkRead>::empty());
        assert(buf@ + Seq::<u8>::empty() =~= buf@);
    }
    Ok(buf)
}

} // verus!
