//! Requests and responses as they cross between host and script.

use vstd::prelude::*;
use vstd::string::*;
use vstd::utf8::encode_utf8;
use crate::termination::TerminationReason;

verus! {

/// `bytes::Bytes`. What it holds is spoken of through `bytes_view`.
#[verifier::external_type_specification]
#[verifier::external_body]
pub struct ExBytes(bytes::Bytes);

/// `tokio::sync::mpsc::Receiver`, carried through without a look inside.
#[verifier::external_type_specification]
#[verifier::external_body]
#[verifier::reject_recursive_types(T)]
pub struct ExChunkReceiver<T>(tokio::sync::mpsc::Receiver<T>);

/// The bytes that a `bytes::Bytes` holds, in order.
pub uninterp spec fn bytes_view(b: bytes::Bytes) -> Seq<u8>;

/// `Bytes::copy_from_slice` returns a buffer that holds a copy of the slice.
pub assume_specification[ bytes::Bytes::copy_from_slice ](data: &[u8]) -> (b: bytes::Bytes)
    ensures
        bytes_view(b) == data@,
;

/// `Bytes::is_empty` says whether the buffer holds no byte.
pub assume_specification[ bytes::Bytes::is_empty ](b: &bytes::Bytes) -> (empty: bool)
    ensures
        empty == (bytes_view(*b).len() == 0),
;

/// One chunk of a streamed body, or the error that ends the stream.
pub type Chunk = Result<bytes::Bytes, String>;

/// Receiving end of a streamed body.
pub type ChunkReceiver = tokio::sync::mpsc::Receiver<Chunk>;

/// Header lines, name and value, in order. A name may occur more than once.
pub type Headers = Vec<(String, String)>;

/// Body of a request.
#[derive(Debug)]
pub enum RequestBody {
    /// No body.
    Empty,
    /// The whole body.
    Bytes(bytes::Bytes),
    /// The body arrives in chunks.
    Stream(ChunkReceiver),
}

/// Body of a response.
#[derive(Debug)]
pub enum ResponseBody {
    /// No body.
    Empty,
    /// The whole body.
    Bytes(bytes::Bytes),
    /// The body arrives in chunks, in the order they were sent.
    Stream(ChunkReceiver),
}

/// An HTTP request handed to a worker.
#[derive(Debug)]
pub struct HttpRequest {
    pub method: String,
    pub url: String,
    pub headers: Headers,
    pub body: RequestBody,
}

/// An HTTP response produced by a worker, or by the host in its place.
#[derive(Debug)]
pub struct HttpResponse {
    pub status: u16,
    pub headers: Headers,
    pub body: ResponseBody,
}

/// Status and headers of a response, as the script hands them over.
#[derive(Debug)]
pub struct ResponseMeta {
    pub status: u16,
    pub headers: Headers,
}

/// Whether `status` is a status code a response may carry.
pub open spec fn valid_status(status: int) -> bool {
    100 <= status <= 599
}

/// The status a response carries for a status that was asked for: the status
/// itself where it is valid, otherwise 500.
pub open spec fn effective_status(status: u16) -> u16 {
    if valid_status(status as int) {
        status
    } else {
        500
    }
}

/// The header lines of `raw` whose value is readable, in order.
pub open spec fn readable_headers(raw: Seq<(Seq<char>, Option<Seq<char>>)>, n: int) -> Seq<
    (Seq<char>, Seq<char>),
>
    decreases n,
{
    if n <= 0 {
        Seq::empty()
    } else {
        let head = readable_headers(raw, n - 1);
        match raw[n - 1].1 {
            Some(value) => head.push((raw[n - 1].0, value)),
            None => head,
        }
    }
}

impl RequestBody {
    /// The bytes of a body that came whole.
    pub open spec fn content(self) -> Option<Seq<u8>> {
        match self {
            RequestBody::Bytes(b) => Some(bytes_view(b)),
            _ => None,
        }
    }
}

impl ResponseBody {
    /// The bytes of a body that came whole.
    pub open spec fn content(self) -> Option<Seq<u8>> {
        match self {
            ResponseBody::Bytes(b) => Some(bytes_view(b)),
            _ => None,
        }
    }
}

impl HttpRequest {
    /// Builds a request from what an HTTP server saw: the method, the parts
    /// of the URL, the header lines, and the collected body. A header whose
    /// value is not readable text (given as `None`) is left out; an empty
    /// body becomes no body.
    pub fn from_actix(
        method: &str,
        scheme: &str,
        host: &str,
        uri: &str,
        raw_headers: &Vec<(String, Option<String>)>,
        body: bytes::Bytes,
    ) -> (req: HttpRequest)
        ensures
            req.method@ == method@,
            req.url@ == scheme@ + "://"@ + host@ + uri@,
            req.headers.deep_view() == readable_headers(
                raw_headers.deep_view(),
                raw_headers@.len() as int,
            ),
            bytes_view(body).len() == 0 ==> req.body is Empty,
            bytes_view(body).len() > 0 ==> req.body == RequestBody::Bytes(body),
    {
        let mut url = String::from_str(scheme);
        url.append("://");
        url.append(host);
        url.append(uri);
        let mut headers: Headers = Vec::new();
        let n = raw_headers.len();
        let mut i: usize = 0;
        while i < n
            invariant
                n == raw_headers@.len(),
                i <= n,
                headers.deep_view() == readable_headers(raw_headers.deep_view(), i as int),
            decreases n - i,
        {
            let ghost before = headers.deep_view();
            match &raw_headers[i].1 {
                Some(value) => {
                    let name = raw_headers[i].0.clone();
                    let value = value.clone();
                    headers.push((name, value));
                    proof {
                        let raw = raw_headers.deep_view();
                        assert(raw[i as int] == (
                            raw_headers@[i as int].0@,
                            Some(raw_headers@[i as int].1->0@),
                        ));
                        assert(headers.deep_view() =~= before.push(
                            (raw[i as int].0, raw[i as int].1->0),
                        ));
                    }
                },
                None => {
                    proof {
                        let raw = raw_headers.deep_view();
                        assert(raw[i as int].1 is None);
                    }
                },
            }
            i += 1;
        }
        let body = if body.is_empty() {
            RequestBody::Empty
        } else {
            RequestBody::Bytes(body)
        };
        HttpRequest { method: String::from_str(method), url, headers, body }
    }
}

impl HttpResponse {
    /// A response whose status is in range.
    pub open spec fn well_formed(self) -> bool {
        valid_status(self.status as int)
    }

    /// Builds the response a script asked for. A status outside 100..=599
    /// is answered as 500.
    pub fn new(meta: ResponseMeta, body: ResponseBody) -> (res: HttpResponse)
        ensures
            res.well_formed(),
            res.status == effective_status(meta.status),
            res.headers == meta.headers,
            res.body == body,
    {
        let status = if 100 <= meta.status && meta.status <= 599 {
            meta.status
        } else {
            500
        };
        HttpResponse { status, headers: meta.headers, body }
    }

    /// The response the host gives in place of a script that did not end
    /// well: the status that stands for the reason, no headers, and the
    /// reason's description as the body.
    pub fn from_reason(reason: &TerminationReason) -> (res: HttpResponse)
        ensures
            res.well_formed(),
            res.status == reason.status_of(),
            res.headers@.len() == 0,
            res.body.content() == Some(encode_utf8(reason.description_of())),
    {
        let text = reason.description();
        HttpResponse {
            status: reason.http_status(),
            headers: Vec::new(),
            body: ResponseBody::Bytes(bytes::Bytes::copy_from_slice(text.as_bytes())),
        }
    }

    /// What the host answers a fetch with, from how the task ended and the
    /// response the script delivered, if any. After success the script's
    /// response is the answer, and there is none where the script delivered
    /// none. After anything else the answer is made from the reason, and a
    /// response that was delivered is dropped.
    pub fn for_outcome(outcome: Result<(), TerminationReason>, delivered: Option<HttpResponse>) -> (res:
        Option<HttpResponse>)
        ensures
            outcome is Ok ==> res == delivered,
            outcome matches Err(reason) ==> {
                &&& res matches Some(r)
                &&& r.well_formed()
                &&& r.status == reason.status_of()
                &&& r.headers@.len() == 0
                &&& r.body.content() == Some(encode_utf8(reason.description_of()))
            },
    {
        match outcome {
            Ok(()) => delivered,
            Err(reason) => Some(HttpResponse::from_reason(&reason)),
        }
    }
}

} // verus!
