//! A response that comes whole, and the sink it is sent on.

use vstd::prelude::*;
use crate::http_types::{
    bytes_view, effective_status, Headers, HttpResponse, ResponseBody, ResponseMeta,
};
use crate::task::ResponseSender;

verus! {

/// A whole response as the script hands it over: status, headers and, where
/// there is one, the body.
#[derive(Debug)]
pub struct FetchResponse {
    pub status: u16,
    pub headers: Headers,
    pub body: Option<bytes::Bytes>,
}

/// The response sink of a fetch task, as a value of its own.
#[derive(Debug)]
pub struct HttpResponseTx {
    pub tx: ResponseSender,
}

impl FetchResponse {
    /// The response that this stands for.
    pub open spec fn response(self, res: HttpResponse) -> bool {
        &&& res.status == effective_status(self.status)
        &&& res.headers == self.headers
        &&& match self.body {
            Some(b) => res.body == ResponseBody::Bytes(b),
            None => res.body is Empty,
        }
    }

    /// Turns this into a response. A status outside 100..=599 is answered
    /// as 500; where there is no body, the response has none.
    pub fn into_response(self) -> (res: HttpResponse)
        ensures
            res.well_formed(),
            self.response(res),
    {
        let body = match self.body {
            Some(b) => ResponseBody::Bytes(b),
            None => ResponseBody::Empty,
        };
        HttpResponse::new(ResponseMeta { status: self.status, headers: self.headers }, body)
    }
}

impl HttpResponseTx {
    /// Sends the response on the sink, which is used up. Where the host no
    /// longer listens, the response comes back.
    pub fn send(self, res: FetchResponse) -> (r: Result<(), HttpResponse>)
        ensures
            r matches Err(back) ==> back.well_formed() && res.response(back),
    {
        self.tx.send(res.into_response())
    }
}

impl From<ResponseSender> for HttpResponseTx {
    fn from(tx: ResponseSender) -> (sink: HttpResponseTx) {
        HttpResponseTx { tx }
    }
}

impl vstd::std_specs::convert::FromSpecImpl<ResponseSender> for HttpResponseTx {
    open spec fn obeys_from_spec() -> bool {
        true
    }

    open spec fn from_spec(tx: ResponseSender) -> HttpResponseTx {
        HttpResponseTx { tx }
    }
}

} // verus!
