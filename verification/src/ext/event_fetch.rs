//! Host operations for fetch events.

use vstd::prelude::*;
use vstd::pervasive::unreached;
use crate::ext::op_state::OpState;
use crate::ext::resources::{
    holds, ChunkSender, Resource, ResourceError, ResourceId, ResourceKind,
};
use crate::http_types::{
    bytes_view, effective_status, Chunk, ChunkReceiver, Headers, HttpRequest, HttpResponse,
    RequestBody, ResponseBody, ResponseMeta,
};
use crate::task::ResponseSender;

verus! {

/// Number of chunks that a streamed body holds before its sender has to wait.
pub const STREAM_BUFFER_SIZE: usize = 16;

/// The number of chunks that the channel of a sending end holds at most:
/// the capacity it was made with, which stays as it is for as long as the
/// channel lives.
pub uninterp spec fn chunk_capacity(tx: tokio::sync::mpsc::Sender<Chunk>) -> nat;

/// `tokio::sync::mpsc::channel`: the two ends of a new bounded channel that
/// buffers up to `capacity` chunks. It panics on a capacity of 0 or above
/// `usize::MAX >> 3`, which `requires` leaves out.
#[verifier::external_body]
fn chunk_channel(capacity: usize) -> (ends: (ChunkSender, ChunkReceiver))
    requires
        0 < capacity <= usize::MAX / 8,
    ensures
        chunk_capacity(ends.0) == capacity,
{
    tokio::sync::mpsc::channel(capacity)
}

/// A request as the script receives it.
#[derive(Debug)]
pub struct InnerRequest {
    pub method: String,
    pub url: String,
    pub headers: Headers,
    /// The body, where it came whole.
    pub body: Option<bytes::Bytes>,
    /// The handle of the body, where it arrives in chunks.
    pub body_rid: Option<ResourceId>,
}

/// What the script learns of a fetch event.
#[derive(Debug)]
pub struct FetchEvent {
    pub req: InnerRequest,
    /// The handle of the response sink.
    pub rid: ResourceId,
}

/// The form in which the script receives `req`, where a body that arrives
/// in chunks is put under the handle `next`.
pub open spec fn inner_request(req: HttpRequest, next: ResourceId) -> InnerRequest {
    InnerRequest {
        method: req.method,
        url: req.url,
        headers: req.headers,
        body: match req.body {
            RequestBody::Bytes(b) => Some(b),
            _ => None,
        },
        body_rid: match req.body {
            RequestBody::Stream(_) => Some(next),
            _ => None,
        },
    }
}

/// The entries once a body of `req` that arrives in chunks has been put
/// under the handle `next`.
pub open spec fn with_request_body(
    entries: Map<ResourceId, Resource>,
    req: HttpRequest,
    next: ResourceId,
) -> Map<ResourceId, Resource> {
    match req.body {
        RequestBody::Stream(rx) => entries.insert(next, Resource::RequestBody(rx)),
        _ => entries,
    }
}

/// How many handles the body of `req` takes: one where it arrives in
/// chunks, else none.
pub open spec fn body_handles(req: HttpRequest) -> int {
    if req.body is Stream {
        1
    } else {
        0
    }
}

/// Turns a request into the form the script receives. A body that arrives
/// in chunks is put into the table, and its handle given in its place.
pub fn convert_request(req: HttpRequest, state: &mut OpState) -> (inner: InnerRequest)
    requires
        old(state).resource_table.next_rid() < u32::MAX,
    ensures
        inner == inner_request(req, old(state).resource_table.next_rid()),
        req.body is Stream ==> !old(state).resource_table@.contains_key(
            old(state).resource_table.next_rid(),
        ),
        final(state).resource_table@ == with_request_body(
            old(state).resource_table@,
            req,
            old(state).resource_table.next_rid(),
        ),
        final(state).resource_table.next_rid() == old(state).resource_table.next_rid()
            + body_handles(req),
        final(state).log_tx == old(state).log_tx,
{
    let HttpRequest { method, url, headers, body } = req;
    match body {
        RequestBody::Empty => InnerRequest { method, url, headers, body: None, body_rid: None },
        RequestBody::Bytes(b) => InnerRequest {
            method,
            url,
            headers,
            body: Some(b),
            body_rid: None,
        },
        RequestBody::Stream(rx) => {
            let body_rid = state.resource_table.add(Resource::RequestBody(rx));
            InnerRequest { method, url, headers, body: None, body_rid: Some(body_rid) }
        },
    }
}

/// Takes the fetch task under `rid` out of the table and hands its request
/// to the script, with a new handle for the response sink. A request body
/// that arrives in chunks gets a handle of its own before that.
pub fn op_fetch_init(state: &mut OpState, rid: ResourceId) -> (r: Result<FetchEvent, ResourceError>)
    requires
        old(state).resource_table.next_rid() < u32::MAX - 1,
    ensures
        final(state).log_tx == old(state).log_tx,
        match r {
            Ok(event) => {
                let init = old(state).resource_table@[rid]->FetchInit_0;
                let first = old(state).resource_table.next_rid();
                let rest = old(state).resource_table@.remove(rid);
                &&& holds(old(state).resource_table@, rid, ResourceKind::FetchInit)
                &&& event.req == inner_request(init.req, first)
                &&& event.rid == first + body_handles(init.req)
                &&& !rest.contains_key(event.rid)
                &&& final(state).resource_table@ == with_request_body(rest, init.req, first).insert(
                    event.rid,
                    Resource::FetchTx(init.res_tx),
                )
                &&& final(state).resource_table.next_rid() == event.rid + 1
            },
            Err(e) => {
                &&& !holds(old(state).resource_table@, rid, ResourceKind::FetchInit)
                &&& e == ResourceError::BadResourceId
                &&& final(state).resource_table@ == old(state).resource_table@
                &&& final(state).resource_table.next_rid() == old(state).resource_table.next_rid()
            },
        },
{
    match state.resource_table.take(rid, ResourceKind::FetchInit) {
        Ok(resource) => match resource {
            Resource::FetchInit(init) => {
                let req = convert_request(init.req, state);
                let rid = state.resource_table.add(Resource::FetchTx(init.res_tx));
                Ok(FetchEvent { req, rid })
            },
            _ => {
                assert(false);
                unreached()
            },
        },
        Err(e) => Err(e),
    }
}

/// The response for a status, headers and an optional whole body.
pub fn buffered_response(meta: ResponseMeta, body: Option<&[u8]>) -> (res: HttpResponse)
    ensures
        res.well_formed(),
        res.status == effective_status(meta.status),
        res.headers == meta.headers,
        body matches Some(data) ==> res.body.content() == Some(data@),
        body is None ==> res.body is Empty,
{
    let body = match body {
        Some(data) => ResponseBody::Bytes(bytes::Bytes::copy_from_slice(data)),
        None => ResponseBody::Empty,
    };
    HttpResponse::new(meta, body)
}

/// Takes the response sink under `rid` out of the table: the first half of
/// every way to respond. The handle is closed by it, so a sink is taken once.
pub fn take_response_sink(state: &mut OpState, rid: ResourceId) -> (r: Result<
    crate::task::ResponseSender,
    ResourceError,
>)
    ensures
        final(state).log_tx == old(state).log_tx,
        final(state).resource_table.next_rid() == old(state).resource_table.next_rid(),
        match r {
            Ok(tx) => {
                &&& holds(old(state).resource_table@, rid, ResourceKind::FetchTx)
                &&& tx == old(state).resource_table@[rid]->FetchTx_0
                &&& rid < old(state).resource_table.next_rid()
                &&& final(state).resource_table@ == old(state).resource_table@.remove(rid)
            },
            Err(e) => {
                &&& !holds(old(state).resource_table@, rid, ResourceKind::FetchTx)
                &&& e == ResourceError::BadResourceId
                &&& final(state).resource_table@ == old(state).resource_table@
            },
        },
{
    match state.resource_table.take(rid, ResourceKind::FetchTx) {
        Ok(resource) => match resource {
            Resource::FetchTx(tx) => Ok(tx),
            _ => {
                assert(false);
                unreached()
            },
        },
        Err(e) => Err(e),
    }
}

/// What is to be delivered for a whole response, and where: takes the sink
/// under `rid` out of the table, which closes the handle, and builds the
/// response from status, headers and body.
pub fn fetch_respond_plan(
    state: &mut OpState,
    rid: ResourceId,
    meta: ResponseMeta,
    body: Option<&[u8]>,
) -> (r: Result<(ResponseSender, HttpResponse), ResourceError>)
    ensures
        final(state).log_tx == old(state).log_tx,
        final(state).resource_table.next_rid() == old(state).resource_table.next_rid(),
        match r {
            Ok(plan) => {
                &&& holds(old(state).resource_table@, rid, ResourceKind::FetchTx)
                &&& plan.0 == old(state).resource_table@[rid]->FetchTx_0
                &&& plan.1.well_formed()
                &&& plan.1.status == effective_status(meta.status)
                &&& plan.1.headers == meta.headers
                &&& body matches Some(data) ==> plan.1.body.content() == Some(data@)
                &&& body is None ==> plan.1.body is Empty
                &&& final(state).resource_table@ == old(state).resource_table@.remove(rid)
            },
            Err(e) => {
                &&& !holds(old(state).resource_table@, rid, ResourceKind::FetchTx)
                &&& e == ResourceError::BadResourceId
                &&& final(state).resource_table@ == old(state).resource_table@
            },
        },
{
    match take_response_sink(state, rid) {
        Ok(tx) => Ok((tx, buffered_response(meta, body))),
        Err(e) => Err(e),
    }
}

/// Delivers a whole response on the sink under `rid` and closes the handle.
/// Sink and response are those of `fetch_respond_plan`; the response is sent
/// on the sink. A host that no longer listens is no error.
pub fn op_fetch_respond(
    state: &mut OpState,
    rid: ResourceId,
    meta: ResponseMeta,
    body: Option<&[u8]>,
) -> (r: Result<(), ResourceError>)
    ensures
        final(state).log_tx == old(state).log_tx,
        final(state).resource_table.next_rid() == old(state).resource_table.next_rid(),
        match r {
            Ok(_) => {
                &&& holds(old(state).resource_table@, rid, ResourceKind::FetchTx)
                &&& final(state).resource_table@ == old(state).resource_table@.remove(rid)
            },
            Err(e) => {
                &&& !holds(old(state).resource_table@, rid, ResourceKind::FetchTx)
                &&& e == ResourceError::BadResourceId
                &&& final(state).resource_table@ == old(state).resource_table@
            },
        },
{
    match fetch_respond_plan(state, rid, meta, body) {
        Ok((sink, response)) => {
            let _ = sink.send(response);
            Ok(())
        },
        Err(e) => Err(e),
    }
}

/// What is to be delivered to start a streamed response, and where, for the
/// two ends of the channel that will carry the chunks: takes the sink under
/// `rid` out of the table, which closes the handle, builds the response
/// from status and headers with the receiving end as its body, and puts the
/// sending end under a new handle.
pub fn fetch_respond_stream_plan(
    state: &mut OpState,
    rid: ResourceId,
    meta: ResponseMeta,
    body_tx: ChunkSender,
    body_rx: ChunkReceiver,
) -> (r: Result<(ResponseSender, HttpResponse, ResourceId), ResourceError>)
    requires
        old(state).resource_table.next_rid() < u32::MAX,
    ensures
        final(state).log_tx == old(state).log_tx,
        match r {
            Ok(plan) => {
                &&& holds(old(state).resource_table@, rid, ResourceKind::FetchTx)
                &&& plan.0 == old(state).resource_table@[rid]->FetchTx_0
                &&& plan.1.well_formed()
                &&& plan.1.status == effective_status(meta.status)
                &&& plan.1.headers == meta.headers
                &&& plan.1.body == ResponseBody::Stream(body_rx)
                &&& plan.2 == old(state).resource_table.next_rid()
                &&& !old(state).resource_table@.contains_key(plan.2)
                &&& final(state).resource_table@ == old(state).resource_table@.remove(rid).insert(
                    plan.2,
                    Resource::FetchStreamTx(body_tx),
                )
                &&& final(state).resource_table.next_rid() == plan.2 + 1
            },
            Err(e) => {
                &&& !holds(old(state).resource_table@, rid, ResourceKind::FetchTx)
                &&& e == ResourceError::BadResourceId
                &&& final(state).resource_table@ == old(state).resource_table@
                &&& final(state).resource_table.next_rid() == old(state).resource_table.next_rid()
            },
        },
{
    match take_response_sink(state, rid) {
        Ok(tx) => {
            let response = HttpResponse::new(meta, ResponseBody::Stream(body_rx));
            let stream_rid = state.resource_table.add(Resource::FetchStreamTx(body_tx));
            Ok((tx, response, stream_rid))
        },
        Err(e) => Err(e),
    }
}

/// Starts a streamed response: makes a chunk channel of `STREAM_BUFFER_SIZE`
/// slots, delivers status and headers on the sink under `rid` together with
/// its receiving end, closes that handle, and returns a new handle for its
/// sending end. Sink, response and handle are those of
/// `fetch_respond_stream_plan`; the response is sent on the sink. No channel
/// is made for a handle that is no sink.
pub fn op_fetch_respond_stream_start(state: &mut OpState, rid: ResourceId, meta: ResponseMeta) -> (r:
    Result<ResourceId, ResourceError>)
    requires
        old(state).resource_table.next_rid() < u32::MAX,
    ensures
        final(state).log_tx == old(state).log_tx,
        match r {
            Ok(stream_rid) => {
                &&& holds(old(state).resource_table@, rid, ResourceKind::FetchTx)
                &&& stream_rid == old(state).resource_table.next_rid()
                &&& !old(state).resource_table@.contains_key(stream_rid)
                &&& holds(final(state).resource_table@, stream_rid, ResourceKind::FetchStreamTx)
                &&& chunk_capacity(final(state).resource_table@[stream_rid]->FetchStreamTx_0)
                    == STREAM_BUFFER_SIZE
                &&& final(state).resource_table@.remove(stream_rid) == old(state).resource_table@.remove(rid)
                &&& final(state).resource_table.next_rid() == stream_rid + 1
            },
            Err(e) => {
                &&& !holds(old(state).resource_table@, rid, ResourceKind::FetchTx)
                &&& e == ResourceError::BadResourceId
                &&& final(state).resource_table@ == old(state).resource_table@
                &&& final(state).resource_table.next_rid() == old(state).resource_table.next_rid()
            },
        },
{
    match state.resource_table.get(rid, ResourceKind::FetchTx) {
        Ok(_) => {},
        Err(e) => {
            return Err(e);
        },
    }
    let (body_tx, body_rx) = chunk_channel(STREAM_BUFFER_SIZE);
    let ghost before = state.resource_table@;
    match fetch_respond_stream_plan(state, rid, meta, body_tx, body_rx) {
        Ok((sink, response, stream_rid)) => {
            proof {
                assert(final(state).resource_table@.remove(stream_rid) =~= before.remove(rid));
            }
            let _ = sink.send(response);
            Ok(stream_rid)
        },
        Err(e) => Err(e),
    }
}

/// Prepares one chunk for the streamed response under `rid`: returns the
/// sending end that the handle stands for and the chunk to send on it. The
/// caller sends, and waits while the channel is full.
pub fn op_fetch_respond_stream_chunk<'a>(state: &'a OpState, rid: ResourceId, chunk: &[u8]) -> (r:
    Result<(&'a ChunkSender, Chunk), ResourceError>)
    ensures
        match r {
            Ok(send) => {
                &&& holds(state.resource_table@, rid, ResourceKind::FetchStreamTx)
                &&& *send.0 == state.resource_table@[rid]->FetchStreamTx_0
                &&& send.1 matches Ok(data)
                &&& bytes_view(data) == chunk@
            },
            Err(e) => {
                &&& !holds(state.resource_table@, rid, ResourceKind::FetchStreamTx)
                &&& e == ResourceError::BadResourceId
            },
        },
{
    match state.resource_table.get(rid, ResourceKind::FetchStreamTx) {
        Ok(resource) => match resource {
            Resource::FetchStreamTx(tx) => Ok((tx, Ok(bytes::Bytes::copy_from_slice(chunk)))),
            _ => {
                assert(false);
                unreached()
            },
        },
        Err(e) => Err(e),
    }
}

/// Ends the streamed response under `rid`: closes the handle, which drops
/// the sending end.
pub fn op_fetch_respond_stream_end(state: &mut OpState, rid: ResourceId) -> (r: Result<
    (),
    ResourceError,
>)
    ensures
        final(state).log_tx == old(state).log_tx,
        final(state).resource_table.next_rid() == old(state).resource_table.next_rid(),
        match r {
            Ok(_) => {
                &&& holds(old(state).resource_table@, rid, ResourceKind::FetchStreamTx)
                &&& final(state).resource_table@ == old(state).resource_table@.remove(rid)
            },
            Err(e) => {
                &&& !holds(old(state).resource_table@, rid, ResourceKind::FetchStreamTx)
                &&& e == ResourceError::BadResourceId
                &&& final(state).resource_table@ == old(state).resource_table@
            },
        },
{
    match state.resource_table.take(rid, ResourceKind::FetchStreamTx) {
        Ok(_) => Ok(()),
        Err(e) => Err(e),
    }
}

} // verus!
