//! One unit of work for a worker, and the sink its outcome is delivered to.

use vstd::prelude::*;
use crate::http_types::{HttpRequest, HttpResponse};

verus! {

/// `tokio::sync::oneshot::Sender`, carried through without a look inside.
#[verifier::external_type_specification]
#[verifier::external_body]
#[verifier::reject_recursive_types(T)]
pub struct ExSinkSender<T>(tokio::sync::oneshot::Sender<T>);

/// `tokio::sync::oneshot::Receiver`, carried through without a look inside.
#[verifier::external_type_specification]
#[verifier::external_body]
#[verifier::reject_recursive_types(T)]
pub struct ExSinkReceiver<T>(tokio::sync::oneshot::Receiver<T>);

/// `tokio::sync::oneshot::error::RecvError`, which the receiver names in
/// its own interface.
#[verifier::external_type_specification]
#[verifier::external_body]
pub struct ExSinkClosed(tokio::sync::oneshot::error::RecvError);

/// `oneshot::channel` returns the two ends of a new single-use channel.
/// Nothing is claimed about them.
pub assume_specification<T>[ tokio::sync::oneshot::channel::<T> ]() -> (ends: (
    tokio::sync::oneshot::Sender<T>,
    tokio::sync::oneshot::Receiver<T>,
));

/// `oneshot::Sender::send` consumes the sender. Where it fails, because the
/// receiver is gone, it hands the value back unchanged. Whether it fails
/// depends on the other end, so nothing says when.
pub assume_specification<T>[ tokio::sync::oneshot::Sender::<T>::send ](
    tx: tokio::sync::oneshot::Sender<T>,
    value: T,
) -> (r: Result<(), T>)
    ensures
        r matches Err(back) ==> back == value,
;

/// The sink a fetch task's response is delivered to, once.
pub type ResponseSender = tokio::sync::oneshot::Sender<HttpResponse>;

/// The end of a response sink that the host keeps.
pub type ResponseReceiver = tokio::sync::oneshot::Receiver<HttpResponse>;

/// The sink a scheduled task's completion is signalled on, once.
pub type DoneSender = tokio::sync::oneshot::Sender<()>;

/// The end of a completion sink that the host keeps.
pub type DoneReceiver = tokio::sync::oneshot::Receiver<()>;

/// Payload of a fetch task: the request, and where the response goes.
#[derive(Debug)]
pub struct FetchInit {
    pub req: HttpRequest,
    pub res_tx: ResponseSender,
}

/// Payload of a scheduled task: the time of the event in seconds since the
/// Unix epoch, and where completion is signalled.
#[derive(Debug)]
pub struct ScheduledInit {
    pub time: u64,
    pub res_tx: DoneSender,
}

/// The events a task can carry.
#[derive(Debug, Clone, Copy, PartialEq, Eq, Structural)]
pub enum TaskType {
    Fetch,
    Scheduled,
}

/// A task: exactly one event for a worker to handle.
#[derive(Debug)]
pub enum Task {
    Fetch(FetchInit),
    Scheduled(ScheduledInit),
}

impl Task {
    /// Which event the task carries, as a specification.
    pub open spec fn type_of(self) -> TaskType {
        match self {
            Task::Fetch(_) => TaskType::Fetch,
            Task::Scheduled(_) => TaskType::Scheduled,
        }
    }

    /// A fetch task for `req`, with the receiving end of its response sink.
    pub fn fetch(req: HttpRequest) -> (made: (Task, ResponseReceiver))
        ensures
            made.0 matches Task::Fetch(init) && init.req == req,
    {
        let (res_tx, rx) = tokio::sync::oneshot::channel::<HttpResponse>();
        (Task::Fetch(FetchInit { req, res_tx }), rx)
    }

    /// A scheduled task for the event at `time`, with the receiving end of
    /// its completion sink.
    pub fn scheduled(time: u64) -> (made: (Task, DoneReceiver))
        ensures
            made.0 matches Task::Scheduled(init) && init.time == time,
    {
        let (res_tx, rx) = tokio::sync::oneshot::channel::<()>();
        (Task::Scheduled(ScheduledInit { time, res_tx }), rx)
    }

    /// Which event the task carries.
    pub fn task_type(&self) -> (t: TaskType)
        ensures
            t == self.type_of(),
    {
        match self {
            Task::Fetch(_) => TaskType::Fetch,
            Task::Scheduled(_) => TaskType::Scheduled,
        }
    }
}

} // verus!
