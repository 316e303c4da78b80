//! The table of handles through which host and script refer to the pieces
//! of a task.

use vstd::prelude::*;
use std::collections::HashMap;
use crate::http_types::{Chunk, ChunkReceiver};
use crate::task::{FetchInit, ResponseSender, ScheduledInit};

verus! {

broadcast use vstd::std_specs::hash::group_hash_axioms;

/// `tokio::sync::mpsc::Sender`, carried through without a look inside.
#[verifier::external_type_specification]
#[verifier::external_body]
#[verifier::reject_recursive_types(T)]
pub struct ExChunkSender<T>(tokio::sync::mpsc::Sender<T>);

/// Sending end of a streamed body.
pub type ChunkSender = tokio::sync::mpsc::Sender<Chunk>;

/// A handle: a small number that stands for one entry of the table.
pub type ResourceId = u32;

/// What a handle can stand for.
#[derive(Debug)]
pub enum Resource {
    /// The payload of a fetch task, not yet taken up by the script.
    FetchInit(FetchInit),
    /// The payload of a scheduled task.
    ScheduledInit(ScheduledInit),
    /// The response sink of a fetch task, not yet used.
    FetchTx(ResponseSender),
    /// The sending end of a streamed response body.
    FetchStreamTx(ChunkSender),
    /// The receiving end of a streamed request body.
    RequestBody(ChunkReceiver),
}

/// The kinds of entry, without their contents.
#[derive(Debug, Clone, Copy, PartialEq, Eq, Structural)]
pub enum ResourceKind {
    FetchInit,
    ScheduledInit,
    FetchTx,
    FetchStreamTx,
    RequestBody,
}

/// Why a host operation was refused.
#[derive(Debug, Clone, Copy, PartialEq, Eq, Structural)]
pub enum ResourceError {
    /// The handle stands for nothing, or for an entry of another kind.
    BadResourceId,
}

impl ResourceError {
    /// The message the script sees.
    pub fn message(&self) -> (text: &'static str)
        ensures
            text@ == "Bad resource ID"@,
    {
        "Bad resource ID"
    }
}

impl Resource {
    /// The kind of this entry, as a specification.
    pub open spec fn kind_of(self) -> ResourceKind {
        match self {
            Resource::FetchInit(_) => ResourceKind::FetchInit,
            Resource::ScheduledInit(_) => ResourceKind::ScheduledInit,
            Resource::FetchTx(_) => ResourceKind::FetchTx,
            Resource::FetchStreamTx(_) => ResourceKind::FetchStreamTx,
            Resource::RequestBody(_) => ResourceKind::RequestBody,
        }
    }

    /// The kind of this entry.
    pub fn kind(&self) -> (kind: ResourceKind)
        ensures
            kind == self.kind_of(),
    {
        match self {
            Resource::FetchInit(_) => ResourceKind::FetchInit,
            Resource::ScheduledInit(_) => ResourceKind::ScheduledInit,
            Resource::FetchTx(_) => ResourceKind::FetchTx,
            Resource::FetchStreamTx(_) => ResourceKind::FetchStreamTx,
            Resource::RequestBody(_) => ResourceKind::RequestBody,
        }
    }
}

/// `entries` holds an entry of kind `kind` under `rid`.
pub open spec fn holds(entries: Map<ResourceId, Resource>, rid: ResourceId, kind: ResourceKind) -> bool {
    entries.contains_key(rid) && entries[rid].kind_of() == kind
}

/// A handle whose entry was taken out stands for nothing: whatever is asked
/// of it next is refused, so every entry is used up at most once.
pub proof fn lemma_taken_handle_is_closed(
    entries: Map<ResourceId, Resource>,
    rid: ResourceId,
    kind: ResourceKind,
)
    ensures
        !holds(entries.remove(rid), rid, kind),
        forall|other: ResourceId, k: ResourceKind|
            other != rid ==> (#[trigger] holds(entries.remove(rid), other, k) == holds(
                entries,
                other,
                k,
            )),
{
}

/// The handle table of one worker. Handles are given out in rising order
/// and never given out twice.
#[derive(Debug)]
pub struct ResourceTable {
    index: HashMap<ResourceId, Resource>,
    next_rid: ResourceId,
}

impl View for ResourceTable {
    type V = Map<ResourceId, Resource>;

    /// The live entries by handle.
    closed spec fn view(&self) -> Map<ResourceId, Resource> {
        self.index@
    }
}

impl ResourceTable {
    #[verifier::type_invariant]
    spec fn handles_below_next(self) -> bool {
        forall|rid: ResourceId| self.index@.contains_key(rid) ==> rid < self.next_rid
    }

    /// The handle the next entry gets.
    pub closed spec fn next_rid(self) -> ResourceId {
        self.next_rid
    }

    /// An empty table whose first handle is 0.
    pub fn new() -> (table: ResourceTable)
        ensures
            table@ == Map::<ResourceId, Resource>::empty(),
            table.next_rid() == 0,
    {
        ResourceTable { index: HashMap::new(), next_rid: 0 }
    }

    /// How many entries can still be added: handles run out at `u32::MAX`.
    pub fn handles_left(&self) -> (left: u32)
        ensures
            left == u32::MAX - self.next_rid(),
    {
        u32::MAX - self.next_rid
    }

    /// Number of live entries.
    pub fn len(&self) -> (n: usize)
        ensures
            n == self@.len(),
    {
        self.index.len()
    }

    /// Whether `rid` stands for a live entry.
    pub fn has(&self, rid: ResourceId) -> (live: bool)
        ensures
            live == self@.contains_key(rid),
            live ==> rid < self.next_rid(),
    {
        proof {
            use_type_invariant(self);
        }
        self.index.contains_key(&rid)
    }

    /// The kind of the entry under `rid`, if there is one.
    pub fn kind(&self, rid: ResourceId) -> (kind: Option<ResourceKind>)
        ensures
            kind == if self@.contains_key(rid) {
                Some(self@[rid].kind_of())
            } else {
                None
            },
    {
        match self.index.get(&rid) {
            Some(resource) => Some(resource.kind()),
            None => None,
        }
    }

    /// The entry under `rid` if it is of kind `kind`; it stays in the table.
    pub fn get(&self, rid: ResourceId, kind: ResourceKind) -> (r: Result<&Resource, ResourceError>)
        ensures
            holds(self@, rid, kind) ==> r == Ok::<&Resource, ResourceError>(&self@[rid]),
            !holds(self@, rid, kind) ==> r == Err::<&Resource, ResourceError>(
                ResourceError::BadResourceId,
            ),
    {
        match self.index.get(&rid) {
            Some(resource) => {
                if resource.kind() == kind {
                    Ok(resource)
                } else {
                    Err(ResourceError::BadResourceId)
                }
            },
            None => Err(ResourceError::BadResourceId),
        }
    }

    /// Puts `resource` into the table under a handle that was never in use.
    pub fn add(&mut self, resource: Resource) -> (rid: ResourceId)
        requires
            old(self).next_rid() < u32::MAX,
        ensures
            rid == old(self).next_rid(),
            !old(self)@.contains_key(rid),
            final(self)@ == old(self)@.insert(rid, resource),
            final(self).next_rid() == rid + 1,
    {
        proof {
            use_type_invariant(&*self);
        }
        let rid = self.next_rid;
        let mut index = HashMap::new();
        std::mem::swap(&mut index, &mut self.index);
        index.insert(rid, resource);
        self.next_rid = rid + 1;
        self.index = index;
        rid
    }

    /// Takes the entry under `rid` out of the table if it is of kind `kind`.
    /// An entry of another kind stays where it is.
    pub fn take(&mut self, rid: ResourceId, kind: ResourceKind) -> (r: Result<
        Resource,
        ResourceError,
    >)
        ensures
            final(self).next_rid() == old(self).next_rid(),
            old(self)@.contains_key(rid) ==> rid < old(self).next_rid(),
            holds(old(self)@, rid, kind) ==> r == Ok::<Resource, ResourceError>(old(self)@[rid])
                && final(self)@ == old(self)@.remove(rid),
            !holds(old(self)@, rid, kind) ==> r == Err::<Resource, ResourceError>(
                ResourceError::BadResourceId,
            ) && final(self)@ == old(self)@,
    {
        proof {
            use_type_invariant(&*self);
        }
        let found = match self.index.get(&rid) {
            Some(resource) => resource.kind() == kind,
            None => false,
        };
        if !found {
            return Err(ResourceError::BadResourceId);
        }
        let mut index = HashMap::new();
        std::mem::swap(&mut index, &mut self.index);
        let taken = index.remove(&rid);
        self.index = index;
        match taken {
            Some(resource) => Ok(resource),
            None => Err(ResourceError::BadResourceId),
        }
    }
}

} // verus!
