//! Host operations for scheduled events.

use vstd::prelude::*;
use vstd::pervasive::unreached;
use crate::ext::op_state::OpState;
use crate::ext::resources::{holds, Resource, ResourceError, ResourceId, ResourceKind};
use crate::task::DoneSender;

verus! {

/// What the script learns of a scheduled event.
#[derive(Debug, Clone, Copy, PartialEq, Eq, Structural)]
pub struct ScheduledEvent {
    /// The handle of the event, to be given back on completion.
    pub rid: ResourceId,
    /// Time of the event in seconds since the Unix epoch.
    pub time: u64,
}

/// Reads the scheduled event under `rid`. The entry stays in the table.
pub fn op_scheduled_init(state: &OpState, rid: ResourceId) -> (r: Result<
    ScheduledEvent,
    ResourceError,
>)
    ensures
        match r {
            Ok(event) => {
                &&& holds(state.resource_table@, rid, ResourceKind::ScheduledInit)
                &&& event.rid == rid
                &&& event.time == state.resource_table@[rid]->ScheduledInit_0.time
            },
            Err(e) => {
                &&& !holds(state.resource_table@, rid, ResourceKind::ScheduledInit)
                &&& e == ResourceError::BadResourceId
            },
        },
{
    match state.resource_table.get(rid, ResourceKind::ScheduledInit) {
        Ok(resource) => match resource {
            Resource::ScheduledInit(init) => Ok(ScheduledEvent { rid, time: init.time }),
            _ => {
                assert(false);
                unreached()
            },
        },
        Err(e) => Err(e),
    }
}

/// Where completion of the scheduled event under `rid` is to be signalled:
/// takes the event out of the table, which closes the handle, and hands out
/// its completion sink.
pub fn scheduled_respond_plan(state: &mut OpState, rid: ResourceId) -> (r: Result<
    DoneSender,
    ResourceError,
>)
    ensures
        final(state).log_tx == old(state).log_tx,
        final(state).resource_table.next_rid() == old(state).resource_table.next_rid(),
        match r {
            Ok(sink) => {
                &&& holds(old(state).resource_table@, rid, ResourceKind::ScheduledInit)
                &&& sink == old(state).resource_table@[rid]->ScheduledInit_0.res_tx
                &&& final(state).resource_table@ == old(state).resource_table@.remove(rid)
            },
            Err(e) => {
                &&& !holds(old(state).resource_table@, rid, ResourceKind::ScheduledInit)
                &&& e == ResourceError::BadResourceId
                &&& final(state).resource_table@ == old(state).resource_table@
            },
        },
{
    match state.resource_table.take(rid, ResourceKind::ScheduledInit) {
        Ok(resource) => match resource {
            Resource::ScheduledInit(init) => Ok(init.res_tx),
            _ => {
                assert(false);
                unreached()
            },
        },
        Err(e) => Err(e),
    }
}

/// Signals that the scheduled event under `rid` is done, and closes the
/// handle. The sink is that of `scheduled_respond_plan`; the signal is sent
/// on it. A host that no longer listens is no error.
pub fn op_scheduled_respond(state: &mut OpState, rid: ResourceId) -> (r: Result<(), ResourceError>)
    ensures
        final(state).log_tx == old(state).log_tx,
        final(state).resource_table.next_rid() == old(state).resource_table.next_rid(),
        match r {
            Ok(_) => {
                &&& holds(old(state).resource_table@, rid, ResourceKind::ScheduledInit)
                &&& final(state).resource_table@ == old(state).resource_table@.remove(rid)
            },
            Err(e) => {
                &&& !holds(old(state).resource_table@, rid, ResourceKind::ScheduledInit)
                &&& e == ResourceError::BadResourceId
                &&& final(state).resource_table@ == old(state).resource_table@
            },
        },
{
    match scheduled_respond_plan(state, rid) {
        Ok(sink) => {
            let _ = sink.send(());
            Ok(())
        },
        Err(e) => Err(e),
    }
}

} // verus!
