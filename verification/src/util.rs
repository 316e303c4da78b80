//! Handing a task to the script.

use vstd::prelude::*;
use vstd::string::*;
use crate::ext::op_state::OpState;
use crate::ext::resources::{Resource, ResourceId};
use crate::task::{Task, TaskType};

verus! {

/// The table entry that carries the payload of a task.
pub open spec fn payload_of(task: Task) -> Resource {
    match task {
        Task::Fetch(init) => Resource::FetchInit(init),
        Task::Scheduled(init) => Resource::ScheduledInit(init),
    }
}

/// Puts the payload of `task` into the handle table and says which trigger
/// of the script is to be called with the new handle as its one argument.
pub fn exec_task(state: &mut OpState, task: Task) -> (call: (ResourceId, TaskType))
    requires
        old(state).resource_table.next_rid() < u32::MAX,
    ensures
        call.0 == old(state).resource_table.next_rid(),
        call.1 == task.type_of(),
        !old(state).resource_table@.contains_key(call.0),
        final(state).resource_table@ == old(state).resource_table@.insert(call.0, payload_of(task)),
        final(state).resource_table.next_rid() == call.0 + 1,
        final(state).log_tx == old(state).log_tx,
{
    match task {
        Task::Fetch(init) => {
            let rid = state.resource_table.add(Resource::FetchInit(init));
            (rid, TaskType::Fetch)
        },
        Task::Scheduled(init) => {
            let rid = state.resource_table.add(Resource::ScheduledInit(init));
            (rid, TaskType::Scheduled)
        },
    }
}

/// What is recorded of the call of a trigger: nothing where the call
/// returned; where it raised an exception, the message that was captured of
/// it, or a fixed text where the engine gave none.
pub fn trigger_exception(returned: bool, captured: Option<String>) -> (exception: Option<String>)
    ensures
        returned ==> exception is None,
        !returned && captured is Some ==> exception == captured,
        !returned && captured is None ==> (exception matches Some(text) && text@
            == "Exception occurred during trigger call"@),
{
    if returned {
        None
    } else {
        match captured {
            Some(message) => Some(message),
            None => Some(String::from_str("Exception occurred during trigger call")),
        }
    }
}

} // verus!
