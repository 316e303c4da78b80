//! What the host operations of one worker share.

use vstd::prelude::*;
use crate::ext::resources::ResourceTable;
use crate::ext::runtime::LogSender;

verus! {

/// State behind the host operations of one worker: the handle table, and the
/// sink for log events where the host gave one.
#[derive(Debug)]
pub struct OpState {
    pub resource_table: ResourceTable,
    pub log_tx: Option<LogSender>,
}

impl OpState {
    /// State with an empty handle table.
    pub fn new(log_tx: Option<LogSender>) -> (state: OpState)
        ensures
            state.resource_table@ == Map::<u32, crate::ext::resources::Resource>::empty(),
            state.resource_table.next_rid() == 0,
            state.log_tx == log_tx,
    {
        OpState { resource_table: ResourceTable::new(), log_tx }
    }
}

} // verus!
