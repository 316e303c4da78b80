//! The host operations a script may call, and the handle table behind them.

pub mod event_fetch;
pub mod event_scheduled;
pub mod fetch_event;
pub mod op_state;
pub mod permissions;
pub mod resources;
pub mod runtime;
