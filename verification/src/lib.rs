//! Supervisor core of a worker runtime: the rules by which one task is
//! dispatched into an isolated script engine, bounded in CPU time, wall-clock
//! time and memory, and reported with the precise cause of its end.
//!
//! The engine itself, its event loop, timers, threads and signals are driven
//! by the embedding program. This crate holds what that program decides with:
//! the termination taxonomy, the accounting of external memory, the registry
//! of CPU enforcers, the handle table behind the host operations, and the
//! state of a worker between construction, dispatch and abort.

pub mod array_buffer_allocator;
pub mod cpu_enforcement;
pub mod cpu_timer;
pub mod ext;
pub mod http_types;
pub mod limits;
pub mod runtime;
pub mod script;
pub mod task;
pub mod termination;
pub mod text;
pub mod timeout;
pub mod util;

pub use termination::TerminationReason;
pub use array_buffer_allocator::CustomAllocator;
pub use cpu_enforcement::{CpuEnforcer, EnforcerRegistry};
pub use cpu_timer::{get_thread_cpu_time, ClockReading, CpuTime, CpuTimer};
pub use ext::op_state::OpState;
pub use ext::permissions::Permissions;
pub use ext::resources::{ResourceError, ResourceId, ResourceTable};
pub use ext::runtime::{LogEvent, LogLevel, LogSender, Logged};
pub use http_types::{HttpRequest, HttpResponse, RequestBody, ResponseBody, ResponseMeta};
pub use limits::RuntimeLimits;
pub use runtime::Worker;
pub use script::Script;
pub use task::{FetchInit, ResponseSender, ScheduledInit, Task, TaskType};
pub use timeout::TimeoutGuard;
