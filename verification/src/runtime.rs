//! The worker: brought up once, given one task, and reported on.

use vstd::prelude::*;
use vstd::string::*;
use vstd::utf8::encode_utf8;
use crate::array_buffer_allocator::{AllocatorState, CustomAllocator};
use crate::cpu_enforcement::{CpuEnforcer, EnforcerRegistry};
use crate::ext::op_state::OpState;
use crate::ext::resources::{Resource, ResourceId};
use crate::ext::runtime::LogSender;
use crate::limits::{mb_as_bytes, RuntimeLimits};
use crate::script::{env_json_text, Script};
use crate::task::{Task, TaskType};
use crate::termination::TerminationReason;
use crate::text::{contains, occurs_in};
use crate::timeout::TimeoutGuard;
use crate::util::{exec_task, payload_of};

verus! {

/// Name and version that the worker presents itself with.
pub const USER_AGENT: &'static str = "OpenWorkers/0.1.0";

/// Detail of the exception that a task ends with where the worker has no
/// handle left to put its payload under.
pub const HANDLES_EXHAUSTED: &'static str = "Resource table is full";

/// Name under which the script is loaded as the main module.
pub const MAIN_MODULE: &'static str = "worker.js";

/// The user agent as an owned text.
pub fn user_agent() -> (agent: String)
    ensures
        agent@ == USER_AGENT@,
{
    String::from_str(USER_AGENT)
}

/// The startup snapshot to bring the engine up from: the embedded bytes,
/// unless there are none.
pub fn runtime_snapshot(embedded: &'static [u8]) -> (snapshot: Option<&'static [u8]>)
    ensures
        embedded@.len() == 0 ==> snapshot is None,
        embedded@.len() > 0 ==> snapshot == Some(embedded),
{
    if embedded.len() == 0 {
        None
    } else {
        Some(embedded)
    }
}

/// The budgets in force where `limits` were asked for.
pub open spec fn limits_or_standard(limits: Option<RuntimeLimits>) -> RuntimeLimits {
    match limits {
        Some(l) => l,
        None => RuntimeLimits::standard(),
    }
}

/// What the engine is created with.
#[derive(Debug, Clone, Copy, PartialEq, Eq, Structural)]
pub struct EngineOptions {
    /// Initial heap size in bytes.
    pub heap_initial: usize,
    /// Largest heap size in bytes.
    pub heap_max: usize,
    /// Most bytes of array buffers that may be live at once.
    pub array_buffer_max: usize,
    /// Whether the engine starts from the snapshot.
    pub from_snapshot: bool,
    /// Whether the extensions are loaded without their script files, which
    /// a snapshot already holds.
    pub skip_extension_sources: bool,
}

/// What the embedding program is to do to bring a worker up.
#[derive(Debug)]
pub struct BootPlan {
    pub engine: EngineOptions,
    /// The script that is run first and returns the triggers.
    pub bootstrap_source: String,
    /// The name the user's module is loaded under.
    pub main_module: &'static str,
}

/// How bringing the worker up went, stage by stage, in the order of the
/// fields. A stage that was not reached may hold anything.
#[derive(Debug)]
pub struct BootReport {
    /// Running the bootstrap script.
    pub bootstrap: Result<(), String>,
    /// Reading what it returned as an object.
    pub triggers_object: Result<(), String>,
    /// Whether the object holds a callable `fetch`.
    pub fetch_trigger: bool,
    /// Whether the object holds a callable `scheduled`.
    pub scheduled_trigger: bool,
    /// Loading the user's module.
    pub main_module: Result<(), String>,
    /// Driving the event loop until the module settles.
    pub event_loop: Result<(), String>,
    /// The result of evaluating the module.
    pub evaluation: Result<(), String>,
}

/// The text of the bootstrap script for an environment.
pub open spec fn bootstrap_text(env: Option<Seq<(Seq<char>, Seq<char>)>>) -> Seq<char> {
    "globalThis.bootstrap('"@ + USER_AGENT@ + "', "@ + env_json_text(env) + ")"@
}

/// The message of the first stage that failed, if one did.
pub open spec fn boot_failure(report: BootReport) -> Option<Seq<char>> {
    if report.bootstrap is Err {
        Some("Bootstrap failed: "@ + report.bootstrap->Err_0@)
    } else if report.triggers_object is Err {
        Some("Failed to convert triggers to object: "@ + report.triggers_object->Err_0@)
    } else if !report.fetch_trigger {
        Some("Fetch trigger not found in bootstrap response"@)
    } else if !report.scheduled_trigger {
        Some("Scheduled trigger not found in bootstrap response"@)
    } else if report.main_module is Err {
        Some("Failed to load main module: "@ + report.main_module->Err_0@)
    } else if report.event_loop is Err {
        Some("Event loop error: "@ + report.event_loop->Err_0@)
    } else if report.evaluation is Err {
        Some("Module evaluation error: "@ + report.evaluation->Err_0@)
    } else {
        None
    }
}

/// An initialization error whose detail is `prefix` followed by `detail`.
fn init_error(prefix: &str, detail: &str) -> (reason: TerminationReason)
    ensures
        reason matches TerminationReason::InitializationError(text) && text@ == prefix@ + detail@,
{
    let text = String::from_str(prefix).concat(detail);
    TerminationReason::InitializationError(text)
}

/// How the event loop ended.
#[derive(Debug)]
pub enum DriveOutcome {
    /// It ran until nothing was left to do.
    Completed,
    /// It stopped with an error.
    Failed(String),
    /// The timed wait around it ran out, and the engine was told to stop.
    TimedOut,
}

/// What was observed while a task ran.
#[derive(Debug)]
pub struct ExecReport {
    /// The exception that the call of the trigger raised, if it did.
    pub trigger_exception: Option<String>,
    /// How the event loop ended.
    pub drive: DriveOutcome,
    /// Whether the CPU enforcer fired.
    pub cpu_limit_hit: bool,
    /// Whether the wall-clock watchdog fired.
    pub wall_clock_hit: bool,
    /// Whether the array-buffer allocator refused an allocation.
    pub memory_limit_hit: bool,
}

impl ExecReport {
    /// Gathers what was observed of a run once the event loop has returned:
    /// what the call of the trigger and the event loop left behind, whether
    /// the CPU enforcer and the watchdog fired, and whether the allocator
    /// refused an allocation. The allocator's flag is taken by this, so that
    /// it is down for the next run. The guards are asked before they are
    /// given up.
    pub fn collect<H>(
        trigger_exception: Option<String>,
        drive: DriveOutcome,
        cpu_enforcer: Option<&CpuEnforcer>,
        registry: &EnforcerRegistry<H>,
        wall_guard: &TimeoutGuard,
        allocator: &mut CustomAllocator,
    ) -> (report: ExecReport)
        ensures
            report.trigger_exception == trigger_exception,
            report.drive == drive,
            report.cpu_limit_hit == (cpu_enforcer matches Some(enforcer) && registry@.contains_key(
                enforcer.id(),
            ) && registry@[enforcer.id()].terminated),
            report.wall_clock_hit == wall_guard.triggered(),
            report.memory_limit_hit == old(allocator)@.limit_hit,
            final(allocator)@ == old(allocator)@.flag_taken(),
    {
        let cpu_limit_hit = match cpu_enforcer {
            Some(enforcer) => enforcer.was_terminated(registry),
            None => false,
        };
        ExecReport {
            trigger_exception,
            drive,
            cpu_limit_hit,
            wall_clock_hit: wall_guard.was_triggered(),
            memory_limit_hit: allocator.take_memory_limit_hit(),
        }
    }
}

/// What the embedding program is to do for a task that was accepted.
#[derive(Debug, Clone, Copy, PartialEq, Eq, Structural)]
pub struct Dispatch {
    /// The handle of the task's payload, the one argument of the trigger.
    pub rid: ResourceId,
    /// Which trigger to call.
    pub trigger: TaskType,
    /// Budget of the CPU enforcer in milliseconds; 0 arms none.
    pub cpu_budget_ms: u64,
    /// Budget of the wall-clock watchdog in milliseconds; 0 arms none.
    pub wall_budget_ms: u64,
    /// Bound of the timed wait around the event loop, if it is bounded.
    pub drive_timeout_ms: Option<u64>,
}

/// Whether the bytes of a message show that memory ran out.
pub open spec fn memory_pattern(message: Seq<u8>) -> bool {
    ||| occurs_in(message, encode_utf8("Array buffer allocation failed"@))
    ||| occurs_in(message, encode_utf8("RangeError"@))
    ||| occurs_in(message, encode_utf8("out of memory"@))
}

/// Whether a message shows that memory ran out.
pub fn is_memory_error(message: &str) -> (is: bool)
    ensures
        is == memory_pattern(encode_utf8(message@)),
{
    contains(message, "Array buffer allocation failed") || contains(message, "RangeError")
        || contains(message, "out of memory")
}

/// The reason a message stands for: the memory limit where it shows that
/// memory ran out, otherwise an exception with the message as its detail.
pub open spec fn reason_of_message(message: String) -> TerminationReason {
    if memory_pattern(encode_utf8(message@)) {
        TerminationReason::MemoryLimit
    } else {
        TerminationReason::Exception(message)
    }
}

/// Why a task stopped, from what was observed, or `None` for success. The
/// order is fixed: stopping the engine by force makes the event loop fail,
/// so the guards are asked before the errors are looked at.
pub open spec fn reason_for(report: ExecReport, aborted: bool) -> Option<TerminationReason> {
    if report.cpu_limit_hit {
        Some(TerminationReason::CpuTimeLimit)
    } else if report.wall_clock_hit || report.drive is TimedOut {
        Some(TerminationReason::WallClockTimeout)
    } else if report.memory_limit_hit {
        Some(TerminationReason::MemoryLimit)
    } else if aborted {
        Some(TerminationReason::Aborted)
    } else if report.trigger_exception is Some {
        Some(reason_of_message(report.trigger_exception->Some_0))
    } else if report.drive is Failed {
        Some(reason_of_message(report.drive->Failed_0))
    } else {
        None
    }
}

/// The reason a message stands for.
fn classify(message: String) -> (reason: TerminationReason)
    ensures
        reason == reason_of_message(message),
{
    if is_memory_error(message.as_str()) {
        TerminationReason::MemoryLimit
    } else {
        TerminationReason::Exception(message)
    }
}

/// Why a task stopped, from what was observed while it ran and whether the
/// worker was aborted.
pub fn termination_reason(report: ExecReport, aborted: bool) -> (r: Result<(), TerminationReason>)
    ensures
        match r {
            Ok(_) => reason_for(report, aborted) is None,
            Err(reason) => reason_for(report, aborted) == Some(reason),
        },
{
    if report.cpu_limit_hit {
        return Err(TerminationReason::CpuTimeLimit);
    }
    let timed_out = match &report.drive {
        DriveOutcome::TimedOut => true,
        _ => false,
    };
    if report.wall_clock_hit || timed_out {
        return Err(TerminationReason::WallClockTimeout);
    }
    if report.memory_limit_hit {
        return Err(TerminationReason::MemoryLimit);
    }
    if aborted {
        return Err(TerminationReason::Aborted);
    }
    if let Some(message) = report.trigger_exception {
        return Err(classify(message));
    }
    if let DriveOutcome::Failed(message) = report.drive {
        return Err(classify(message));
    }
    Ok(())
}

/// Where the CPU enforcer fired, the reason is the CPU limit, whatever else
/// was observed: a watchdog that fired too, a refused allocation, an abort or
/// an error.
pub proof fn lemma_cpu_limit_has_priority(report: ExecReport, aborted: bool)
    requires
        report.cpu_limit_hit,
    ensures
        reason_for(report, aborted) == Some(TerminationReason::CpuTimeLimit),
{
}

/// Where the watchdog fired or the timed wait around the event loop ran out,
/// and the CPU enforcer did not fire, the reason is the wall-clock timeout,
/// whatever error the stopped engine left behind.
pub proof fn lemma_wall_clock_trip_is_timeout(report: ExecReport, aborted: bool)
    requires
        !report.cpu_limit_hit,
        report.wall_clock_hit || report.drive is TimedOut,
    ensures
        reason_for(report, aborted) == Some(TerminationReason::WallClockTimeout),
{
}

/// Where the allocator refused an allocation and no time guard fired, the
/// reason is the memory limit.
pub proof fn lemma_refused_allocation_is_memory_limit(report: ExecReport, aborted: bool)
    requires
        !report.cpu_limit_hit,
        !report.wall_clock_hit,
        !(report.drive is TimedOut),
        report.memory_limit_hit,
    ensures
        reason_for(report, aborted) == Some(TerminationReason::MemoryLimit),
{
}

/// A watchdog with a budget whose wait ran out triggers its guard, and the
/// run it watched ends with the wall-clock timeout once its report is
/// gathered, unless the CPU enforcer fired as well.
pub proof fn lemma_watchdog_timeout_ends_in_wall_clock_timeout(
    before: TimeoutGuard,
    after: TimeoutGuard,
    report: ExecReport,
    aborted: bool,
)
    requires
        before.budget_ms() > 0,
        after.triggered() == (before.triggered() || before.fires_on(crate::timeout::Wake::TimedOut)),
        report.wall_clock_hit == after.triggered(),
        !report.cpu_limit_hit,
    ensures
        after.triggered(),
        reason_for(report, aborted) == Some(TerminationReason::WallClockTimeout),
{
}

/// An allocation that passes the limit is refused, and the run it happened
/// in ends with the memory limit once its report is gathered, unless a time
/// guard fired as well.
pub proof fn lemma_exceeding_the_limit_ends_in_memory_limit(
    before: AllocatorState,
    n: usize,
    report: ExecReport,
    aborted: bool,
)
    requires
        before.within_limit(),
        before.usage() + n > before.limit,
        report.memory_limit_hit == before.allocate(n).limit_hit,
        !report.cpu_limit_hit,
        !report.wall_clock_hit,
        !(report.drive is TimedOut),
    ensures
        !before.grants(n),
        before.allocate(n).usage() == before.usage(),
        reason_for(report, aborted) == Some(TerminationReason::MemoryLimit),
{
}

/// A run on which no guard fired, no allocation was refused, the worker was
/// not aborted, the trigger returned and the event loop ran dry is a
/// success; and only such a run is.
pub proof fn lemma_success_is_a_quiet_run(report: ExecReport, aborted: bool)
    ensures
        reason_for(report, aborted) is None <==> {
            &&& !report.cpu_limit_hit
            &&& !report.wall_clock_hit
            &&& !report.memory_limit_hit
            &&& !aborted
            &&& report.trigger_exception is None
            &&& report.drive is Completed
        },
{
}

/// A task never ends as a success, an initialization error or a stop from
/// outside by way of a reason: success is the absence of one, and the other
/// two do not come from running a task.
pub proof fn lemma_reasons_of_a_run(report: ExecReport, aborted: bool)
    ensures
        reason_for(report, aborted) matches Some(reason) ==> !(reason is Success) && !(reason
            is InitializationError) && !(reason is Terminated),
{
}

/// A worker that was brought up: its budgets, the state behind its host
/// operations, and whether it was aborted.
#[derive(Debug)]
pub struct Worker {
    state: OpState,
    limits: RuntimeLimits,
    aborted: bool,
}

impl Worker {
    /// The budgets this worker runs under.
    pub closed spec fn limits_of(self) -> RuntimeLimits {
        self.limits
    }

    /// Whether this worker was aborted.
    pub closed spec fn aborted(self) -> bool {
        self.aborted
    }

    /// The state behind the host operations of this worker.
    pub closed spec fn state_of(self) -> OpState {
        self.state
    }

    /// What to create the engine with and what to run first, for a script
    /// under the given budgets. `snapshot` is the embedded startup snapshot,
    /// empty where there is none.
    pub fn boot_plan(script: &Script, limits: Option<RuntimeLimits>, snapshot: &'static [u8]) -> (plan:
        BootPlan)
        ensures
            plan.engine.heap_initial == mb_as_bytes(limits_or_standard(limits).heap_initial_mb),
            plan.engine.heap_max == mb_as_bytes(limits_or_standard(limits).heap_max_mb),
            plan.engine.array_buffer_max == mb_as_bytes(limits_or_standard(limits).heap_max_mb),
            plan.engine.from_snapshot == (snapshot@.len() > 0),
            plan.engine.skip_extension_sources == (snapshot@.len() > 0),
            plan.bootstrap_source@ == bootstrap_text(script.env.deep_view()),
            plan.main_module@ == MAIN_MODULE@,
    {
        let limits = match limits {
            Some(l) => l,
            None => RuntimeLimits::default(),
        };
        let from_snapshot = runtime_snapshot(snapshot).is_some();
        let env = script.to_json_string();
        let mut source = String::from_str("globalThis.bootstrap('");
        source.append(USER_AGENT);
        source.append("', ");
        source.append(env.as_str());
        source.append(")");
        let heap_max = limits.heap_max_bytes();
        BootPlan {
            engine: EngineOptions {
                heap_initial: limits.heap_initial_bytes(),
                heap_max,
                array_buffer_max: heap_max,
                from_snapshot,
                skip_extension_sources: from_snapshot,
            },
            bootstrap_source: source,
            main_module: MAIN_MODULE,
        }
    }

    /// The worker for a script that was brought up as `report` says, or the
    /// initialization error of the first stage that failed. The script is
    /// used up either way.
    pub fn new(
        script: Script,
        log_tx: Option<LogSender>,
        limits: Option<RuntimeLimits>,
        report: BootReport,
    ) -> (r: Result<Worker, TerminationReason>)
        ensures
            match r {
                Ok(worker) => {
                    &&& boot_failure(report) is None
                    &&& worker.limits_of() == limits_or_standard(limits)
                    &&& !worker.aborted()
                    &&& worker.state_of().log_tx == log_tx
                    &&& worker.state_of().resource_table@ == Map::<ResourceId, Resource>::empty()
                    &&& worker.state_of().resource_table.next_rid() == 0
                },
                Err(reason) => {
                    &&& reason matches TerminationReason::InitializationError(text)
                    &&& boot_failure(report) == Some(text@)
                },
            },
    {
        if let Err(e) = &report.bootstrap {
            return Err(init_error("Bootstrap failed: ", e.as_str()));
        }
        if let Err(e) = &report.triggers_object {
            return Err(init_error("Failed to convert triggers to object: ", e.as_str()));
        }
        if !report.fetch_trigger {
            return Err(
                TerminationReason::InitializationError(
                    String::from_str("Fetch trigger not found in bootstrap response"),
                ),
            );
        }
        if !report.scheduled_trigger {
            return Err(
                TerminationReason::InitializationError(
                    String::from_str("Scheduled trigger not found in bootstrap response"),
                ),
            );
        }
        if let Err(e) = &report.main_module {
            return Err(init_error("Failed to load main module: ", e.as_str()));
        }
        if let Err(e) = &report.event_loop {
            return Err(init_error("Event loop error: ", e.as_str()));
        }
        if let Err(e) = &report.evaluation {
            return Err(init_error("Module evaluation error: ", e.as_str()));
        }
        let limits = match limits {
            Some(l) => l,
            None => RuntimeLimits::default(),
        };
        Ok(Worker { state: OpState::new(log_tx), limits, aborted: false })
    }

    /// The budgets this worker runs under.
    pub fn limits(&self) -> (limits: RuntimeLimits)
        ensures
            limits == self.limits_of(),
    {
        self.limits
    }

    /// Whether this worker was aborted.
    pub fn is_aborted(&self) -> (aborted: bool)
        ensures
            aborted == self.aborted(),
    {
        self.aborted
    }

    /// The state behind the host operations, for reading.
    pub fn state(&self) -> (state: &OpState)
        ensures
            *state == self.state_of(),
    {
        &self.state
    }

    /// The state behind the host operations, for the operations to work on.
    /// What they leave is the state of the worker; nothing else changes.
    pub fn state_mut(&mut self) -> (state: &mut OpState)
        ensures
            *state == old(self).state_of(),
            final(self).state_of() == *final(state),
            final(self).aborted() == old(self).aborted(),
            final(self).limits_of() == old(self).limits_of(),
    {
        &mut self.state
    }

    /// Marks the worker as aborted. The caller then tells the engine to stop
    /// what it is running. Nothing else changes.
    pub fn abort(&mut self)
        ensures
            final(self).aborted(),
            final(self).limits_of() == old(self).limits_of(),
            final(self).state_of() == old(self).state_of(),
    {
        self.aborted = true;
    }

    /// Accepts a task, unless the worker was aborted: then the answer is
    /// `Aborted` and nothing is touched. A worker whose handles have run out
    /// answers with an exception and touches nothing either. Otherwise the
    /// payload of the task is put into the handle table, and the answer says
    /// which trigger to call with its handle and which guards to arm: the CPU
    /// enforcer and the watchdog with their budgets, and the timed wait
    /// around the event loop with the wall-clock budget where that is not 0.
    pub fn exec(&mut self, task: Task) -> (r: Result<Dispatch, TerminationReason>)
        ensures
            final(self).aborted() == old(self).aborted(),
            final(self).limits_of() == old(self).limits_of(),
            match r {
                Ok(dispatch) => {
                    let limits = old(self).limits_of();
                    &&& !old(self).aborted()
                    &&& old(self).state_of().resource_table.next_rid() < u32::MAX
                    &&& dispatch.rid == old(self).state_of().resource_table.next_rid()
                    &&& dispatch.trigger == task.type_of()
                    &&& dispatch.cpu_budget_ms == limits.max_cpu_time_ms
                    &&& dispatch.wall_budget_ms == limits.max_wall_clock_time_ms
                    &&& dispatch.drive_timeout_ms == if limits.max_wall_clock_time_ms > 0 {
                        Some(limits.max_wall_clock_time_ms)
                    } else {
                        None
                    }
                    &&& !old(self).state_of().resource_table@.contains_key(dispatch.rid)
                    &&& final(self).state_of().resource_table@ == old(self).state_of().resource_table@.insert(dispatch.rid, payload_of(task))
                    &&& final(self).state_of().resource_table.next_rid() == dispatch.rid + 1
                    &&& final(self).state_of().log_tx == old(self).state_of().log_tx
                },
                Err(reason) => {
                    &&& *final(self) == *old(self)
                    &&& if old(self).aborted() {
                        reason == TerminationReason::Aborted
                    } else {
                        &&& old(self).state_of().resource_table.next_rid() == u32::MAX
                        &&& reason matches TerminationReason::Exception(text)
                        &&& text@ == HANDLES_EXHAUSTED@
                    }
                },
            },
    {
        if self.aborted {
            return Err(TerminationReason::Aborted);
        }
        if self.state.resource_table.handles_left() == 0 {
            return Err(TerminationReason::Exception(String::from_str(HANDLES_EXHAUSTED)));
        }
        let (rid, trigger) = exec_task(&mut self.state, task);
        let wall = self.limits.max_wall_clock_time_ms;
        Ok(
            Dispatch {
                rid,
                trigger,
                cpu_budget_ms: self.limits.max_cpu_time_ms,
                wall_budget_ms: wall,
                drive_timeout_ms: if wall > 0 {
                    Some(wall)
                } else {
                    None
                },
            },
        )
    }

    /// Why the task stopped, from what was observed while it ran.
    pub fn finish(&self, report: ExecReport) -> (r: Result<(), TerminationReason>)
        ensures
            match r {
                Ok(_) => reason_for(report, self.aborted()) is None,
                Err(reason) => reason_for(report, self.aborted()) == Some(reason),
            },
    {
        termination_reason(report, self.aborted)
    }
}

} // verus!
