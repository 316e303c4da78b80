//! Why a task stopped, and how the host reports it.

use vstd::prelude::*;

verus! {

/// Reason why a worker stopped running a task.
#[derive(Debug, Clone, PartialEq, Eq)]
pub enum TerminationReason {
    /// The task ran to completion.
    Success,
    /// The task used more CPU time than its budget.
    CpuTimeLimit,
    /// The task took more elapsed time than its budget.
    WallClockTimeout,
    /// The task asked for more memory than its budget.
    MemoryLimit,
    /// The script threw an exception that nothing caught.
    Exception(String),
    /// The worker could not be brought up.
    InitializationError(String),
    /// The worker was aborted by its owner.
    Aborted,
    /// The worker was stopped from outside.
    Terminated,
}

impl TerminationReason {
    /// The HTTP status that stands for this reason, as a number.
    pub open spec fn status_of(self) -> int {
        match self {
            TerminationReason::Success => 200,
            TerminationReason::CpuTimeLimit => 429,
            TerminationReason::MemoryLimit => 429,
            TerminationReason::WallClockTimeout => 504,
            TerminationReason::Exception(_) => 500,
            TerminationReason::InitializationError(_) => 500,
            TerminationReason::Aborted => 503,
            TerminationReason::Terminated => 503,
        }
    }

    /// The fixed text that describes this reason.
    pub open spec fn description_of(self) -> Seq<char> {
        match self {
            TerminationReason::Success => "Worker completed successfully"@,
            TerminationReason::CpuTimeLimit => "Worker exceeded CPU time limit"@,
            TerminationReason::WallClockTimeout => "Worker exceeded wall-clock time limit"@,
            TerminationReason::MemoryLimit => "Worker exceeded memory limit"@,
            TerminationReason::Exception(_) => "Worker threw an uncaught exception"@,
            TerminationReason::InitializationError(_) => "Worker failed to initialize"@,
            TerminationReason::Aborted => "Worker was aborted"@,
            TerminationReason::Terminated => "Worker was terminated"@,
        }
    }

    /// Whether a resource budget (CPU, wall clock or memory) was exceeded.
    pub open spec fn limit_exceeded(self) -> bool {
        self is CpuTimeLimit || self is WallClockTimeout || self is MemoryLimit
    }

    /// True exactly for `Success`.
    pub fn is_success(&self) -> (b: bool)
        ensures
            b == (*self is Success),
    {
        match self {
            TerminationReason::Success => true,
            _ => false,
        }
    }

    /// True exactly for the three resource limits.
    pub fn is_limit_exceeded(&self) -> (b: bool)
        ensures
            b == self.limit_exceeded(),
    {
        match self {
            TerminationReason::CpuTimeLimit => true,
            TerminationReason::WallClockTimeout => true,
            TerminationReason::MemoryLimit => true,
            _ => false,
        }
    }

    /// A short human-readable description. The detail carried by
    /// `Exception` and `InitializationError` is not part of it.
    pub fn description(&self) -> (text: &'static str)
        ensures
            text@ == self.description_of(),
    {
        match self {
            TerminationReason::Success => "Worker completed successfully",
            TerminationReason::CpuTimeLimit => "Worker exceeded CPU time limit",
            TerminationReason::WallClockTimeout => "Worker exceeded wall-clock time limit",
            TerminationReason::MemoryLimit => "Worker exceeded memory limit",
            TerminationReason::Exception(_) => "Worker threw an uncaught exception",
            TerminationReason::InitializationError(_) => "Worker failed to initialize",
            TerminationReason::Aborted => "Worker was aborted",
            TerminationReason::Terminated => "Worker was terminated",
        }
    }

    /// The HTTP status code the host answers with for this reason.
    pub fn http_status(&self) -> (status: u16)
        ensures
            status == self.status_of(),
    {
        match self {
            TerminationReason::Success => 200,
            TerminationReason::CpuTimeLimit => 429,
            TerminationReason::MemoryLimit => 429,
            TerminationReason::WallClockTimeout => 504,
            TerminationReason::Exception(_) => 500,
            TerminationReason::InitializationError(_) => 500,
            TerminationReason::Aborted => 503,
            TerminationReason::Terminated => 503,
        }
    }
}

/// A limit reason is never a success, and is answered with 429 or 504.
pub proof fn lemma_limit_is_not_success(reason: TerminationReason)
    requires
        reason.limit_exceeded(),
    ensures
        !(reason is Success),
        reason.status_of() == 429 || reason.status_of() == 504,
{
}

/// Success is the one reason answered with a status below 400.
pub proof fn lemma_only_success_is_ok(reason: TerminationReason)
    ensures
        reason.status_of() < 400 <==> reason is Success,
        100 <= reason.status_of() <= 599,
{
}

} // verus!
