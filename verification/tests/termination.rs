use openworkers_runtime_deno::TerminationReason;

#[test]
fn success_is_the_only_success() {
    assert!(TerminationReason::Success.is_success());
    assert!(!TerminationReason::CpuTimeLimit.is_success());
    assert!(!TerminationReason::Aborted.is_success());
    assert!(!TerminationReason::Exception("boom".to_string()).is_success());
}

#[test]
fn limits_are_the_three_budgets() {
    assert!(TerminationReason::CpuTimeLimit.is_limit_exceeded());
    assert!(TerminationReason::WallClockTimeout.is_limit_exceeded());
    assert!(TerminationReason::MemoryLimit.is_limit_exceeded());
    assert!(!TerminationReason::Success.is_limit_exceeded());
    assert!(!TerminationReason::Exception("x".to_string()).is_limit_exceeded());
    assert!(!TerminationReason::InitializationError("x".to_string()).is_limit_exceeded());
    assert!(!TerminationReason::Aborted.is_limit_exceeded());
    assert!(!TerminationReason::Terminated.is_limit_exceeded());
}

#[test]
fn http_status_of_each_reason() {
    assert_eq!(TerminationReason::Success.http_status(), 200);
    assert_eq!(TerminationReason::CpuTimeLimit.http_status(), 429);
    assert_eq!(TerminationReason::MemoryLimit.http_status(), 429);
    assert_eq!(TerminationReason::WallClockTimeout.http_status(), 504);
    assert_eq!(TerminationReason::Exception("e".to_string()).http_status(), 500);
    assert_eq!(TerminationReason::InitializationError("e".to_string()).http_status(), 500);
    assert_eq!(TerminationReason::Aborted.http_status(), 503);
    assert_eq!(TerminationReason::Terminated.http_status(), 503);
}

#[test]
fn description_of_each_reason() {
    assert_eq!(TerminationReason::Success.description(), "Worker completed successfully");
    assert_eq!(TerminationReason::CpuTimeLimit.description(), "Worker exceeded CPU time limit");
    assert_eq!(
        TerminationReason::WallClockTimeout.description(),
        "Worker exceeded wall-clock time limit"
    );
    assert_eq!(TerminationReason::MemoryLimit.description(), "Worker exceeded memory limit");
    assert_eq!(
        TerminationReason::Exception("e".to_string()).description(),
        "Worker threw an uncaught exception"
    );
    assert_eq!(
        TerminationReason::InitializationError("e".to_string()).description(),
        "Worker failed to initialize"
    );
    assert_eq!(TerminationReason::Aborted.description(), "Worker was aborted");
    assert_eq!(TerminationReason::Terminated.description(), "Worker was terminated");
}
