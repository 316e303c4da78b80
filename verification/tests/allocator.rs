use openworkers_runtime_deno::runtime::{termination_reason, DriveOutcome, ExecReport};
use openworkers_runtime_deno::util::trigger_exception;
use openworkers_runtime_deno::{
    CpuEnforcer, CustomAllocator, EnforcerRegistry, RuntimeLimits, TerminationReason,
    TimeoutGuard,
};

#[test]
fn new_allocator_is_empty() {
    let allocator = CustomAllocator::new(1024);
    assert_eq!(allocator.current_usage(), 0);
    assert_eq!(allocator.max_bytes(), 1024);
    assert!(!allocator.memory_limit_hit());
}

#[test]
fn count_is_the_sum_of_live_blocks() {
    let mut allocator = CustomAllocator::new(100);
    assert!(allocator.allocate(10));
    assert!(allocator.allocate(20));
    assert!(allocator.allocate(30));
    assert_eq!(allocator.current_usage(), 60);
    allocator.free(20);
    assert_eq!(allocator.current_usage(), 40);
    allocator.free(10);
    allocator.free(30);
    assert_eq!(allocator.current_usage(), 0);
    assert!(!allocator.memory_limit_hit());
}

#[test]
fn allocation_up_to_the_limit_is_granted() {
    let mut allocator = CustomAllocator::new(100);
    assert!(allocator.allocate(100));
    assert_eq!(allocator.current_usage(), 100);
    assert!(!allocator.memory_limit_hit());
    assert!(allocator.allocate(0));
    assert!(!allocator.allocate(1));
    assert!(allocator.memory_limit_hit());
}

#[test]
fn refused_allocation_is_not_counted_and_raises_the_flag() {
    let mut allocator = CustomAllocator::new(100);
    assert!(allocator.allocate(60));
    assert!(!allocator.allocate(41));
    assert_eq!(allocator.current_usage(), 60);
    assert!(allocator.memory_limit_hit());
    // the flag stays up until it is taken
    assert!(allocator.allocate(40));
    assert!(allocator.memory_limit_hit());
    assert!(allocator.take_memory_limit_hit());
    assert!(!allocator.memory_limit_hit());
    assert!(!allocator.take_memory_limit_hit());
    assert_eq!(allocator.current_usage(), 100);
}

#[test]
fn allocation_that_would_overflow_the_count_is_refused() {
    let mut allocator = CustomAllocator::new(usize::MAX);
    assert!(allocator.allocate(10));
    assert!(!allocator.allocate(usize::MAX));
    assert_eq!(allocator.current_usage(), 10);
    assert!(allocator.memory_limit_hit());
}

#[test]
fn reallocation_applies_the_difference() {
    let mut allocator = CustomAllocator::new(100);
    assert!(allocator.allocate(40));
    assert!(allocator.reallocate(40, 70));
    assert_eq!(allocator.current_usage(), 70);
    assert!(allocator.reallocate(70, 10));
    assert_eq!(allocator.current_usage(), 10);
    assert!(!allocator.memory_limit_hit());
    allocator.free(10);
    assert_eq!(allocator.current_usage(), 0);
}

#[test]
fn refused_reallocation_is_rolled_back() {
    let mut allocator = CustomAllocator::new(100);
    assert!(allocator.allocate(40));
    assert!(allocator.allocate(50));
    assert!(!allocator.reallocate(40, 51));
    assert_eq!(allocator.current_usage(), 90);
    assert!(allocator.memory_limit_hit());
    // the block kept its size
    assert!(allocator.reallocate(40, 50));
    assert_eq!(allocator.current_usage(), 100);
}

#[test]
fn memory_bomb_ends_with_memory_limit() {
    let limits = RuntimeLimits {
        heap_initial_mb: 1,
        heap_max_mb: 128,
        max_cpu_time_ms: 0,
        max_wall_clock_time_ms: 0,
    };
    let mut allocator = CustomAllocator::new(limits.heap_max_bytes());
    assert_eq!(allocator.max_bytes(), 128 * 1024 * 1024);
    // new Uint8Array(200 * 1024 * 1024)
    assert!(!allocator.allocate(200 * 1024 * 1024));
    assert_eq!(allocator.current_usage(), 0);
    // the engine turns the null pointer into a RangeError in the script
    let registry: EnforcerRegistry<()> = EnforcerRegistry::new();
    let report = ExecReport::collect(
        trigger_exception(false, Some("RangeError: Array buffer allocation failed".to_string())),
        DriveOutcome::Completed,
        None,
        &registry,
        &TimeoutGuard::new(0),
        &mut allocator,
    );
    assert!(report.memory_limit_hit);
    assert!(!report.cpu_limit_hit);
    assert!(!report.wall_clock_hit);
    // the flag is down for the next run
    assert!(!allocator.memory_limit_hit());
    assert_eq!(termination_reason(report, false), Err(TerminationReason::MemoryLimit));
}

#[test]
fn report_gathers_the_guards() {
    let mut registry: EnforcerRegistry<()> = EnforcerRegistry::new();
    let enforcer = CpuEnforcer::new(&mut registry, (), 50).unwrap();
    let mut guard = TimeoutGuard::new(100);
    let mut allocator = CustomAllocator::new(10);

    let report = ExecReport::collect(
        None,
        DriveOutcome::Completed,
        Some(&enforcer),
        &registry,
        &guard,
        &mut allocator,
    );
    assert!(!report.cpu_limit_hit && !report.wall_clock_hit && !report.memory_limit_hit);
    assert_eq!(termination_reason(report, false), Ok(()));

    registry.on_signal(enforcer.enforcer_id());
    guard.on_wake(openworkers_runtime_deno::timeout::Wake::TimedOut);
    let report = ExecReport::collect(
        None,
        DriveOutcome::Failed("terminated".to_string()),
        Some(&enforcer),
        &registry,
        &guard,
        &mut allocator,
    );
    assert!(report.cpu_limit_hit && report.wall_clock_hit && !report.memory_limit_hit);
    assert_eq!(termination_reason(report, false), Err(TerminationReason::CpuTimeLimit));

    // without its enforcer the same run is a wall-clock timeout
    let report = ExecReport::collect(
        None,
        DriveOutcome::Failed("terminated".to_string()),
        None,
        &registry,
        &guard,
        &mut allocator,
    );
    assert_eq!(termination_reason(report, false), Err(TerminationReason::WallClockTimeout));
}
