use openworkers_runtime_deno::timeout::{WatchdogAction, Wake};
use openworkers_runtime_deno::TimeoutGuard;

#[test]
fn test_disabled_guard() {
    // Create a disabled guard (timeout = 0)
    // Should not spawn any thread
    let guard = TimeoutGuard::new(0);

    assert!(guard.watchdog_wait_ms().is_none());
    assert!(!guard.is_armed());
}

#[test]
fn armed_guard_waits_for_its_budget() {
    let guard = TimeoutGuard::new(500);
    assert!(guard.is_armed());
    assert_eq!(guard.watchdog_wait_ms(), Some(500));
    assert!(!guard.was_triggered());
}

#[test]
fn timeout_triggers_and_terminates() {
    let mut guard = TimeoutGuard::new(500);
    assert_eq!(guard.on_wake(Wake::TimedOut), WatchdogAction::Terminate);
    assert!(guard.was_triggered());
}

#[test]
fn cancellation_exits_silently() {
    let mut guard = TimeoutGuard::new(500);
    assert_eq!(guard.on_wake(Wake::Cancelled), WatchdogAction::Exit);
    assert!(!guard.was_triggered());
    assert_eq!(guard.on_wake(Wake::Disconnected), WatchdogAction::Exit);
    assert!(!guard.was_triggered());
}

#[test]
fn disabled_guard_never_triggers() {
    let mut guard = TimeoutGuard::new(0);
    assert_eq!(guard.on_wake(Wake::TimedOut), WatchdogAction::Exit);
    assert!(!guard.was_triggered());
}
