use openworkers_runtime_deno::cpu_enforcement::{
    register_enforcer, timer_spec, unregister_enforcer, TimerSpec,
};
use openworkers_runtime_deno::{CpuEnforcer, EnforcerRegistry};

#[test]
fn timer_spec_splits_milliseconds() {
    assert_eq!(timer_spec(500), TimerSpec { tv_sec: 0, tv_nsec: 500_000_000 });
    assert_eq!(timer_spec(1000), TimerSpec { tv_sec: 1, tv_nsec: 0 });
    assert_eq!(timer_spec(2750), TimerSpec { tv_sec: 2, tv_nsec: 750_000_000 });
    assert_eq!(timer_spec(1), TimerSpec { tv_sec: 0, tv_nsec: 1_000_000 });
    assert_eq!(
        timer_spec(u64::MAX),
        TimerSpec { tv_sec: 18_446_744_073_709_551, tv_nsec: 615_000_000 }
    );
}

#[test]
fn no_enforcer_for_a_budget_of_zero() {
    let mut registry: EnforcerRegistry<&str> = EnforcerRegistry::new();
    assert!(CpuEnforcer::new(&mut registry, "isolate", 0).is_none());
    assert!(!registry.is_registered(1));
}

#[test]
fn enforcers_are_numbered_from_one() {
    let mut registry: EnforcerRegistry<&str> = EnforcerRegistry::new();
    let first = CpuEnforcer::new(&mut registry, "a", 50).unwrap();
    let second = CpuEnforcer::new(&mut registry, "b", 1500).unwrap();
    assert_eq!(first.enforcer_id(), 1);
    assert_eq!(second.enforcer_id(), 2);
    assert_eq!(first.timer_spec(), TimerSpec { tv_sec: 0, tv_nsec: 50_000_000 });
    assert_eq!(second.timer_spec(), TimerSpec { tv_sec: 1, tv_nsec: 500_000_000 });
    assert_eq!(registry.isolate_handle(1), Some(&"a"));
    assert_eq!(registry.isolate_handle(2), Some(&"b"));
    assert_eq!(registry.isolate_handle(3), None);
}

#[test]
fn signal_marks_the_enforcer_it_names() {
    let mut registry: EnforcerRegistry<&str> = EnforcerRegistry::new();
    let first = CpuEnforcer::new(&mut registry, "a", 50).unwrap();
    let second = CpuEnforcer::new(&mut registry, "b", 50).unwrap();
    assert!(!first.was_terminated(&registry));
    assert!(registry.on_signal(second.enforcer_id()));
    assert!(second.was_terminated(&registry));
    assert!(!first.was_terminated(&registry));
    assert_eq!(registry.isolate_handle(2), Some(&"b"));
}

#[test]
fn signal_for_an_unknown_enforcer_is_ignored() {
    let mut registry: EnforcerRegistry<&str> = EnforcerRegistry::new();
    let first = CpuEnforcer::new(&mut registry, "a", 50).unwrap();
    assert!(!registry.on_signal(0));
    assert!(!registry.on_signal(7));
    assert!(!first.was_terminated(&registry));
    assert!(registry.is_registered(1));
}

#[test]
fn released_enforcer_is_gone_and_its_number_is_not_used_again() {
    let mut registry: EnforcerRegistry<&str> = EnforcerRegistry::new();
    let first = CpuEnforcer::new(&mut registry, "a", 50).unwrap();
    first.release(&mut registry);
    assert!(!registry.is_registered(1));
    assert!(!registry.on_signal(1));
    assert!(!registry.was_terminated(1));
    let next = CpuEnforcer::new(&mut registry, "b", 50).unwrap();
    assert_eq!(next.enforcer_id(), 2);
}

#[test]
fn register_and_unregister_by_hand() {
    let mut registry: EnforcerRegistry<u8> = EnforcerRegistry::new();
    assert_eq!(register_enforcer(&mut registry, 9), Some(1));
    assert!(registry.is_registered(1));
    unregister_enforcer(&mut registry, 1);
    assert!(!registry.is_registered(1));
    // taking out what is not there changes nothing
    unregister_enforcer(&mut registry, 1);
    unregister_enforcer(&mut registry, 5);
    assert_eq!(register_enforcer(&mut registry, 9), Some(2));
}
