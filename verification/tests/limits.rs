use openworkers_runtime_deno::limits::mb_to_bytes;
use openworkers_runtime_deno::RuntimeLimits;

#[test]
fn default_limits() {
    let limits = RuntimeLimits::default();
    assert_eq!(limits.heap_initial_mb, 1);
    assert_eq!(limits.heap_max_mb, 128);
    assert_eq!(limits.max_cpu_time_ms, 50);
    assert_eq!(limits.max_wall_clock_time_ms, 30_000);
}

#[test]
fn heap_sizes_in_bytes() {
    let limits = RuntimeLimits {
        heap_initial_mb: 16,
        heap_max_mb: 64,
        max_cpu_time_ms: 0,
        max_wall_clock_time_ms: 500,
    };
    assert_eq!(limits.heap_initial_bytes(), 16 * 1024 * 1024);
    assert_eq!(limits.heap_max_bytes(), 67_108_864);
}

#[test]
fn megabytes_to_bytes() {
    assert_eq!(mb_to_bytes(0), 0);
    assert_eq!(mb_to_bytes(1), 1_048_576);
    assert_eq!(mb_to_bytes(128), 134_217_728);
    assert_eq!(mb_to_bytes(usize::MAX / 1_048_576), (usize::MAX / 1_048_576) * 1_048_576);
}

#[test]
fn megabytes_to_bytes_saturates() {
    assert_eq!(mb_to_bytes(usize::MAX / 1_048_576 + 1), usize::MAX);
    assert_eq!(mb_to_bytes(usize::MAX), usize::MAX);
}
