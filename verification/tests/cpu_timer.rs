use openworkers_runtime_deno::cpu_timer::{
    get_thread_cpu_time_unix, get_thread_cpu_time_windows,
};
use openworkers_runtime_deno::{get_thread_cpu_time, ClockReading, CpuTime, CpuTimer};

/// Asks the operating system for the CPU time of the calling thread.
fn read_clock() -> ClockReading {
    let time = rustix::time::clock_gettime(rustix::time::ClockId::ThreadCPUTime);
    ClockReading::Unix { ret: 0, tv_sec: time.tv_sec, tv_nsec: time.tv_nsec }
}

#[test]
fn test_get_thread_cpu_time() {
    let time = get_thread_cpu_time(read_clock());
    assert!(time.is_some(), "Should be able to get CPU time");

    let time = time.unwrap();
    assert!(time.as_nanos() > 0, "CPU time should be non-zero");
}

#[test]
fn test_cpu_timer_measures_computation() {
    let timer = CpuTimer::start(get_thread_cpu_time(read_clock()));

    // Do some CPU-intensive work
    let mut sum = 0u64;
    for i in 0..1_000_000 {
        sum = std::hint::black_box(sum.wrapping_add(i));
    }

    let elapsed = timer.elapsed(get_thread_cpu_time(read_clock()));

    // Prevent optimization
    assert!(sum > 0);

    // Should have measured some CPU time
    assert!(
        elapsed.as_micros() > 0,
        "Should measure CPU time for computation"
    );
}


#[test]
fn unix_reading_is_seconds_and_nanoseconds() {
    let time = get_thread_cpu_time_unix(0, 3, 250).unwrap();
    assert_eq!(time.as_nanos(), 3_000_000_250);
    assert_eq!(time.as_micros(), 3_000_000);
    assert_eq!(time.as_millis(), 3_000);
    assert_eq!(time, CpuTime::new(3, 250));
}

#[test]
fn unix_reading_of_a_failed_call_is_nothing() {
    assert!(get_thread_cpu_time_unix(-1, 3, 250).is_none());
    assert!(get_thread_cpu_time(ClockReading::Unix { ret: -1, tv_sec: 0, tv_nsec: 0 }).is_none());
}

#[test]
fn unix_reading_out_of_range_is_nothing() {
    assert!(get_thread_cpu_time_unix(0, -1, 0).is_none());
    assert!(get_thread_cpu_time_unix(0, 0, -1).is_none());
    assert!(get_thread_cpu_time_unix(0, 0, 1_000_000_000).is_none());
    assert_eq!(
        get_thread_cpu_time_unix(0, 0, 999_999_999).unwrap().as_nanos(),
        999_999_999
    );
    assert_eq!(
        get_thread_cpu_time_unix(0, i64::MAX, 0).unwrap().as_nanos(),
        i64::MAX as u128 * 1_000_000_000
    );
}

#[test]
fn windows_reading_adds_kernel_and_user_ticks() {
    // 10 kernel ticks and 5 user ticks of 100 ns each
    let time = get_thread_cpu_time_windows(1, 0, 10, 0, 5).unwrap();
    assert_eq!(time.as_nanos(), 1_500);
    // the high half counts 2^32 ticks
    let time = get_thread_cpu_time_windows(1, 1, 0, 0, 0).unwrap();
    assert_eq!(time.as_nanos(), 4_294_967_296u128 * 100);
    let reading = ClockReading::Windows {
        ret: 1,
        kernel_high: 0,
        kernel_low: 20_000_000,
        user_high: 0,
        user_low: 5,
    };
    assert_eq!(get_thread_cpu_time(reading).unwrap().as_nanos(), 2_000_000_500);
}

#[test]
fn windows_reading_of_the_largest_counts_does_not_overflow() {
    let time =
        get_thread_cpu_time_windows(1, u32::MAX, u32::MAX, u32::MAX, u32::MAX).unwrap();
    assert_eq!(time.as_nanos(), 2 * (u64::MAX as u128) * 100);
}

#[test]
fn windows_reading_of_a_failed_call_is_nothing() {
    assert!(get_thread_cpu_time_windows(0, 0, 10, 0, 5).is_none());
}

#[test]
fn unsupported_platform_has_no_cpu_time() {
    assert!(get_thread_cpu_time(ClockReading::Unsupported).is_none());
}

#[test]
fn timer_measures_the_difference() {
    let timer = CpuTimer::start(Some(CpuTime::new(1, 900_000_000)));
    let elapsed = timer.elapsed(Some(CpuTime::new(3, 100_000_000)));
    assert_eq!(elapsed.as_nanos(), 1_200_000_000);
    assert_eq!(elapsed, CpuTime::new(1, 200_000_000));
}

#[test]
fn timer_does_not_run_backwards() {
    let timer = CpuTimer::start(Some(CpuTime::new(5, 0)));
    assert_eq!(timer.elapsed(Some(CpuTime::new(4, 999_999_999))).as_nanos(), 0);
    assert_eq!(timer.elapsed(Some(CpuTime::new(5, 0))).as_nanos(), 0);
}

#[test]
fn timer_without_a_measurement() {
    // a failed measurement at the start counts from zero
    let timer = CpuTimer::start(None);
    assert_eq!(timer.elapsed(Some(CpuTime::new(0, 42))).as_nanos(), 42);
    // a failed measurement at the end counts nothing
    let timer = CpuTimer::start(Some(CpuTime::new(7, 1)));
    assert_eq!(timer.elapsed(None).as_nanos(), 0);
}

#[test]
fn saturating_sub_borrows_a_second() {
    let a = CpuTime::new(2, 1);
    let b = CpuTime::new(1, 2);
    assert_eq!(a.saturating_sub(&b).as_nanos(), 999_999_999);
    assert_eq!(b.saturating_sub(&a), CpuTime::zero());
    assert_eq!(CpuTime::zero().as_nanos(), 0);
}
