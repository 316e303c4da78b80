//! Time that a thread spent on the CPU, as the operating system reports it.

use vstd::prelude::*;

verus! {

/// Nanoseconds in one second.
pub const NANOS_PER_SEC: u32 = 1000000000;

/// An amount of CPU time: whole seconds and the nanoseconds beyond them.
#[derive(Debug, Clone, Copy, PartialEq, Eq, Structural)]
pub struct CpuTime {
    secs: u64,
    nanos: u32,
}

/// What the operating system answered when asked for the CPU time of the
/// calling thread.
#[derive(Debug, Clone, Copy, PartialEq, Eq, Structural)]
pub enum ClockReading {
    /// The answer of `clock_gettime` for the thread's CPU-time clock: its
    /// return value and the two fields of the `timespec`.
    Unix { ret: i32, tv_sec: i64, tv_nsec: i64 },
    /// The answer of `GetThreadTimes`: its return value, and the halves of
    /// the kernel time and of the user time, each a count of 100 ns ticks.
    Windows { ret: i32, kernel_high: u32, kernel_low: u32, user_high: u32, user_low: u32 },
    /// The platform has no such clock.
    Unsupported,
}

/// The count of ticks that two 32-bit halves stand for.
pub open spec fn ticks(high: u32, low: u32) -> int {
    high * 0x1_0000_0000 + low
}

/// The time in nanoseconds that a reading stands for, if it stands for one.
/// A Unix reading does when the call succeeded with a `timespec` that is not
/// negative and whose nanoseconds are below one second. A Windows reading
/// does when the call succeeded: it is the sum of kernel and user time.
pub open spec fn reading_nanos(reading: ClockReading) -> Option<int> {
    match reading {
        ClockReading::Unix { ret, tv_sec, tv_nsec } => {
            if ret == 0 && tv_sec >= 0 && 0 <= tv_nsec < NANOS_PER_SEC {
                Some(tv_sec * NANOS_PER_SEC + tv_nsec)
            } else {
                None
            }
        },
        ClockReading::Windows { ret, kernel_high, kernel_low, user_high, user_low } => {
            if ret != 0 {
                Some((ticks(kernel_high, kernel_low) + ticks(user_high, user_low)) * 100)
            } else {
                None
            }
        },
        ClockReading::Unsupported => None,
    }
}

impl CpuTime {
    #[verifier::type_invariant]
    spec fn nanos_below_one_second(self) -> bool {
        self.nanos < NANOS_PER_SEC
    }

    /// This amount in nanoseconds.
    pub closed spec fn nanos_of(self) -> int {
        self.secs * NANOS_PER_SEC + self.nanos
    }

    /// No time at all.
    pub fn zero() -> (t: CpuTime)
        ensures
            t.nanos_of() == 0,
    {
        CpuTime { secs: 0, nanos: 0 }
    }

    /// The amount of `secs` seconds and `nanos` nanoseconds, where `nanos`
    /// is below one second.
    pub fn new(secs: u64, nanos: u32) -> (t: CpuTime)
        requires
            nanos < NANOS_PER_SEC,
        ensures
            t.nanos_of() == secs * NANOS_PER_SEC + nanos,
    {
        CpuTime { secs, nanos }
    }

    /// This amount in nanoseconds.
    pub fn as_nanos(&self) -> (n: u128)
        ensures
            n == self.nanos_of(),
    {
        proof {
            use_type_invariant(self);
        }
        let secs = self.secs as u128;
        assert(secs * 1000000000 <= 0xffff_ffff_ffff_ffff * 1000000000) by (nonlinear_arith)
            requires
                secs <= 0xffff_ffff_ffff_ffff,
        ;
        secs * 1000000000 + self.nanos as u128
    }

    /// This amount in whole microseconds.
    pub fn as_micros(&self) -> (n: u128)
        ensures
            n == self.nanos_of() / 1000,
    {
        self.as_nanos() / 1000
    }

    /// This amount in whole milliseconds.
    pub fn as_millis(&self) -> (n: u128)
        ensures
            n == self.nanos_of() / 1000000,
    {
        self.as_nanos() / 1000000
    }

    /// `self` less `earlier`, or nothing where `earlier` is the greater.
    pub fn saturating_sub(&self, earlier: &CpuTime) -> (t: CpuTime)
        ensures
            t.nanos_of() == if self.nanos_of() >= earlier.nanos_of() {
                self.nanos_of() - earlier.nanos_of()
            } else {
                0
            },
    {
        proof {
            use_type_invariant(self);
            use_type_invariant(earlier);
        }
        if self.secs < earlier.secs {
            assert(self.nanos_of() < earlier.nanos_of()) by (nonlinear_arith)
                requires
                    self.nanos_of() == self.secs * 1000000000 + self.nanos,
                    earlier.nanos_of() == earlier.secs * 1000000000 + earlier.nanos,
                    self.secs < earlier.secs,
                    self.nanos < 1000000000,
            ;
            return CpuTime { secs: 0, nanos: 0 };
        }
        let secs = self.secs - earlier.secs;
        if self.nanos >= earlier.nanos {
            assert((self.secs - earlier.secs) * 1000000000 == self.secs * 1000000000 - earlier.secs
                * 1000000000) by (nonlinear_arith);
            CpuTime { secs, nanos: self.nanos - earlier.nanos }
        } else if secs == 0 {
            CpuTime { secs: 0, nanos: 0 }
        } else {
            assert((self.secs - earlier.secs - 1) * 1000000000 == self.secs * 1000000000
                - earlier.secs * 1000000000 - 1000000000) by (nonlinear_arith);
            CpuTime { secs: secs - 1, nanos: self.nanos + NANOS_PER_SEC - earlier.nanos }
        }
    }
}

/// The CPU time in a Unix reading.
pub fn get_thread_cpu_time_unix(ret: i32, tv_sec: i64, tv_nsec: i64) -> (time: Option<CpuTime>)
    ensures
        match time {
            Some(t) => reading_nanos(ClockReading::Unix { ret, tv_sec, tv_nsec }) == Some(
                t.nanos_of(),
            ),
            None => reading_nanos(ClockReading::Unix { ret, tv_sec, tv_nsec }) is None,
        },
{
    if ret == 0 && tv_sec >= 0 && 0 <= tv_nsec && tv_nsec < 1000000000 {
        Some(CpuTime { secs: tv_sec as u64, nanos: tv_nsec as u32 })
    } else {
        None
    }
}

/// The two halves of a tick count put together.
fn join_ticks(high: u32, low: u32) -> (n: u64)
    ensures
        n == ticks(high, low),
{
    let n = ((high as u64) << 32) | (low as u64);
    assert(n == high * 0x1_0000_0000 + low) by (bit_vector)
        requires
            n == ((high as u64) << 32) | (low as u64),
    ;
    n
}

/// The CPU time in a Windows reading: kernel time and user time together,
/// 100 ns to the tick.
pub fn get_thread_cpu_time_windows(
    ret: i32,
    kernel_high: u32,
    kernel_low: u32,
    user_high: u32,
    user_low: u32,
) -> (time: Option<CpuTime>)
    ensures
        match time {
            Some(t) => reading_nanos(
                ClockReading::Windows { ret, kernel_high, kernel_low, user_high, user_low },
            ) == Some(t.nanos_of()),
            None => reading_nanos(
                ClockReading::Windows { ret, kernel_high, kernel_low, user_high, user_low },
            ) is None,
        },
{
    if ret == 0 {
        return None;
    }
    let kernel_time = join_ticks(kernel_high, kernel_low);
    let user_time = join_ticks(user_high, user_low);
    let total_100ns: u128 = kernel_time as u128 + user_time as u128;
    let total_ns: u128 = total_100ns * 100;
    let secs: u128 = total_ns / 1000000000;
    let nanos: u128 = total_ns % 1000000000;
    assert(secs * 1000000000 + nanos == total_ns) by (nonlinear_arith)
        requires
            secs == total_ns / 1000000000,
            nanos == total_ns % 1000000000,
    ;
    Some(CpuTime { secs: secs as u64, nanos: nanos as u32 })
}

/// The CPU time of the calling thread, from what the operating system
/// answered; `None` where the measurement failed or there is none.
pub fn get_thread_cpu_time(reading: ClockReading) -> (time: Option<CpuTime>)
    ensures
        match time {
            Some(t) => reading_nanos(reading) == Some(t.nanos_of()),
            None => reading_nanos(reading) is None,
        },
{
    match reading {
        ClockReading::Unix { ret, tv_sec, tv_nsec } => get_thread_cpu_time_unix(
            ret,
            tv_sec,
            tv_nsec,
        ),
        ClockReading::Windows {
            ret,
            kernel_high,
            kernel_low,
            user_high,
            user_low,
        } => get_thread_cpu_time_windows(ret, kernel_high, kernel_low, user_high, user_low),
        ClockReading::Unsupported => None,
    }
}

/// The nanoseconds of an optional amount, or `otherwise` where there is none.
pub open spec fn nanos_or(time: Option<CpuTime>, otherwise: int) -> int {
    match time {
        Some(t) => t.nanos_of(),
        None => otherwise,
    }
}

/// Measures the CPU time spent between its start and a later moment.
#[derive(Debug, Clone, Copy)]
pub struct CpuTimer {
    start: CpuTime,
}

impl CpuTimer {
    /// The CPU time at which this timer was started.
    pub closed spec fn started_at(self) -> CpuTime {
        self.start
    }

    /// Starts a timer at the CPU time `now`, or at zero where the
    /// measurement failed.
    pub fn start(now: Option<CpuTime>) -> (timer: CpuTimer)
        ensures
            timer.started_at().nanos_of() == nanos_or(now, 0),
    {
        match now {
            Some(t) => CpuTimer { start: t },
            None => CpuTimer { start: CpuTime::zero() },
        }
    }

    /// The CPU time spent since the start, at the CPU time `now`: the
    /// difference, nothing where the clock went backwards, and nothing where
    /// the measurement failed.
    pub fn elapsed(&self, now: Option<CpuTime>) -> (spent: CpuTime)
        ensures
            spent.nanos_of() == if nanos_or(now, 0) >= self.started_at().nanos_of() && now is Some {
                nanos_or(now, 0) - self.started_at().nanos_of()
            } else {
                0
            },
    {
        match now {
            Some(t) => t.saturating_sub(&self.start),
            None => self.start.saturating_sub(&self.start),
        }
    }
}

} // verus!
