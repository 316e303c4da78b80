//! The budgets a worker runs under.

use vstd::prelude::*;

verus! {

/// Bytes in one mebibyte.
pub const BYTES_PER_MB: usize = 1048576;

/// Resource budgets of one worker. A time budget of 0 disables that limit.
#[derive(Debug, Clone, Copy, PartialEq, Eq, Structural)]
pub struct RuntimeLimits {
    /// Initial size of the engine heap, in MiB.
    pub heap_initial_mb: usize,
    /// Largest size of the engine heap, and of all live array buffers, in MiB.
    pub heap_max_mb: usize,
    /// Time on the CPU that one task may use, in milliseconds.
    pub max_cpu_time_ms: u64,
    /// Elapsed time that one task may take, in milliseconds.
    pub max_wall_clock_time_ms: u64,
}

/// `mb` MiB in bytes, held at `usize::MAX` where the product does not fit.
pub open spec fn mb_as_bytes(mb: usize) -> usize {
    if mb * BYTES_PER_MB <= usize::MAX {
        (mb * BYTES_PER_MB) as usize
    } else {
        usize::MAX
    }
}

/// Converts MiB to bytes, saturating at `usize::MAX`.
pub fn mb_to_bytes(mb: usize) -> (bytes: usize)
    ensures
        bytes == mb_as_bytes(mb),
{
    if mb > usize::MAX / BYTES_PER_MB {
        usize::MAX
    } else {
        mb * BYTES_PER_MB
    }
}

impl RuntimeLimits {
    /// The budgets used where none are given: 1 MiB initial heap, 128 MiB
    /// heap, 50 ms of CPU time, 30 s of elapsed time.
    pub open spec fn standard() -> RuntimeLimits {
        RuntimeLimits {
            heap_initial_mb: 1,
            heap_max_mb: 128,
            max_cpu_time_ms: 50,
            max_wall_clock_time_ms: 30000,
        }
    }

    /// Initial heap size in bytes.
    pub fn heap_initial_bytes(&self) -> (bytes: usize)
        ensures
            bytes == mb_as_bytes(self.heap_initial_mb),
    {
        mb_to_bytes(self.heap_initial_mb)
    }

    /// Largest heap size in bytes.
    pub fn heap_max_bytes(&self) -> (bytes: usize)
        ensures
            bytes == mb_as_bytes(self.heap_max_mb),
    {
        mb_to_bytes(self.heap_max_mb)
    }
}

impl Default for RuntimeLimits {
    fn default() -> (limits: RuntimeLimits)
        ensures
            limits == RuntimeLimits::standard(),
    {
        RuntimeLimits {
            heap_initial_mb: 1,
            heap_max_mb: 128,
            max_cpu_time_ms: 50,
            max_wall_clock_time_ms: 30000,
        }
    }
}

} // verus!
