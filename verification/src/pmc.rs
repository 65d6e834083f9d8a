//! Performance counter sampling: the sampler's clock reading and the
//! counter estimates derived from the working set.
use vstd::prelude::*;
use std::time::Instant;

verus! {

/// A point in monotonic time.
#[verifier::external_type_specification]
#[verifier::external_body]
pub struct ExInstant(Instant);

/// Reads the monotonic clock (`std::time::Instant::now`). Nothing is
/// promised of the reading: it depends on when the call is made.
#[verifier::external_body]
fn clock_now() -> Instant {
    Instant::now()
}

/// A running measurement over a buffer of `num_bytes` bytes.
pub struct PmcSampler {
    start_time: Instant,
    num_bytes: usize,
}

impl PmcSampler {
    /// The number of bytes the measured step moves.
    pub closed spec fn bytes_moved(&self) -> usize {
        self.num_bytes
    }

    /// Starts a measurement: reads the clock and records the byte count.
    pub fn start(num_bytes: usize) -> (s: Self)
        ensures
            s.bytes_moved() == num_bytes,
    {
        PmcSampler { start_time: clock_now(), num_bytes }
    }

    /// The clock reading taken when the measurement started.
    pub closed spec fn started_at(&self) -> Instant {
        self.start_time
    }

    /// The clock reading taken when the measurement started.
    pub fn start_time(&self) -> (t: Instant)
        ensures
            t == self.started_at(),
    {
        self.start_time
    }

    /// The byte count the measurement was started with.
    pub fn num_bytes(&self) -> (n: usize)
        ensures
            n == self.bytes_moved(),
    {
        self.num_bytes
    }
}

/// Counter estimates for one step over a working set.
#[derive(Debug, Clone, Copy, PartialEq, Eq)]
pub struct CounterEstimates {
    pub instructions_retired: u64,
    pub l1d_cache_misses: u64,
    pub l2d_cache_misses: u64,
    pub simd_fma_retired: u64,
}

/// Capacity of the L1 data cache the estimate assumes, in bytes.
pub const L1D_BYTES: usize = 131072;

/// Capacity of the L2 cache the estimate assumes, in bytes.
pub const L2_BYTES: usize = 16777216;

/// Cache misses when a working set of `ws` bytes streams through a cache of
/// `capacity` bytes: one per 64-byte line beyond the capacity.
pub open spec fn overflow_lines(ws: int, capacity: int) -> int {
    if ws > capacity {
        (ws - capacity) / 64
    } else {
        0
    }
}

/// Estimates for a step over `num_elements` parameters: six instructions
/// and a quarter SIMD FMA per element; 16 bytes per element of working set
/// (parameter, gradient, two moments), missing L1 beyond 128 KiB and L2
/// beyond 16 MiB.
pub fn estimate_counters(num_elements: usize) -> (e: CounterEstimates)
    requires
        num_elements * 16 <= usize::MAX,
    ensures
        e.instructions_retired == num_elements * 6,
        e.simd_fma_retired == num_elements / 4,
        e.l1d_cache_misses == overflow_lines(num_elements * 16, 131072),
        e.l2d_cache_misses == overflow_lines(num_elements * 16, 16777216),
{
    let n = num_elements as u64;
    let working_set_bytes = num_elements * 16;
    let l1d_miss: u64 = if working_set_bytes > L1D_BYTES {
        (working_set_bytes - L1D_BYTES) as u64 / 64
    } else {
        0
    };
    let l2d_miss: u64 = if working_set_bytes > L2_BYTES {
        (working_set_bytes - L2_BYTES) as u64 / 64
    } else {
        0
    };
    CounterEstimates {
        instructions_retired: n * 6,
        l1d_cache_misses: l1d_miss,
        l2d_cache_misses: l2d_miss,
        simd_fma_retired: n / 4,
    }
}

} // verus!
