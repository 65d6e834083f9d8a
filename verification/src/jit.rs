//! Parameters of the hardware-specialized vector kernel.
use vstd::prelude::*;

verus! {

/// Kernel specialization: unroll factor, software prefetch distance in
/// bytes, and whether parameters are written with streaming stores.
pub struct JitKernel {
    pub unroll: usize,
    pub prefetch: usize,
    pub streaming: bool,
}

/// `x` clamped to `[lo, hi]`.
pub open spec fn clamp_spec(x: int, lo: int, hi: int) -> int {
    if x < lo {
        lo
    } else if x > hi {
        hi
    } else {
        x
    }
}

/// The smallest unroll factor a kernel takes.
pub const MIN_UNROLL: usize = 1;

/// The largest unroll factor a kernel takes.
pub const MAX_UNROLL: usize = 16;

/// The unroll factor from which the specialized kernel uses streaming
/// stores.
pub const STREAMING_UNROLL: usize = 8;

impl JitKernel {
    /// A kernel with the unroll factor clamped to `[1, 16]`.
    pub fn new(unroll: usize, prefetch: usize, streaming: bool) -> (k: Self)
        ensures
            k.unroll == clamp_spec(unroll as int, 1, 16),
            k.prefetch == prefetch,
            k.streaming == streaming,
    {
        let clamped = if unroll < MIN_UNROLL {
            MIN_UNROLL
        } else if unroll > MAX_UNROLL {
            MAX_UNROLL
        } else {
            unroll
        };
        JitKernel { unroll: clamped, prefetch, streaming }
    }

    /// The kernel specialized to a hardware profile with the given unroll
    /// factor and prefetch distance: streaming stores from an unroll of 8.
    pub fn active(profile_unroll: usize, profile_prefetch: usize) -> (k: Self)
        ensures
            k.unroll == clamp_spec(profile_unroll as int, 1, 16),
            k.prefetch == profile_prefetch,
            k.streaming == (profile_unroll >= 8),
    {
        Self::new(profile_unroll, profile_prefetch, profile_unroll >= STREAMING_UNROLL)
    }
}

} // verus!
