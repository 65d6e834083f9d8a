//! Silicon topology: cache sizes and the kernel parameters they suggest.
use vstd::prelude::*;
use crate::jit::clamp_spec;

verus! {

/// Core counts, cache sizes and the recommended kernel parameters.
#[derive(Debug, Clone)]
pub struct SiliconTopology {
    pub chip_name: String,
    pub p_cores: usize,
    pub total_cores: usize,
    pub l1d_cache_kb: usize,
    pub l2_cache_kb: usize,
    pub recommended_tile_kb: usize,
    pub recommended_unroll: usize,
    pub recommended_prefetch: usize,
    pub recommended_workers: usize,
}

/// The cache-optimal tile of a cluster: half of the L2 slice shared by the
/// workers, kept within `[64, 512]` KB.
pub open spec fn tile_for(l2_kb: int, workers: int) -> int {
    clamp_spec((l2_kb / 2) / workers, 64, 512)
}

impl SiliconTopology {
    /// The topology of a host CPU with `cores` available cores: a 32 KB L1
    /// data cache and 512 KB L2 are assumed, with a 256 KB tile, 4-way
    /// unrolling, one-line (64 byte) prefetch and one worker per core.
    pub fn probe(cores: usize) -> (t: Self)
        ensures
            t.chip_name@ == "Host CPU (Probed In-Memory)"@,
            t.p_cores == cores,
            t.total_cores == cores,
            t.l1d_cache_kb == 32,
            t.l2_cache_kb == 512,
            t.recommended_tile_kb == 256,
            t.recommended_unroll == 4,
            t.recommended_prefetch == 64,
            t.recommended_workers == cores,
    {
        broadcast use vstd::string::to_string_from_display_ensures_for_str;

        SiliconTopology {
            chip_name: "Host CPU (Probed In-Memory)".to_string(),
            p_cores: cores,
            total_cores: cores,
            l1d_cache_kb: 32,
            l2_cache_kb: 512,
            recommended_tile_kb: 256,
            recommended_unroll: 4,
            recommended_prefetch: 64,
            recommended_workers: cores,
        }
    }

    /// The topology of an Apple Silicon chip from its performance core
    /// count, total core count and cache sizes in bytes: one worker per
    /// performance core (at least one), a tile sized to half the L2 per
    /// worker within `[64, 512]` KB, 4-way unrolling and a two-line (128
    /// byte) prefetch.
    pub fn from_cache_sizes(p_cores: usize, total_cores: usize, l1d_bytes: usize, l2_bytes: usize) -> (t:
        Self)
        ensures
            t.chip_name@ == "Apple Silicon (Probed In-Memory)"@,
            t.p_cores == p_cores,
            t.total_cores == total_cores,
            t.l1d_cache_kb == l1d_bytes / 1024,
            t.l2_cache_kb == l2_bytes / 1024,
            t.recommended_workers == if p_cores == 0 { 1 } else { p_cores },
            t.recommended_tile_kb == tile_for((l2_bytes / 1024) as int, t.recommended_workers as int),
            t.recommended_unroll == 4,
            t.recommended_prefetch == 128,
    {
        broadcast use vstd::string::to_string_from_display_ensures_for_str;

        let l1d_kb = l1d_bytes / 1024;
        let l2_kb = l2_bytes / 1024;
        let workers = if p_cores == 0 {
            1
        } else {
            p_cores
        };
        let share = (l2_kb / 2) / workers;
        let tile_kb = if share < 64 {
            64
        } else if share > 512 {
            512
        } else {
            share
        };
        SiliconTopology {
            chip_name: "Apple Silicon (Probed In-Memory)".to_string(),
            p_cores,
            total_cores,
            l1d_cache_kb: l1d_kb,
            l2_cache_kb: l2_kb,
            recommended_tile_kb: tile_kb,
            recommended_unroll: 4,
            recommended_prefetch: 128,
            recommended_workers: workers,
        }
    }
}

} // verus!
