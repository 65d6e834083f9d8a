//! The discrete side of kernel auto-tuning: the knob tables that a search
//! vector selects from, the per-layer schedules, the work partition of a
//! configured step, the trust-region success/failure counters and the
//! pseudo-random generator that drives candidate sampling.
use vstd::prelude::*;

verus! {

/// A discrete tuning knob.
#[derive(Debug, Clone, Copy, PartialEq, Eq, Structural)]
pub enum Knob {
    /// SIMD unroll factor.
    Unroll,
    /// Software prefetch distance in bytes.
    Prefetch,
    /// Cache tile size in KB.
    Tile,
    /// Number of parallel work chunks.
    Chunks,
    /// Streaming cutoff in KB.
    StreamingCutoff,
    /// Interleave distance.
    Interleave,
    /// Register tile width.
    RegTileWidth,
}

/// The values a knob can take, in the order a search coordinate in
/// `[0, 1]` sweeps them.
pub open spec fn knob_table(knob: Knob) -> Seq<usize> {
    match knob {
        Knob::Unroll => seq![2usize, 4, 8, 16],
        Knob::Prefetch => seq![0usize, 64, 128, 256, 512, 1024],
        Knob::Tile => seq![16usize, 32, 64, 128, 256, 512, 1024, 2048],
        Knob::Chunks => seq![4usize, 8, 12, 16, 24, 32, 48, 64],
        Knob::StreamingCutoff => seq![16usize, 64, 256, 1024],
        Knob::Interleave => seq![1usize, 2, 4, 8],
        Knob::RegTileWidth => seq![4usize, 8, 16, 24],
    }
}

/// The number of values of `knob`.
pub fn knob_options(knob: Knob) -> (n: usize)
    ensures
        n == knob_table(knob).len(),
{
    match knob {
        Knob::Unroll => 4,
        Knob::Prefetch => 6,
        Knob::Tile => 8,
        Knob::Chunks => 8,
        Knob::StreamingCutoff => 4,
        Knob::Interleave => 4,
        Knob::RegTileWidth => 4,
    }
}

/// Value `index` of `knob`.
pub fn knob_value(knob: Knob, index: usize) -> (v: usize)
    requires
        index < knob_table(knob).len(),
    ensures
        v == knob_table(knob)[index as int],
{
    let table: [usize; 8] = match knob {
        Knob::Unroll => [2, 4, 8, 16, 0, 0, 0, 0],
        Knob::Prefetch => [0, 64, 128, 256, 512, 1024, 0, 0],
        Knob::Tile => [16, 32, 64, 128, 256, 512, 1024, 2048],
        Knob::Chunks => [4, 8, 12, 16, 24, 32, 48, 64],
        Knob::StreamingCutoff => [16, 64, 256, 1024, 0, 0, 0, 0],
        Knob::Interleave => [1, 2, 4, 8, 0, 0, 0, 0],
        Knob::RegTileWidth => [4, 8, 16, 24, 0, 0, 0, 0],
    };
    table[index]
}

/// The store policies a layer can take.
pub open spec fn store_policy_table() -> Seq<Seq<char>> {
    seq!["temporal_st1"@, "non_temporal_stnp"@]
}

/// The math modes a layer can take.
pub open spec fn math_mode_table() -> Seq<Seq<char>> {
    seq!["exact_fsqrt_div"@, "fast_nr_2step"@, "ultra_nr_1step"@]
}

/// The number of store policies.
pub const STORE_POLICY_OPTIONS: usize = 2;

/// The number of math modes.
pub const MATH_MODE_OPTIONS: usize = 3;

/// Search coordinates per layer in a tuning vector.
pub const COORDS_PER_LAYER: usize = 6;

/// Compiler configuration of one layer.
#[derive(Debug, Clone)]
pub struct LayerScheduleConfig {
    pub layer_id: usize,
    pub unroll_factor: usize,
    pub store_policy: String,
    pub math_mode: String,
    pub prefetch_bytes: usize,
    pub tile_size_kb: usize,
    pub thread_chunks: usize,
}

/// Positions, in the knob tables, of the choices of one layer.
#[derive(Debug, Clone, Copy, PartialEq, Eq, Structural)]
pub struct LayerChoice {
    pub unroll: usize,
    pub store_policy: usize,
    pub math_mode: usize,
    pub prefetch: usize,
    pub tile: usize,
    pub chunks: usize,
}

impl LayerChoice {
    /// Every position lies inside its table.
    pub open spec fn in_range(&self) -> bool {
        &&& self.unroll < 4
        &&& self.store_policy < 2
        &&& self.math_mode < 3
        &&& self.prefetch < 6
        &&& self.tile < 8
        &&& self.chunks < 8
    }
}

/// The number of layers a tuning vector of `len` coordinates describes:
/// six coordinates per layer, and at least one layer.
pub open spec fn spec_layer_count(len: int) -> int {
    if len / 6 == 0 {
        1
    } else {
        len / 6
    }
}

/// The number of layers of a tuning vector of `vector_len` coordinates.
pub fn layer_count(vector_len: usize) -> (n: usize)
    ensures
        n == spec_layer_count(vector_len as int),
        n >= 1,
{
    let n = vector_len / COORDS_PER_LAYER;
    if n == 0 {
        1
    } else {
        n
    }
}

impl LayerScheduleConfig {
    /// The configuration of layer `layer_id` with the table entries that
    /// `choice` selects.
    pub fn from_choice(layer_id: usize, choice: LayerChoice) -> (c: Self)
        requires
            choice.in_range(),
        ensures
            c.layer_id == layer_id,
            c.unroll_factor == knob_table(Knob::Unroll)[choice.unroll as int],
            c.store_policy@ == store_policy_table()[choice.store_policy as int],
            c.math_mode@ == math_mode_table()[choice.math_mode as int],
            c.prefetch_bytes == knob_table(Knob::Prefetch)[choice.prefetch as int],
            c.tile_size_kb == knob_table(Knob::Tile)[choice.tile as int],
            c.thread_chunks == knob_table(Knob::Chunks)[choice.chunks as int],
    {
        broadcast use vstd::string::to_string_from_display_ensures_for_str;

        let store_policy = if choice.store_policy == 0 {
            "temporal_st1".to_string()
        } else {
            "non_temporal_stnp".to_string()
        };
        let math_mode = if choice.math_mode == 0 {
            "exact_fsqrt_div".to_string()
        } else if choice.math_mode == 1 {
            "fast_nr_2step".to_string()
        } else {
            "ultra_nr_1step".to_string()
        };
        LayerScheduleConfig {
            layer_id,
            unroll_factor: knob_value(Knob::Unroll, choice.unroll),
            store_policy,
            math_mode,
            prefetch_bytes: knob_value(Knob::Prefetch, choice.prefetch),
            tile_size_kb: knob_value(Knob::Tile, choice.tile),
            thread_chunks: knob_value(Knob::Chunks, choice.chunks),
        }
    }
}

/// The configurations of a tuning vector's layers, one per choice, with
/// layer ids in order.
pub fn decode_layers(choices: &Vec<LayerChoice>) -> (configs: Vec<LayerScheduleConfig>)
    requires
        forall|i: int| 0 <= i < choices@.len() ==> (#[trigger] choices@[i]).in_range(),
    ensures
        configs@.len() == choices@.len(),
        forall|i: int|
            0 <= i < choices@.len() ==> {
                let c = #[trigger] configs@[i];
                let ch = choices@[i];
                &&& c.layer_id == i
                &&& c.unroll_factor == knob_table(Knob::Unroll)[ch.unroll as int]
                &&& c.store_policy@ == store_policy_table()[ch.store_policy as int]
                &&& c.math_mode@ == math_mode_table()[ch.math_mode as int]
                &&& c.prefetch_bytes == knob_table(Knob::Prefetch)[ch.prefetch as int]
                &&& c.tile_size_kb == knob_table(Knob::Tile)[ch.tile as int]
                &&& c.thread_chunks == knob_table(Knob::Chunks)[ch.chunks as int]
            },
{
    let n = choices.len();
    let mut configs: Vec<LayerScheduleConfig> = Vec::with_capacity(n);
    let mut l: usize = 0;
    while l < n
        invariant
            n == choices@.len(),
            l <= n,
            configs@.len() == l,
            forall|i: int| 0 <= i < choices@.len() ==> (#[trigger] choices@[i]).in_range(),
            forall|i: int|
                0 <= i < l ==> {
                    let c = #[trigger] configs@[i];
                    let ch = choices@[i];
                    &&& c.layer_id == i
                    &&& c.unroll_factor == knob_table(Knob::Unroll)[ch.unroll as int]
                    &&& c.store_policy@ == store_policy_table()[ch.store_policy as int]
                    &&& c.math_mode@ == math_mode_table()[ch.math_mode as int]
                    &&& c.prefetch_bytes == knob_table(Knob::Prefetch)[ch.prefetch as int]
                    &&& c.tile_size_kb == knob_table(Knob::Tile)[ch.tile as int]
                    &&& c.thread_chunks == knob_table(Knob::Chunks)[ch.chunks as int]
                },
        decreases n - l,
    {
        let ch = choices[l];
        configs.push(LayerScheduleConfig::from_choice(l, ch));
        l = l + 1;
    }
    configs
}

/// The headline schedule of a tuned profile.
#[derive(Debug, Clone, Copy, PartialEq, Eq, Structural)]
pub struct ScheduleSummary {
    pub tile_kb: usize,
    pub unroll: usize,
    pub prefetch: usize,
    pub workers: usize,
    pub polar_steps: usize,
}

/// The summary of a tuned schedule: the first layer's tile, unroll,
/// prefetch and chunk count (512 KB, 4, 128 bytes and 12 where there is no
/// layer), and a polar step count equal to the unroll kept within `[3, 6]`.
pub fn summarize_layers(layers: &Vec<LayerScheduleConfig>) -> (s: ScheduleSummary)
    ensures
        layers@.len() == 0 ==> s.tile_kb == 512 && s.unroll == 4 && s.prefetch == 128 && s.workers
            == 12,
        layers@.len() > 0 ==> {
            let first = layers@[0];
            &&& s.tile_kb == first.tile_size_kb
            &&& s.unroll == first.unroll_factor
            &&& s.prefetch == first.prefetch_bytes
            &&& s.workers == first.thread_chunks
        },
        s.polar_steps == crate::jit::clamp_spec(s.unroll as int, 3, 6),
{
    let (tile_kb, unroll, prefetch, workers) = if layers.len() == 0 {
        (512, 4, 128, 12)
    } else {
        let first = &layers[0];
        (first.tile_size_kb, first.unroll_factor, first.prefetch_bytes, first.thread_chunks)
    };
    ScheduleSummary { tile_kb, unroll, prefetch, workers, polar_steps: polar_steps_for(unroll) }
}

/// Polar (Newton-Schulz) step count for an unroll factor: the factor kept
/// within `[3, 6]`.
pub fn polar_steps_for(unroll: usize) -> (p: usize)
    ensures
        p == crate::jit::clamp_spec(unroll as int, 3, 6),
{
    if unroll < 3 {
        3
    } else if unroll > 6 {
        6
    } else {
        unroll
    }
}

/// The number of parameters per layer of a five-layer benchmark model.
pub open spec fn spec_layer_size(num_params: int) -> int {
    num_params / 5
}

/// The parameter range `[start, end)` of benchmark layer `l`, or `None`
/// where it is empty.
pub fn layer_range(num_params: usize, l: usize) -> (r: Option<(usize, usize)>)
    requires
        l * (num_params / 5) + num_params / 5 <= usize::MAX,
    ensures
        ({
            let start = l * spec_layer_size(num_params as int);
            let end = crate::jit::clamp_spec(
                start + spec_layer_size(num_params as int),
                0,
                num_params as int,
            );
            &&& r is None <==> start >= end
            &&& r matches Some(range) ==> range.0 == start && range.1 == end
        }),
{
    let layer_size = num_params / 5;
    let start = l * layer_size;
    let end = if start + layer_size < num_params {
        start + layer_size
    } else {
        num_params
    };
    if start < end {
        Some((start, end))
    } else {
        None
    }
}

/// The number of work chunks for a configured chunk count: a zero count
/// counts as one.
pub open spec fn effective_chunks(chunks: int) -> int {
    if chunks < 1 {
        1
    } else {
        chunks
    }
}

/// Elements per work chunk when `len` elements are split into `chunks`
/// chunks.
pub open spec fn chunk_size(len: int, chunks: int) -> int {
    let c = effective_chunks(chunks);
    (len + c - 1) / c
}

/// The element range `[start, end)` of work chunk `c_idx` of a configured
/// step over `len` elements split into `chunks` chunks, or `None` where the
/// chunk is empty.
pub fn chunk_range(len: usize, chunks: usize, c_idx: usize) -> (r: Option<(usize, usize)>)
    requires
        len + effective_chunks(chunks as int) <= usize::MAX,
        c_idx < effective_chunks(chunks as int),
    ensures
        ({
            let cs = chunk_size(len as int, chunks as int);
            let start = c_idx * cs;
            &&& r is None <==> start >= len
            &&& r matches Some(range) ==> range.0 == start && range.1 == if start + cs < len {
                start + cs
            } else {
                len as int
            }
        }),
{
    let num_chunks = if chunks < 1 {
        1
    } else {
        chunks
    };
    let cs = (len + num_chunks - 1) / num_chunks;
    proof {
        lemma_chunk_start_bound(len as int, num_chunks as int, c_idx as int);
    }
    let start = c_idx * cs;
    if start >= len {
        return None;
    }
    let end = if cs < len - start {
        start + cs
    } else {
        len
    };
    Some((start, end))
}

/// Chunk starts of in-range chunks stay below `len + chunks`.
proof fn lemma_chunk_start_bound(len: int, chunks: int, c: int)
    requires
        len >= 0,
        chunks >= 1,
        0 <= c < chunks,
    ensures
        0 <= c * ((len + chunks - 1) / chunks) <= len + chunks,
{
    let cs = (len + chunks - 1) / chunks;
    assert(0 <= c * cs <= len + chunks) by (nonlinear_arith)
        requires
            len >= 0,
            chunks >= 1,
            0 <= c < chunks,
            cs == (len + chunks - 1) / chunks,
    ;
}

/// The work chunks of a configured step cover every element exactly once:
/// element `i < len` lies in chunk `i / chunk_size`, which is one of the
/// `chunks` chunks, and in no other chunk.
pub proof fn lemma_chunks_partition(len: int, chunks: int, i: int, c: int)
    requires
        len >= 1,
        chunks >= 1,
        0 <= i < len,
        0 <= c < chunks,
    ensures
        i / chunk_size(len, chunks) < chunks,
        (c * chunk_size(len, chunks) <= i < (c + 1) * chunk_size(len, chunks)) <==> c == i
            / chunk_size(len, chunks),
{
    let cs = chunk_size(len, chunks);
    assert(cs == (len + chunks - 1) / chunks);
    assert(cs >= 1) by (nonlinear_arith)
        requires
            len >= 1,
            chunks >= 1,
            cs == (len + chunks - 1) / chunks,
    ;
    assert(chunks * cs >= len) by (nonlinear_arith)
        requires
            len >= 1,
            chunks >= 1,
            cs == (len + chunks - 1) / chunks,
    ;
    assert(i / cs < chunks) by (nonlinear_arith)
        requires
            cs >= 1,
            chunks * cs >= len,
            0 <= i < len,
            chunks >= 1,
    ;
    assert((c * cs <= i < (c + 1) * cs) <==> c == i / cs) by (nonlinear_arith)
        requires
            cs >= 1,
            0 <= i,
            0 <= c,
    ;
}

/// What a trust region does to its side length after an observation.
#[derive(Debug, Clone, Copy, PartialEq, Eq, Structural)]
pub enum RegionAction {
    /// Double the side length (up to its maximum).
    Expand,
    /// Halve the side length (down to its minimum).
    Shrink,
    /// Leave the side length.
    Keep,
}

/// The success and failure streaks of a trust region.
#[derive(Debug, Clone, Copy, PartialEq, Eq, Structural)]
pub struct RegionCounters {
    pub success_count: usize,
    pub failure_count: usize,
}

impl RegionCounters {
    /// Both streaks stay below their tolerances.
    pub open spec fn below(&self, success_tolerance: usize, failure_tolerance: usize) -> bool {
        self.success_count < success_tolerance && self.failure_count < failure_tolerance
    }

    /// The streaks after an observation, and the action on the side length:
    /// an improvement extends the success streak and clears the failure
    /// streak, expanding and restarting once the success streak reaches its
    /// tolerance; otherwise the failure streak grows and the success streak
    /// is cleared, shrinking and restarting once the failure streak reaches
    /// its tolerance.
    pub open spec fn next(
        self,
        improved: bool,
        success_tolerance: usize,
        failure_tolerance: usize,
    ) -> (RegionCounters, RegionAction) {
        if improved {
            if self.success_count + 1 >= success_tolerance {
                (RegionCounters { success_count: 0, failure_count: 0 }, RegionAction::Expand)
            } else {
                (
                    RegionCounters { success_count: (self.success_count + 1) as usize, failure_count: 0 },
                    RegionAction::Keep,
                )
            }
        } else {
            if self.failure_count + 1 >= failure_tolerance {
                (RegionCounters { success_count: 0, failure_count: 0 }, RegionAction::Shrink)
            } else {
                (
                    RegionCounters { success_count: 0, failure_count: (self.failure_count + 1) as usize },
                    RegionAction::Keep,
                )
            }
        }
    }

    /// One observation of the trust region, as `next` describes it.
    pub fn step(
        self,
        improved: bool,
        success_tolerance: usize,
        failure_tolerance: usize,
    ) -> (r: (RegionCounters, RegionAction))
        requires
            improved ==> self.success_count < usize::MAX,
            !improved ==> self.failure_count < usize::MAX,
        ensures
            r == self.next(improved, success_tolerance, failure_tolerance),
    {
        if improved {
            let s = self.success_count + 1;
            if s >= success_tolerance {
                (RegionCounters { success_count: 0, failure_count: 0 }, RegionAction::Expand)
            } else {
                (RegionCounters { success_count: s, failure_count: 0 }, RegionAction::Keep)
            }
        } else {
            let f = self.failure_count + 1;
            if f >= failure_tolerance {
                (RegionCounters { success_count: 0, failure_count: 0 }, RegionAction::Shrink)
            } else {
                (RegionCounters { success_count: 0, failure_count: f }, RegionAction::Keep)
            }
        }
    }
}

/// With positive tolerances, every observation keeps both streaks below
/// their tolerances, so they never overflow, and the region expands exactly
/// when a success streak completes and shrinks exactly when a failure
/// streak completes.
pub proof fn lemma_counters_stay_below(
    c: RegionCounters,
    improved: bool,
    success_tolerance: usize,
    failure_tolerance: usize,
)
    requires
        success_tolerance >= 1,
        failure_tolerance >= 1,
        c.below(success_tolerance, failure_tolerance),
    ensures
        ({
            let r = c.next(improved, success_tolerance, failure_tolerance);
            &&& r.0.below(success_tolerance, failure_tolerance)
            &&& r.1 == RegionAction::Expand <==> improved && c.success_count + 1 == success_tolerance
            &&& r.1 == RegionAction::Shrink <==> !improved && c.failure_count + 1 == failure_tolerance
        }),
{
}

/// The streaks count consecutive outcomes only: an improvement clears the
/// failure streak and either extends the success streak by one or, when
/// that completes it, expands the region; an observation without
/// improvement clears the success streak and either extends the failure
/// streak by one or, when that completes it, shrinks the region. The
/// region never changes in the opposite direction of the outcome.
pub proof fn lemma_streaks_consecutive(
    c: RegionCounters,
    improved: bool,
    success_tolerance: usize,
    failure_tolerance: usize,
)
    requires
        improved ==> c.success_count < usize::MAX,
        !improved ==> c.failure_count < usize::MAX,
    ensures
        ({
            let (n, action) = c.next(improved, success_tolerance, failure_tolerance);
            &&& improved ==> n.failure_count == 0 && action != RegionAction::Shrink
            &&& !improved ==> n.success_count == 0 && action != RegionAction::Expand
            &&& improved && action == RegionAction::Keep ==> n.success_count == c.success_count + 1
            &&& !improved && action == RegionAction::Keep ==> n.failure_count == c.failure_count + 1
            &&& action != RegionAction::Keep ==> n.success_count == 0 && n.failure_count == 0
        }),
{
}

/// Multiplier of the linear congruential generator.
pub const LCG_MULTIPLIER: u64 = 6364136223846793005;

/// The generator state after `state`: `state * 6364136223846793005 + 1`
/// modulo `2^64`.
pub open spec fn spec_lcg_next(state: u64) -> int {
    (state * 6364136223846793005 + 1) % 0x1_0000_0000_0000_0000
}

/// One step of the linear congruential generator.
pub fn lcg_next(state: u64) -> (next: u64)
    ensures
        next == spec_lcg_next(state),
{
    let m = state.wrapping_mul(LCG_MULTIPLIER);
    proof {
        let big = state * 6364136223846793005;
        assert(m == big % 0x1_0000_0000_0000_0000);
        vstd::arithmetic::div_mod::lemma_add_mod_noop(big, 1, 0x1_0000_0000_0000_0000);
        assert(1int % 0x1_0000_0000_0000_0000 == 1);
        assert((m + 1) % 0x1_0000_0000_0000_0000 == (big + 1) % 0x1_0000_0000_0000_0000);
    }
    m.wrapping_add(1)
}

/// The high 32 bits of a generator state: the part that is turned into a
/// sample.
pub fn lcg_sample_bits(state: u64) -> (bits: u64)
    ensures
        bits == state / 0x1_0000_0000,
        bits <= 0xffff_ffff,
{
    assert(state >> 32u64 == state / 0x1_0000_0000 && state >> 32u64 <= 0xffff_ffff) by (bit_vector);
    state >> 32
}

} // verus!
