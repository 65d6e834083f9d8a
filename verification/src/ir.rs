//! Typed schedule IR: hardware workload roles, schedule nodes and pipelines.
use vstd::prelude::*;

verus! {

/// Hardware workload roles of the load / compute / store co-design.
#[derive(Debug, Clone, Copy, PartialEq, Eq, Structural)]
pub enum WorkloadRole {
    /// Load memory from VRAM/RAM into L1/L2 cache or registers.
    Load,
    /// Vectorized SIMD / tensor core FMA compute.
    Compute,
    /// Store updated parameter buffers back to memory.
    Store,
}

/// Typed schedule IR node for explicit hardware execution.
#[derive(Debug, Clone)]
pub struct ScheduleIRNode {
    pub name: String,
    pub role: WorkloadRole,
    pub tile_size: usize,
    pub unroll_factor: usize,
    pub vector_width: usize,
    pub prefetch_distance: usize,
}

/// Tile size of a fresh node: one 64-byte L1 cache line.
pub const DEFAULT_TILE_SIZE: usize = 64;

/// Unroll factor of a fresh node.
pub const DEFAULT_UNROLL_FACTOR: usize = 4;

/// Prefetch distance of a fresh node.
pub const DEFAULT_PREFETCH_DISTANCE: usize = 2;

impl ScheduleIRNode {
    /// A node with the default tile (64 bytes), unroll (4) and prefetch
    /// distance (2).
    pub fn new(name: &str, role: WorkloadRole, vector_width: usize) -> (node: Self)
        ensures
            node.name@ == name@,
            node.role == role,
            node.tile_size == 64,
            node.unroll_factor == 4,
            node.vector_width == vector_width,
            node.prefetch_distance == 2,
    {
        broadcast use vstd::string::to_string_from_display_ensures_for_str;

        ScheduleIRNode {
            name: name.to_string(),
            role,
            tile_size: DEFAULT_TILE_SIZE,
            unroll_factor: DEFAULT_UNROLL_FACTOR,
            vector_width,
            prefetch_distance: DEFAULT_PREFETCH_DISTANCE,
        }
    }
}

/// An IEEE-754 single precision value, carried by its bit pattern: the
/// schedule IR only stores and copies hyperparameters, it never computes
/// with them.
#[derive(Debug, Clone, Copy, PartialEq, Eq, Structural)]
pub struct F32Bits(pub u32);

/// Tier 1 of the two-tier algebraic representation: a global monoidal
/// reduction over all leaf tensors.
#[derive(Debug, Clone, Copy, PartialEq, Eq, Structural)]
pub enum GlobalReduction {
    /// Global L2 norm clipping, `(sum ||g_i||^2)^(1/2)`, against `max_norm`.
    GlobalL2Norm { max_norm: F32Bits },
}

/// Metric preconditioning modes of a custom pointwise kernel.
#[derive(Debug, Clone, Copy, PartialEq, Eq, Structural)]
pub enum PreconditionMode {
    CoordinateRsqrt,
    PolarNewtonSchulz,
    KroneckerShampoo,
}

/// Coordinate-wise projection modes of a custom pointwise kernel.
#[derive(Debug, Clone, Copy, PartialEq, Eq, Structural)]
pub enum ProjectionMode {
    Identity,
    Sign,
    ClipByValue,
    RmsNorm,
}

/// Tier 2 of the two-tier algebraic representation: a pointwise kernel
/// primitive.
#[derive(Debug, Clone, Copy, PartialEq, Eq, Structural)]
pub enum PrimitiveOp {
    /// Temporal memory accumulator (EMA first/second moments, Nesterov).
    Accumulate { beta: F32Bits, power: u32, nesterov: bool },
    /// Manifold/matrix metric preconditioning.
    Precondition { mode: PreconditionMode, steps: usize, eps: F32Bits },
    /// Coordinate-wise non-linear projection.
    Project { mode: ProjectionMode, threshold: F32Bits },
    /// Manifold retraction and weight update.
    Retract { learn_rate: F32Bits, weight_decay: F32Bits },
}

/// Tier 2 pointwise kernel specification: a fused optimizer update.
#[derive(Debug, Clone)]
pub enum PointwiseOp {
    AdamW {
        step_count: usize,
        learn_rate: F32Bits,
        beta_one: F32Bits,
        beta_two: F32Bits,
        eps: F32Bits,
        decay: F32Bits,
    },
    Lion { learn_rate: F32Bits, beta_one: F32Bits, beta_two: F32Bits, decay: F32Bits },
    SGD { learn_rate: F32Bits, momentum: F32Bits, decay: F32Bits },
    CustomDAG { primitives: Vec<PrimitiveOp> },
}

/// A linear sequence of typed hardware schedule operations.
#[derive(Debug, Clone, Default)]
pub struct SchedulePipeline {
    pub nodes: Vec<ScheduleIRNode>,
    pub reduction: Option<GlobalReduction>,
}

impl SchedulePipeline {
    /// Appends `node` at the end of the pipeline.
    pub fn add_node(&mut self, node: ScheduleIRNode)
        ensures
            final(self).nodes@ == old(self).nodes@.push(node),
            final(self).reduction == old(self).reduction,
    {
        self.nodes.push(node);
    }
}

} // verus!
