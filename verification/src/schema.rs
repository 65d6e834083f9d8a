//! The compilation schema: the standardized description of a compiled
//! pipeline (optimizer, memory topography, execution schedule and memory
//! traffic).
use vstd::prelude::*;
use crate::arena::{BufferSlot, LayoutPlan};
use crate::ir::{F32Bits, GlobalReduction, PointwiseOp, ScheduleIRNode, SchedulePipeline, WorkloadRole};

verus! {

/// Description of one arena slot in the schema.
#[derive(Debug, Clone)]
pub struct SlotDescriptor {
    pub slot_id: usize,
    pub byte_offset: usize,
    pub num_elements: usize,
    pub byte_size: usize,
    pub cache_aligned: bool,
}

/// The memory topography of a layout plan.
#[derive(Debug, Clone)]
pub struct MemoryTopographySpec {
    pub total_parameters: usize,
    pub total_allocated_bytes: usize,
    pub cache_line_size_bytes: usize,
    pub is_cache_aligned: bool,
    pub slots: Vec<SlotDescriptor>,
}

/// One pass of the execution schedule.
#[derive(Debug, Clone)]
pub struct SchedulePassSpec {
    pub pass_id: usize,
    pub pass_name: String,
    pub pass_role: String,
    pub target_hardware_unit: String,
}

/// The execution schedule of a pipeline.
#[derive(Debug, Clone)]
pub struct ExecutionScheduleSpec {
    pub l2_tile_size_elements: usize,
    pub simd_vector_lanes: usize,
    pub simd_unroll_factor: usize,
    pub prefetch_strategy: String,
    pub passes: Vec<SchedulePassSpec>,
}

/// The number of elements of all slots together.
pub open spec fn sum_elements(slots: Seq<BufferSlot>) -> int
    decreases slots.len(),
{
    if slots.len() == 0 {
        0
    } else {
        sum_elements(slots.drop_last()) + slots.last().num_elements
    }
}

/// The descriptor that the schema gives `slot`.
pub open spec fn describes(d: SlotDescriptor, slot: BufferSlot) -> bool {
    &&& d.slot_id == slot.slot_id
    &&& d.byte_offset == slot.byte_offset
    &&& d.num_elements == slot.num_elements
    &&& d.byte_size == slot.byte_size
    &&& d.cache_aligned == (slot.byte_offset % 64 == 0)
}

/// The name of a workload role, as its debug form writes it.
pub open spec fn role_name(role: WorkloadRole) -> Seq<char> {
    match role {
        WorkloadRole::Load => "Load"@,
        WorkloadRole::Compute => "Compute"@,
        WorkloadRole::Store => "Store"@,
    }
}

/// The hardware unit that every schedule pass targets.
pub open spec fn target_unit() -> Seq<char> {
    "ARM64 NEON Vector Execution Pipe"@
}

/// The prefetch strategy of the execution schedule.
pub open spec fn prefetch_strategy() -> Seq<char> {
    "prfm pldl1keep (64B & 128B dual-line prefetch)"@
}

/// The pass that the schema gives node `i` of a pipeline.
pub open spec fn describes_pass(p: SchedulePassSpec, i: int, node: ScheduleIRNode) -> bool {
    &&& p.pass_id == i
    &&& p.pass_name@ == node.name@
    &&& p.pass_role@ == role_name(node.role)
    &&& p.target_hardware_unit@ == target_unit()
}

/// `m` is the memory topography of `layout`.
pub open spec fn topography_of(m: MemoryTopographySpec, layout: LayoutPlan) -> bool {
    &&& m.total_parameters == sum_elements(layout.slots@)
    &&& m.total_allocated_bytes == layout.total_bytes
    &&& m.cache_line_size_bytes == 64
    &&& m.is_cache_aligned == layout.cache_aligned
    &&& m.slots@.len() == layout.slots@.len()
    &&& forall|i: int| 0 <= i < layout.slots@.len() ==> describes(#[trigger] m.slots@[i], layout.slots@[i])
}

/// `e` is the execution schedule of `pipeline`: a 512 KB L2 tile (131072
/// elements), 16 SIMD lanes unrolled 4 times, dual-line prefetch, and one
/// pass per node, numbered in node order.
pub open spec fn schedule_of(e: ExecutionScheduleSpec, pipeline: SchedulePipeline) -> bool {
    &&& e.l2_tile_size_elements == 131072
    &&& e.simd_vector_lanes == 16
    &&& e.simd_unroll_factor == 4
    &&& e.prefetch_strategy@ == prefetch_strategy()
    &&& e.passes@.len() == pipeline.nodes@.len()
    &&& forall|i: int| 0 <= i < pipeline.nodes@.len() ==> describes_pass(#[trigger] e.passes@[i], i, pipeline.nodes@[i])
}

/// The sum of the element counts of all slots of `layout`, or `None` where
/// it does not fit in a `usize`.
pub fn total_elements(layout: &LayoutPlan) -> (r: Option<usize>)
    ensures
        r is None <==> sum_elements(layout.slots@) > usize::MAX,
        r matches Some(t) ==> t == sum_elements(layout.slots@),
{
    let n = layout.slots.len();
    let mut total: usize = 0;
    let mut i: usize = 0;
    proof {
        assert(layout.slots@.take(0) =~= Seq::<BufferSlot>::empty());
    }
    while i < n
        invariant
            n == layout.slots@.len(),
            i <= n,
            total == sum_elements(layout.slots@.take(i as int)),
        decreases n - i,
    {
        proof {
            assert(layout.slots@.take(i + 1).drop_last() =~= layout.slots@.take(i as int));
            lemma_sum_elements_monotone(layout.slots@, i + 1, n as int);
            assert(layout.slots@.take(n as int) =~= layout.slots@);
        }
        total = match total.checked_add(layout.slots[i].num_elements) {
            Some(t) => t,
            None => return None,
        };
        i = i + 1;
    }
    proof {
        assert(layout.slots@.take(n as int) =~= layout.slots@);
    }
    Some(total)
}

/// Bytes moved by one fused optimizer step over `total_elements`
/// parameters: 16 read per element (parameter, gradient, two moments),
/// 12 written (parameter, two moments), and their sum; `None` where the
/// sum does not fit in a `usize`.
pub fn memory_traffic(total_elements: usize) -> (r: Option<(usize, usize, usize)>)
    ensures
        r is None <==> 28 * total_elements > usize::MAX,
        r matches Some(t) ==> {
            &&& t.0 == 16 * total_elements
            &&& t.1 == 12 * total_elements
            &&& t.2 == 28 * total_elements
        },
{
    match total_elements.checked_mul(28) {
        None => None,
        Some(_) => {
            let bytes_read = total_elements * 16;
            let bytes_written = total_elements * 12;
            Some((bytes_read, bytes_written, bytes_read + bytes_written))
        },
    }
}

impl SlotDescriptor {
    /// The schema's description of `slot`.
    pub fn from_slot(slot: &BufferSlot) -> (d: Self)
        ensures
            describes(d, *slot),
    {
        SlotDescriptor {
            slot_id: slot.slot_id,
            byte_offset: slot.byte_offset,
            num_elements: slot.num_elements,
            byte_size: slot.byte_size,
            cache_aligned: slot.byte_offset % 64 == 0,
        }
    }
}

impl MemoryTopographySpec {
    /// The memory topography of `layout`: its element total, byte total,
    /// 64-byte cache lines, alignment flag and one descriptor per slot.
    pub fn from_layout(layout: &LayoutPlan) -> (m: Self)
        requires
            sum_elements(layout.slots@) <= usize::MAX,
        ensures
            topography_of(m, *layout),
    {
        let total = match total_elements(layout) {
            Some(t) => t,
            None => 0,
        };
        let n = layout.slots.len();
        let mut slots: Vec<SlotDescriptor> = Vec::with_capacity(n);
        let mut i: usize = 0;
        while i < n
            invariant
                n == layout.slots@.len(),
                i <= n,
                slots@.len() == i,
                forall|k: int| 0 <= k < i ==> describes(#[trigger] slots@[k], layout.slots@[k]),
            decreases n - i,
        {
            slots.push(SlotDescriptor::from_slot(&layout.slots[i]));
            i = i + 1;
        }
        MemoryTopographySpec {
            total_parameters: total,
            total_allocated_bytes: layout.total_bytes,
            cache_line_size_bytes: 64,
            is_cache_aligned: layout.cache_aligned,
            slots,
        }
    }
}

/// The name of `role`, as its debug form writes it.
pub fn role_label(role: WorkloadRole) -> (s: String)
    ensures
        s@ == role_name(role),
{
    broadcast use vstd::string::to_string_from_display_ensures_for_str;

    match role {
        WorkloadRole::Load => "Load".to_string(),
        WorkloadRole::Compute => "Compute".to_string(),
        WorkloadRole::Store => "Store".to_string(),
    }
}

impl SchedulePassSpec {
    /// The schema's description of node `i`.
    pub fn from_node(i: usize, node: &ScheduleIRNode) -> (p: Self)
        ensures
            describes_pass(p, i as int, *node),
    {
        broadcast use vstd::string::to_string_from_display_ensures_for_str;

        SchedulePassSpec {
            pass_id: i,
            pass_name: node.name.clone(),
            pass_role: role_label(node.role),
            target_hardware_unit: "ARM64 NEON Vector Execution Pipe".to_string(),
        }
    }
}

impl ExecutionScheduleSpec {
    /// The execution schedule of `pipeline`.
    pub fn from_pipeline(pipeline: &SchedulePipeline) -> (e: Self)
        ensures
            schedule_of(e, *pipeline),
    {
        broadcast use vstd::string::to_string_from_display_ensures_for_str;

        let n = pipeline.nodes.len();
        let mut passes: Vec<SchedulePassSpec> = Vec::with_capacity(n);
        let mut i: usize = 0;
        while i < n
            invariant
                n == pipeline.nodes@.len(),
                i <= n,
                passes@.len() == i,
                forall|k: int| 0 <= k < i ==> describes_pass(#[trigger] passes@[k], k, pipeline.nodes@[k]),
            decreases n - i,
        {
            passes.push(SchedulePassSpec::from_node(i, &pipeline.nodes[i]));
            i = i + 1;
        }
        ExecutionScheduleSpec {
            l2_tile_size_elements: 131072,
            simd_vector_lanes: 16,
            simd_unroll_factor: 4,
            prefetch_strategy: "prfm pldl1keep (64B & 128B dual-line prefetch)".to_string(),
            passes,
        }
    }
}

/// An IEEE-754 double precision value, carried by its bit pattern.
#[derive(Debug, Clone, Copy, PartialEq, Eq, Structural)]
pub struct F64Bits(pub u64);

/// Optimizer hyperparameters as the schema reports them.
#[derive(Debug, Clone, Copy, PartialEq, Eq, Structural)]
pub struct HyperparameterSpec {
    pub learning_rate: F32Bits,
    pub beta1: F32Bits,
    pub beta2: Option<F32Bits>,
    pub epsilon: Option<F32Bits>,
    pub weight_decay: F32Bits,
    pub max_norm: Option<F32Bits>,
}

/// The optimizer of a compiled pipeline.
#[derive(Debug, Clone)]
pub struct OptimizerSpec {
    pub algorithm: String,
    pub precision: String,
    pub hyperparameters: HyperparameterSpec,
}

/// Memory traffic and arithmetic intensity of one step.
#[derive(Debug, Clone, Copy, PartialEq, Eq, Structural)]
pub struct PerformanceMetricsSpec {
    pub bytes_read_per_step: usize,
    pub bytes_written_per_step: usize,
    pub total_memory_traffic_bytes: usize,
    pub arithmetic_intensity_flop_per_byte: F64Bits,
}

/// Standardized hardware IR specification of a compiled pipeline.
#[derive(Debug, Clone)]
pub struct CompilationSchema {
    pub schema_version: String,
    pub target_architecture: String,
    pub optimizer: OptimizerSpec,
    pub memory_topography: MemoryTopographySpec,
    pub execution_schedule: ExecutionScheduleSpec,
    pub performance_metrics: PerformanceMetricsSpec,
}

/// `1.0f32`.
pub open spec fn f32_one() -> F32Bits {
    F32Bits(0x3f80_0000)
}

/// `0.0f32`.
pub open spec fn f32_zero() -> F32Bits {
    F32Bits(0)
}

/// `0.5f64`: 14 floating point operations per 28 bytes moved.
pub open spec fn step_intensity() -> F64Bits {
    F64Bits(0x3fe0_0000_0000_0000)
}

/// The name the schema gives the algorithm of `op`.
pub open spec fn algorithm_name(op: PointwiseOp) -> Seq<char> {
    match op {
        PointwiseOp::AdamW { .. } => "AdamW"@,
        PointwiseOp::Lion { .. } => "Lion"@,
        PointwiseOp::SGD { .. } => "SGD"@,
        PointwiseOp::CustomDAG { .. } => "CustomDAG"@,
    }
}

/// The hyperparameters the schema reports for `op`: the op's own rates,
/// with `beta2` and `epsilon` only where the algorithm has them, and a
/// clipping norm of 1 exactly when the pipeline has a reduction; a custom
/// DAG reports zeros and no optional value.
pub open spec fn hyperparameters_of(op: PointwiseOp, reduction: Option<GlobalReduction>) -> HyperparameterSpec {
    let clip = if reduction is Some { Some(f32_one()) } else { None };
    match op {
        PointwiseOp::AdamW { learn_rate, beta_one, beta_two, eps, decay, .. } => HyperparameterSpec {
            learning_rate: learn_rate,
            beta1: beta_one,
            beta2: Some(beta_two),
            epsilon: Some(eps),
            weight_decay: decay,
            max_norm: clip,
        },
        PointwiseOp::Lion { learn_rate, beta_one, beta_two, decay } => HyperparameterSpec {
            learning_rate: learn_rate,
            beta1: beta_one,
            beta2: Some(beta_two),
            epsilon: None,
            weight_decay: decay,
            max_norm: clip,
        },
        PointwiseOp::SGD { learn_rate, momentum, decay } => HyperparameterSpec {
            learning_rate: learn_rate,
            beta1: momentum,
            beta2: None,
            epsilon: None,
            weight_decay: decay,
            max_norm: clip,
        },
        PointwiseOp::CustomDAG { .. } => HyperparameterSpec {
            learning_rate: f32_zero(),
            beta1: f32_zero(),
            beta2: None,
            epsilon: None,
            weight_decay: f32_zero(),
            max_norm: None,
        },
    }
}

/// `a` and `b` run the same optimizer algorithm.
pub open spec fn same_algorithm(a: PointwiseOp, b: PointwiseOp) -> bool {
    ||| a is AdamW && b is AdamW
    ||| a is Lion && b is Lion
    ||| a is SGD && b is SGD
    ||| a is CustomDAG && b is CustomDAG
}

/// Each reported hyperparameter is the op's field of the same meaning: the
/// learning rate, the first beta (or the SGD momentum), the second beta,
/// epsilon and the weight decay; an algorithm without a second beta or
/// epsilon reports none, a custom DAG reports zero rates, and a clipping
/// norm is reported exactly when the pipeline has a reduction.
pub proof fn lemma_schema_hyperparameters(op: PointwiseOp, reduction: Option<GlobalReduction>)
    ensures
        ({
            let h = hyperparameters_of(op, reduction);
            &&& op matches PointwiseOp::AdamW { learn_rate, beta_one, beta_two, eps, decay, .. } ==> {
                &&& h.learning_rate == learn_rate
                &&& h.beta1 == beta_one
                &&& h.beta2 == Some(beta_two)
                &&& h.epsilon == Some(eps)
                &&& h.weight_decay == decay
            }
            &&& op matches PointwiseOp::Lion { learn_rate, beta_one, beta_two, decay } ==> {
                &&& h.learning_rate == learn_rate
                &&& h.beta1 == beta_one
                &&& h.beta2 == Some(beta_two)
                &&& h.epsilon is None
                &&& h.weight_decay == decay
            }
            &&& op matches PointwiseOp::SGD { learn_rate, momentum, decay } ==> {
                &&& h.learning_rate == learn_rate
                &&& h.beta1 == momentum
                &&& h.beta2 is None
                &&& h.epsilon is None
                &&& h.weight_decay == decay
            }
            &&& op is CustomDAG ==> {
                &&& h.learning_rate == F32Bits(0)
                &&& h.beta1 == F32Bits(0)
                &&& h.beta2 is None
                &&& h.epsilon is None
                &&& h.weight_decay == F32Bits(0)
                &&& h.max_norm is None
            }
            &&& !(op is CustomDAG) ==> (h.max_norm is Some <==> reduction is Some)
            &&& h.max_norm matches Some(m) ==> m == F32Bits(0x3f80_0000)
        }),
{
}

/// The schema names each algorithm by its own name (`AdamW`, `Lion`,
/// `SGD`, `CustomDAG`), and two ops get the same name exactly when they run
/// the same algorithm.
pub proof fn lemma_schema_algorithm_names(a: PointwiseOp, b: PointwiseOp)
    ensures
        a is AdamW ==> algorithm_name(a) == "AdamW"@,
        a is Lion ==> algorithm_name(a) == "Lion"@,
        a is SGD ==> algorithm_name(a) == "SGD"@,
        a is CustomDAG ==> algorithm_name(a) == "CustomDAG"@,
        algorithm_name(a) == algorithm_name(b) <==> same_algorithm(a, b),
{
    reveal_strlit("AdamW");
    reveal_strlit("Lion");
    reveal_strlit("SGD");
    reveal_strlit("CustomDAG");
    assert("AdamW"@.len() == 5 && "Lion"@.len() == 4 && "SGD"@.len() == 3 && "CustomDAG"@.len() == 9);
    if algorithm_name(a) == algorithm_name(b) {
        assert(algorithm_name(a).len() == algorithm_name(b).len());
    }
}

impl CompilationSchema {
    /// The schema of `pipeline` over `layout` running `op`.
    pub fn build(pipeline: &SchedulePipeline, layout: &LayoutPlan, op: PointwiseOp) -> (s: Self)
        requires
            28 * sum_elements(layout.slots@) <= usize::MAX,
        ensures
            s.schema_version@ == "tikun.ir.v1.0"@,
            s.target_architecture@ == "Apple Silicon ARM64 (NEON + AMX Co-Design)"@,
            s.optimizer.algorithm@ == algorithm_name(op),
            s.optimizer.precision@ == "float32 (in-register 4x SIMD)"@,
            s.optimizer.hyperparameters == hyperparameters_of(op, pipeline.reduction),
            topography_of(s.memory_topography, *layout),
            schedule_of(s.execution_schedule, *pipeline),
            s.performance_metrics.bytes_read_per_step == 16 * sum_elements(layout.slots@),
            s.performance_metrics.bytes_written_per_step == 12 * sum_elements(layout.slots@),
            s.performance_metrics.total_memory_traffic_bytes == 28 * sum_elements(layout.slots@),
            s.performance_metrics.arithmetic_intensity_flop_per_byte == step_intensity(),
    {
        broadcast use vstd::string::to_string_from_display_ensures_for_str;

        let clip = match pipeline.reduction {
            Some(_) => Some(F32Bits(0x3f80_0000)),
            None => None,
        };
        let (alg, hyp) = match op {
            PointwiseOp::AdamW { learn_rate, beta_one, beta_two, eps, decay, .. } => (
                "AdamW".to_string(),
                HyperparameterSpec {
                    learning_rate: learn_rate,
                    beta1: beta_one,
                    beta2: Some(beta_two),
                    epsilon: Some(eps),
                    weight_decay: decay,
                    max_norm: clip,
                },
            ),
            PointwiseOp::Lion { learn_rate, beta_one, beta_two, decay } => (
                "Lion".to_string(),
                HyperparameterSpec {
                    learning_rate: learn_rate,
                    beta1: beta_one,
                    beta2: Some(beta_two),
                    epsilon: None,
                    weight_decay: decay,
                    max_norm: clip,
                },
            ),
            PointwiseOp::SGD { learn_rate, momentum, decay } => (
                "SGD".to_string(),
                HyperparameterSpec {
                    learning_rate: learn_rate,
                    beta1: momentum,
                    beta2: None,
                    epsilon: None,
                    weight_decay: decay,
                    max_norm: clip,
                },
            ),
            PointwiseOp::CustomDAG { .. } => (
                "CustomDAG".to_string(),
                HyperparameterSpec {
                    learning_rate: F32Bits(0),
                    beta1: F32Bits(0),
                    beta2: None,
                    epsilon: None,
                    weight_decay: F32Bits(0),
                    max_norm: None,
                },
            ),
        };
        let memory_topography = MemoryTopographySpec::from_layout(layout);
        let total_elements = memory_topography.total_parameters;
        let bytes_read = total_elements * 16;
        let bytes_written = total_elements * 12;
        let total_traffic = bytes_read + bytes_written;
        CompilationSchema {
            schema_version: "tikun.ir.v1.0".to_string(),
            target_architecture: "Apple Silicon ARM64 (NEON + AMX Co-Design)".to_string(),
            optimizer: OptimizerSpec {
                algorithm: alg,
                precision: "float32 (in-register 4x SIMD)".to_string(),
                hyperparameters: hyp,
            },
            memory_topography,
            execution_schedule: ExecutionScheduleSpec::from_pipeline(pipeline),
            performance_metrics: PerformanceMetricsSpec {
                bytes_read_per_step: bytes_read,
                bytes_written_per_step: bytes_written,
                total_memory_traffic_bytes: total_traffic,
                arithmetic_intensity_flop_per_byte: F64Bits(0x3fe0_0000_0000_0000),
            },
        }
    }
}

/// Element sums of prefixes grow with the prefix.
proof fn lemma_sum_elements_monotone(slots: Seq<BufferSlot>, i: int, j: int)
    requires
        0 <= i <= j <= slots.len(),
    ensures
        0 <= sum_elements(slots.take(i)) <= sum_elements(slots.take(j)),
    decreases j - i + j,
{
    if j > 0 {
        assert(slots.take(j).drop_last() =~= slots.take(j - 1));
        if i < j {
            lemma_sum_elements_monotone(slots, i, j - 1);
        } else {
            lemma_sum_elements_monotone(slots, j - 1, j - 1);
        }
    } else {
        assert(slots.take(0) =~= Seq::<BufferSlot>::empty());
    }
}

} // verus!
