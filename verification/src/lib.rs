//! Tikun: typed schedule IR, static memory planning, schedule checks and
//! code generation for fused optimizer kernels.
pub mod ann;
pub mod arena;
pub mod inspect;
pub mod ir;
pub mod jit;
pub mod text;
pub mod lowering;
pub mod megakernel;
pub mod metal_shader;
pub mod mlir;
pub mod pmc;
pub mod schema;
pub mod static_check;
pub mod topology;
pub mod treedef;
pub mod tuning;

pub use arena::{BufferSlot, LayoutPlan};
pub use inspect::{HardwarePlan, PlanSizeText};
pub use ir::{
    F32Bits, GlobalReduction, PointwiseOp, PreconditionMode, PrimitiveOp, ProjectionMode,
    ScheduleIRNode, SchedulePipeline, WorkloadRole,
};
pub use jit::JitKernel;
pub use lowering::{ArenaBases, TensorBuffer};
pub use megakernel::{MegakernelBackend, MegakernelEmitter, MegakernelSpec};
pub use metal_shader::{MetalDispatch, MetalLowering};
pub use pmc::{CounterEstimates, PmcSampler};
pub use schema::{
    CompilationSchema, ExecutionScheduleSpec, F64Bits, HyperparameterSpec, MemoryTopographySpec,
    OptimizerSpec, PerformanceMetricsSpec, SchedulePassSpec, SlotDescriptor,
};
pub use static_check::{Verifier, VerifierViolation};
pub use topology::SiliconTopology;
pub use treedef::{NodeKind, TreeDef};
pub use tuning::{Knob, LayerChoice, LayerScheduleConfig, RegionAction, RegionCounters, ScheduleSummary};
