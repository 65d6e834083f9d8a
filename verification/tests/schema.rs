use tikun::schema::{memory_traffic, total_elements};
use tikun::{
    CompilationSchema, F32Bits, F64Bits, GlobalReduction, LayoutPlan, PointwiseOp, ScheduleIRNode,
    SchedulePipeline, WorkloadRole,
};

fn bits(x: f32) -> F32Bits {
    F32Bits(x.to_bits())
}

fn pipeline(reduction: bool) -> SchedulePipeline {
    let mut p = SchedulePipeline::default();
    p.add_node(ScheduleIRNode::new("load_p_g", WorkloadRole::Load, 16));
    p.add_node(ScheduleIRNode::new("fma_update", WorkloadRole::Compute, 16));
    p.add_node(ScheduleIRNode::new("store_p", WorkloadRole::Store, 16));
    if reduction {
        p.reduction = Some(GlobalReduction::GlobalL2Norm { max_norm: bits(3.0) });
    }
    p
}

#[test]
fn schema_of_adamw() {
    let layout = LayoutPlan::from_shapes(&[100, 513]);
    let op = PointwiseOp::AdamW {
        step_count: 1,
        learn_rate: bits(1e-3),
        beta_one: bits(0.9),
        beta_two: bits(0.999),
        eps: bits(1e-8),
        decay: bits(0.01),
    };
    let s = CompilationSchema::build(&pipeline(true), &layout, op);
    assert_eq!(s.schema_version, "tikun.ir.v1.0");
    assert_eq!(s.optimizer.algorithm, "AdamW");
    assert_eq!(s.optimizer.precision, "float32 (in-register 4x SIMD)");
    let h = s.optimizer.hyperparameters;
    assert_eq!(h.learning_rate, bits(1e-3));
    assert_eq!(h.beta2, Some(bits(0.999)));
    assert_eq!(h.epsilon, Some(bits(1e-8)));
    assert_eq!(h.max_norm, Some(bits(1.0)));
    let m = &s.memory_topography;
    assert_eq!(m.total_parameters, 613);
    assert_eq!(m.total_allocated_bytes, 448 + 2052);
    assert_eq!(m.cache_line_size_bytes, 64);
    assert!(m.slots[1].cache_aligned);
    assert_eq!(m.slots[1].byte_offset, 448);
    let e = &s.execution_schedule;
    assert_eq!(e.l2_tile_size_elements, 131072);
    assert_eq!(e.passes.len(), 3);
    assert_eq!(e.passes[1].pass_id, 1);
    assert_eq!(e.passes[1].pass_name, "fma_update");
    assert_eq!(e.passes[1].pass_role, "Compute");
    assert_eq!(e.passes[2].target_hardware_unit, "ARM64 NEON Vector Execution Pipe");
    let pm = s.performance_metrics;
    assert_eq!(pm.bytes_read_per_step, 613 * 16);
    assert_eq!(pm.bytes_written_per_step, 613 * 12);
    assert_eq!(pm.total_memory_traffic_bytes, 613 * 28);
    assert_eq!(pm.arithmetic_intensity_flop_per_byte, F64Bits(0.5f64.to_bits()));
}

#[test]
fn schema_of_other_algorithms() {
    let layout = LayoutPlan::from_shapes(&[4]);
    let lion = PointwiseOp::Lion { learn_rate: bits(1e-4), beta_one: bits(0.9), beta_two: bits(0.99), decay: bits(0.01) };
    let s = CompilationSchema::build(&pipeline(false), &layout, lion);
    assert_eq!(s.optimizer.algorithm, "Lion");
    assert_eq!(s.optimizer.hyperparameters.epsilon, None);
    assert_eq!(s.optimizer.hyperparameters.max_norm, None);
    let sgd = PointwiseOp::SGD { learn_rate: bits(1e-2), momentum: bits(0.9), decay: bits(0.0) };
    let s = CompilationSchema::build(&pipeline(true), &layout, sgd);
    assert_eq!(s.optimizer.algorithm, "SGD");
    assert_eq!(s.optimizer.hyperparameters.beta1, bits(0.9));
    assert_eq!(s.optimizer.hyperparameters.beta2, None);
    let dag = PointwiseOp::CustomDAG { primitives: vec![] };
    let s = CompilationSchema::build(&pipeline(true), &layout, dag);
    assert_eq!(s.optimizer.algorithm, "CustomDAG");
    assert_eq!(s.optimizer.hyperparameters.learning_rate, bits(0.0));
    assert_eq!(s.optimizer.hyperparameters.max_norm, None);
}

#[test]
fn totals_and_traffic() {
    let layout = LayoutPlan::from_shapes(&[10, 20, 30]);
    assert_eq!(total_elements(&layout), Some(60));
    assert_eq!(memory_traffic(60), Some((960, 720, 1680)));
    assert_eq!(memory_traffic(usize::MAX / 27), None);
    let huge = LayoutPlan {
        slots: vec![tikun::BufferSlot::new(0, 0, usize::MAX / 4, true), tikun::BufferSlot::new(1, 0, usize::MAX / 4, true), tikun::BufferSlot::new(2, 0, usize::MAX / 4, true), tikun::BufferSlot::new(3, 0, usize::MAX / 4, true), tikun::BufferSlot::new(4, 0, 8, true)],
        total_bytes: 0,
        cache_aligned: false,
    };
    assert_eq!(total_elements(&huge), None);
}
