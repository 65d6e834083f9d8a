use tikun::mlir::{MlirEmitter, MlirScalarText};
use tikun::text::{decimal, hex08, signed_decimal};
use tikun::{
    F32Bits, GlobalReduction, LayoutPlan, MegakernelBackend, MegakernelEmitter, MegakernelSpec,
    PointwiseOp, PrimitiveOp, ScheduleIRNode, SchedulePipeline, WorkloadRole,
};

fn bits(x: f32) -> F32Bits {
    F32Bits(x.to_bits())
}

fn adamw() -> PointwiseOp {
    PointwiseOp::AdamW {
        step_count: 1,
        learn_rate: bits(1e-3),
        beta_one: bits(0.9),
        beta_two: bits(0.999),
        eps: bits(1e-8),
        decay: bits(0.01),
    }
}

fn spec(backend: MegakernelBackend) -> MegakernelSpec {
    MegakernelSpec {
        name: "tikun_persistent_megakernel".to_string(),
        target_backend: backend,
        num_persistent_workers: 8,
        tile_size_elements: 131072,
        ring_buffer_capacity: 64,
        register_budget_per_thread: 32,
        use_non_temporal_stores: true,
        op: adamw(),
    }
}

#[test]
fn decimal_matches_format() {
    for n in [0u64, 1, 9, 10, 11, 99, 100, 12345, 4294967296, u64::MAX] {
        assert_eq!(decimal(n), format!("{}", n));
    }
    for i in [0i32, 7, -7, 10, -10, 131072, i32::MAX, i32::MIN] {
        assert_eq!(signed_decimal(i), format!("{}", i));
    }
    for n in [0u64, 15, 16, 255, 448, 0xdead_beef, 0x1_0000_0000, u64::MAX] {
        assert_eq!(hex08(n), format!("{:08x}", n));
    }
}

#[test]
fn arm64_megakernel() {
    let code = MegakernelEmitter::emit_code(&spec(MegakernelBackend::Arm64Neon));
    assert!(code.starts_with("// ===="));
    assert!(code.contains(
        "// Target: tikun_persistent_megakernel | Workers: 8 | Tile: 131072 elements\n"
    ));
    assert!(code.contains("    // x1: Worker ID (0..8)\n"));
    assert!(code.contains("    ld1     {v4.4s, v5.4s, v6.4s, v7.4s},   [x3]       // Load Params\n"));
    assert!(code.ends_with("    b       .Lpersistent_worker_loop\n"));
}

#[test]
fn ptx_metal_mlir_megakernels() {
    let ptx = MegakernelEmitter::emit_code(&spec(MegakernelBackend::NvidiaPtx));
    assert!(ptx.contains("// Target: tikun_persistent_megakernel | Workers: 8 Persistent Threadblocks\n"));
    assert!(ptx.contains(".visible .entry _tikun_ptx_megakernel(\n"));
    assert!(ptx.ends_with("    bra             $persistent_loop;\n}\n"));

    let metal = MegakernelEmitter::emit_code(&spec(MegakernelBackend::AppleMetal));
    assert!(metal.contains("Persistent Threadgroups: 8\n"));
    assert!(metal.contains("for (uint packet_id = 0; packet_id < 131072; ++packet_id) {\n"));

    let mlir = MegakernelEmitter::emit_code(&spec(MegakernelBackend::MlirVector));
    assert!(mlir.contains("// Target: tikun_persistent_megakernel | Backend: MlirVector\n"));
    assert!(mlir.contains("    num_workers = 8 : i32,\n    tile_size = 131072 : i32,\n    ring_buffer_capacity = 64 : i32\n"));
}

fn pipeline() -> SchedulePipeline {
    let mut p = SchedulePipeline::default();
    p.add_node(ScheduleIRNode::new("load_p_g", WorkloadRole::Load, 16));
    p.add_node(ScheduleIRNode::new("fma_update", WorkloadRole::Compute, 16));
    p.add_node(ScheduleIRNode::new("store_p", WorkloadRole::Store, 16));
    p.reduction = Some(GlobalReduction::GlobalL2Norm { max_norm: bits(2.5) });
    p
}

fn scalars() -> MlirScalarText {
    MlirScalarText {
        total_memory_mb: "0.00".to_string(),
        max_norm: "2.5000".to_string(),
        beta_one: "0.9000".to_string(),
        beta_two: "0.9990".to_string(),
        learn_rate: "0.001000".to_string(),
        decay: "0.0100".to_string(),
        eps: "1.0e-8".to_string(),
    }
}

#[test]
fn mlir_module() {
    let layout = LayoutPlan::from_shapes(&[10, 20, 30, 40, 50, 60, 70]);
    let text = MlirEmitter::emit(&pipeline(), &layout, adamw(), 131072, 4, -128, &scalars());
    assert!(text.starts_with("// =============================================================================\n// Tikun MLIR Dialect (v1.0)\n"));
    assert!(text.contains("  tikun.total_memory_mb = 0.00 : f64\n} {\n"));
    assert!(text.contains("    tikun.slot 0, offset = 0x00000000 : i64, size = 10 : f32, align = 64 : i32\n"));
    assert!(text.contains("    tikun.slot 1, offset = 0x00000040 : i64, size = 20 : f32, align = 64 : i32\n"));
    assert!(!text.contains("    tikun.slot 6,"));
    assert!(text.contains("    // ... and 1 additional memory slots\n"));
    assert!(text.contains("  func.func @step_adamw(\n    %params: !tikun.arena_ref<280xf32>,\n"));
    assert!(text.contains("{max_norm = 2.5000 : f32} : f32\n"));
    assert!(text.contains("      tile_size = 131072 : i32, // Auto-Tuned Cache Slice\n"));
    assert!(text.contains("      prefetch_distance = -128 : i32\n"));
    assert!(text.contains("{lr = 0.001000 : f32, decay = 0.0100 : f32, eps = 1.0e-8 : f32}"));
    assert!(text.ends_with("    return %params : !tikun.arena_ref<280xf32>\n  }\n}\n"));
}

#[test]
fn mlir_operands_by_algorithm() {
    let p = pipeline();
    let o = MlirEmitter::step_operands(&p, &adamw());
    assert_eq!(o.max_norm, bits(2.5));
    assert_eq!(o.eps, bits(1e-8));
    let sgd = PointwiseOp::SGD { learn_rate: bits(1e-2), momentum: bits(0.9), decay: bits(0.0) };
    let o = MlirEmitter::step_operands(&SchedulePipeline::default(), &sgd);
    assert_eq!(o.beta_one, bits(0.9));
    assert_eq!(o.beta_two, bits(0.0));
    assert_eq!(o.max_norm, bits(1.0));
    let dag = PointwiseOp::CustomDAG { primitives: vec![PrimitiveOp::Retract { learn_rate: bits(1.0), weight_decay: bits(0.0) }] };
    let o = MlirEmitter::step_operands(&p, &dag);
    assert_eq!(o.learn_rate, bits(1e-3));
    assert_eq!(o.beta_two, bits(0.999));
    assert_eq!(o.eps, bits(1e-8));
    let small = LayoutPlan::from_shapes(&[8, 8]);
    let text = MlirEmitter::emit(&p, &small, dag, 16, 2, 64, &scalars());
    assert!(text.contains("func.func @step_custom_dag("));
    assert!(!text.contains("additional memory slots"));
}
