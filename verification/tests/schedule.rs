use tikun::metal_shader::metal_dispatch;
use tikun::static_check::{is_power_of_two, violation_debug_with, violations_debug};
use tikun::{MetalLowering, ScheduleIRNode, SchedulePipeline, Verifier, VerifierViolation, WorkloadRole};

fn standard_pipeline(width: usize) -> SchedulePipeline {
    let mut pipeline = SchedulePipeline::default();
    pipeline.add_node(ScheduleIRNode::new("load_p_g", WorkloadRole::Load, width));
    pipeline.add_node(ScheduleIRNode::new("fma_update", WorkloadRole::Compute, width));
    pipeline.add_node(ScheduleIRNode::new("store_p", WorkloadRole::Store, width));
    pipeline
}

#[test]
fn new_node_defaults() {
    let node = ScheduleIRNode::new("load_g", WorkloadRole::Load, 8);
    assert_eq!(node.name, "load_g");
    assert_eq!(node.role, WorkloadRole::Load);
    assert_eq!(node.tile_size, 64);
    assert_eq!(node.unroll_factor, 4);
    assert_eq!(node.vector_width, 8);
    assert_eq!(node.prefetch_distance, 2);
}

#[test]
fn add_node_appends() {
    let mut p = SchedulePipeline::default();
    p.add_node(ScheduleIRNode::new("a", WorkloadRole::Load, 4));
    p.add_node(ScheduleIRNode::new("b", WorkloadRole::Store, 4));
    assert_eq!(p.nodes.len(), 2);
    assert_eq!(p.nodes[1].name, "b");
    assert!(p.reduction.is_none());
}

#[test]
fn standard_pipelines_pass() {
    assert_eq!(Verifier::verify(&standard_pipeline(8)), Ok(()));
    assert_eq!(Verifier::verify(&standard_pipeline(16)), Ok(()));
}

#[test]
fn empty_pipeline_is_refused() {
    let p = SchedulePipeline::default();
    assert_eq!(Verifier::verify(&p), Err(vec![VerifierViolation::EmptyPipeline]));
}

#[test]
fn violations_in_node_order() {
    let mut p = SchedulePipeline::default();
    let mut bad_tile = ScheduleIRNode::new("tile", WorkloadRole::Load, 8);
    bad_tile.tile_size = 100;
    p.add_node(bad_tile);
    p.add_node(ScheduleIRNode::new("ok", WorkloadRole::Compute, 16));
    let mut both = ScheduleIRNode::new("both", WorkloadRole::Store, 12);
    both.tile_size = 32;
    p.add_node(both);
    p.add_node(ScheduleIRNode::new("narrow", WorkloadRole::Store, 2));
    assert_eq!(
        Verifier::verify(&p),
        Err(vec![
            VerifierViolation::MisalignedCacheLine { node_name: "tile".to_string(), tile_size: 100 },
            VerifierViolation::MisalignedCacheLine { node_name: "both".to_string(), tile_size: 32 },
            VerifierViolation::InvalidVectorWidth { node_name: "both".to_string(), width: 12 },
            VerifierViolation::InvalidVectorWidth { node_name: "narrow".to_string(), width: 2 },
        ])
    );
}

#[test]
fn zero_width_is_invalid() {
    let mut p = SchedulePipeline::default();
    p.add_node(ScheduleIRNode::new("z", WorkloadRole::Load, 0));
    assert_eq!(
        Verifier::verify(&p),
        Err(vec![VerifierViolation::InvalidVectorWidth { node_name: "z".to_string(), width: 0 }])
    );
}

#[test]
fn power_of_two_matches_std() {
    for w in 0usize..2000 {
        assert_eq!(is_power_of_two(w), w.is_power_of_two(), "width {}", w);
    }
    assert!(is_power_of_two(1usize << 63));
    assert!(!is_power_of_two(usize::MAX));
}

#[test]
fn metal_shader_needs_a_checked_schedule() {
    let shader = MetalLowering::msl_shader(&standard_pipeline(8)).unwrap();
    assert!(shader.contains("kernel void adamw_vectorized_kernel("));
    assert!(shader.starts_with("\n#include <metal_stdlib>\n"));
    assert_eq!(
        MetalLowering::msl_shader(&SchedulePipeline::default()),
        Err("Static verification failed: [EmptyPipeline]".to_string())
    );
    let mut bad = SchedulePipeline::default();
    let mut node = ScheduleIRNode::new("tile \"x\"", WorkloadRole::Load, 3);
    node.tile_size = 100;
    bad.add_node(node);
    assert_eq!(
        MetalLowering::msl_shader(&bad),
        Err("Static verification failed: [MisalignedCacheLine { node_name: \"tile \\\"x\\\"\", tile_size: 100 }, \
             InvalidVectorWidth { node_name: \"tile \\\"x\\\"\", width: 3 }]"
            .to_string())
    );
}

#[test]
fn violations_print_as_debug() {
    let vs = vec![
        VerifierViolation::MisalignedCacheLine { node_name: "a\nb".to_string(), tile_size: 32 },
        VerifierViolation::InvalidVectorWidth { node_name: "é'\\".to_string(), width: 0 },
        VerifierViolation::EmptyPipeline,
    ];
    assert_eq!(violations_debug(&vs), format!("{:?}", vs));
    assert_eq!(violations_debug(&Vec::new()), "[]");
    assert_eq!(violations_debug(&vs[2..].to_vec()), "[EmptyPipeline]");
    assert_eq!(
        violation_debug_with(&vs[1], "<q>"),
        "InvalidVectorWidth { node_name: <q>, width: 0 }"
    );
    assert_eq!(violation_debug_with(&vs[0], "\"n\""), "MisalignedCacheLine { node_name: \"n\", tile_size: 32 }");
}

#[test]
fn metal_dispatch_rounds_to_whole_groups() {
    let d = metal_dispatch(1000);
    assert_eq!((d.vec4_count, d.byte_length, d.grid_width), (250, 4000, 256));
    let e = metal_dispatch(1026);
    assert_eq!((e.vec4_count, e.byte_length, e.grid_width), (256, 4104, 256));
    let f = metal_dispatch(1028);
    assert_eq!((f.vec4_count, f.grid_width), (257, 512));
    assert_eq!(metal_dispatch(0).grid_width, 0);
    assert_eq!(metal_dispatch(3).grid_width, 0);
}

#[test]
fn adding_a_bad_node_breaks_a_good_pipeline() {
    let mut p = standard_pipeline(16);
    assert!(Verifier::verify(&p).is_ok());
    p.add_node(ScheduleIRNode::new("odd", WorkloadRole::Compute, 6));
    assert_eq!(
        Verifier::verify(&p),
        Err(vec![VerifierViolation::InvalidVectorWidth { node_name: "odd".to_string(), width: 6 }])
    );
}
