use comfy_table::modifiers::UTF8_ROUND_CORNERS;
use comfy_table::presets::UTF8_FULL;
use comfy_table::Table;
use tikun::{
    F32Bits, HardwarePlan, LayoutPlan, PlanSizeText, PointwiseOp, ScheduleIRNode, SchedulePipeline,
    WorkloadRole,
};

fn table(header: Vec<&str>, rows: Vec<Vec<String>>) -> String {
    let mut t = Table::new();
    t.load_preset(UTF8_FULL).apply_modifier(UTF8_ROUND_CORNERS).set_header(header);
    for r in rows {
        t.add_row(r);
    }
    t.to_string()
}

fn s(x: &str) -> String {
    x.to_string()
}

#[test]
fn hardware_plan_report() {
    let shapes: Vec<usize> = (1..=10).map(|i| i * 1000).collect();
    let layout = LayoutPlan::from_shapes(&shapes);
    let mut pipeline = SchedulePipeline::default();
    pipeline.add_node(ScheduleIRNode::new("load_p_g", WorkloadRole::Load, 16));
    pipeline.add_node(ScheduleIRNode::new("store_p", WorkloadRole::Store, 16));
    let op = PointwiseOp::Lion {
        learn_rate: F32Bits(1e-4f32.to_bits()),
        beta_one: F32Bits(0.9f32.to_bits()),
        beta_two: F32Bits(0.99f32.to_bits()),
        decay: F32Bits(0.01f32.to_bits()),
    };
    let mib = 1024.0 * 1024.0;
    let sizes = PlanSizeText {
        active_memory_mb: format!("{:.2}", layout.total_bytes as f64 / mib),
        slot_sizes_mb: layout.slots.iter().take(8).map(|sl| format!("{:.2}", (sl.num_elements * 4) as f64 / mib)).collect(),
    };
    let text = HardwarePlan::report(&pipeline, &layout, op, 512, 4, 128, 12, false, &sizes);

    let total: usize = shapes.iter().sum();
    let mut expected = String::from("\n--- Hardware Execution Plan ---\n");
    expected.push_str(&table(
        vec!["Property", "Value"],
        vec![
            vec![s("Algorithm"), s("Lion")],
            vec![s("Profile Source"), s("In-Memory Silicon Topology Prober")],
            vec![s("Active Memory"), format!("{:.2} MB ({} floats)", layout.total_bytes as f64 / mib, total)],
            vec![s("Cache Alignment"), s("64-Byte Aligned")],
            vec![s("L2 Cache Tile"), s("512 KB")],
            vec![s("SIMD Unroll"), s("4x (16 floats/cycle)")],
            vec![s("Prefetch Offset"), s("128 Bytes")],
            vec![s("Parallel Workers"), s("12 Threads")],
        ],
    ));
    expected.push_str("\n\nSchedule Nodes:\n");
    expected.push_str(&table(
        vec!["Role", "Op Name", "Tile Size", "Unroll", "Width", "Prefetch"],
        pipeline
            .nodes
            .iter()
            .map(|n| {
                vec![
                    format!("{:?}", n.role),
                    n.name.clone(),
                    format!("{} B", n.tile_size),
                    format!("{}x", n.unroll_factor),
                    format!("{} lanes", n.vector_width),
                    format!("{} B", n.prefetch_distance),
                ]
            })
            .collect(),
    ));
    expected.push_str("\n\nMemory Layout:\n");
    expected.push_str(&table(
        vec!["Slot", "Offset", "Elements", "Size", "Alignment"],
        layout
            .slots
            .iter()
            .take(8)
            .map(|sl| {
                vec![
                    format!("{:02}", sl.slot_id),
                    format!("0x{:08x}", sl.byte_offset),
                    format!("{}", sl.num_elements),
                    format!("{:.2} MB", (sl.num_elements * 4) as f64 / mib),
                    s(if sl.byte_offset % 64 == 0 { "64-B Aligned" } else { "Unaligned" }),
                ]
            })
            .collect(),
    ));
    expected.push_str("\n... and 2 additional parameter slots");
    expected.push('\n');
    assert_eq!(text, expected);
    assert!(text.contains("╭"));
}

#[test]
fn tuned_plan_without_extra_slots() {
    let layout = LayoutPlan::from_shapes(&[16]);
    let sizes = PlanSizeText { active_memory_mb: s("0.00"), slot_sizes_mb: vec![s("0.00")] };
    let op = PointwiseOp::CustomDAG { primitives: vec![] };
    let text = HardwarePlan::report(&SchedulePipeline::default(), &layout, op, 256, 8, 64, 4, true, &sizes);
    assert!(text.contains("Tuned Profile (~/.cache/tikun/profile.json)"));
    assert!(text.contains("Custom DAG"));
    assert!(text.contains("8x (32 floats/cycle)"));
    assert!(!text.contains("additional parameter slots"));
    assert!(text.ends_with("\n"));
}
