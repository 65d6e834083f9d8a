//! Emission of the compiled pipeline in the Tikun MLIR dialect.
use vstd::prelude::*;
use crate::arena::{BufferSlot, LayoutPlan};
use crate::ir::{F32Bits, GlobalReduction, PointwiseOp, SchedulePipeline};
use crate::schema::{sum_elements, total_elements};
use crate::text::{contains_text, lemma_contains_append, lemma_contains_triple, decimal, decimal_text, hex08, padded_hex_text, signed_decimal, signed_decimal_text};

verus! {

/// The floating-point operands of the emitted step, selected from the
/// pointwise op and the pipeline's reduction.
#[derive(Debug, Clone, Copy, PartialEq, Eq, Structural)]
pub struct MlirOperands {
    pub learn_rate: F32Bits,
    pub beta_one: F32Bits,
    pub beta_two: F32Bits,
    pub decay: F32Bits,
    pub eps: F32Bits,
    pub max_norm: F32Bits,
}

/// The floating-point values of the emitted module as the dialect prints
/// them: the arena size in MB with two decimals, the clipping norm, the
/// betas and the decay with four, the learning rate with six, and epsilon
/// in exponent form with one decimal.
#[derive(Debug, Clone)]
pub struct MlirScalarText {
    pub total_memory_mb: String,
    pub max_norm: String,
    pub beta_one: String,
    pub beta_two: String,
    pub learn_rate: String,
    pub decay: String,
    pub eps: String,
}

/// The name of the step function of `op`.
pub open spec fn mlir_algorithm(op: PointwiseOp) -> Seq<char> {
    match op {
        PointwiseOp::AdamW { .. } => "adamw"@,
        PointwiseOp::Lion { .. } => "lion"@,
        PointwiseOp::SGD { .. } => "sgd"@,
        PointwiseOp::CustomDAG { .. } => "custom_dag"@,
    }
}

/// The operands of the step for `op` under `reduction`: the op's own
/// rates, zero where the algorithm has no such rate, the reference AdamW
/// setting (`1e-3`, `0.9`, `0.999`, `0.01`, `1e-8`) for a custom DAG, and
/// the reduction's clipping norm, or 1 without a reduction.
pub open spec fn mlir_operands(op: PointwiseOp, reduction: Option<GlobalReduction>) -> MlirOperands {
    let max_norm = match reduction {
        Some(GlobalReduction::GlobalL2Norm { max_norm }) => max_norm,
        None => F32Bits(0x3f80_0000),
    };
    match op {
        PointwiseOp::AdamW { learn_rate, beta_one, beta_two, eps, decay, .. } => MlirOperands {
            learn_rate,
            beta_one,
            beta_two,
            decay,
            eps,
            max_norm,
        },
        PointwiseOp::Lion { learn_rate, beta_one, beta_two, decay } => MlirOperands {
            learn_rate,
            beta_one,
            beta_two,
            decay,
            eps: F32Bits(0),
            max_norm,
        },
        PointwiseOp::SGD { learn_rate, momentum, decay } => MlirOperands {
            learn_rate,
            beta_one: momentum,
            beta_two: F32Bits(0),
            decay,
            eps: F32Bits(0),
            max_norm,
        },
        PointwiseOp::CustomDAG { .. } => MlirOperands {
            learn_rate: F32Bits(0x3a83_126f),
            beta_one: F32Bits(0x3f66_6666),
            beta_two: F32Bits(0x3f7f_be77),
            decay: F32Bits(0x3c23_d70a),
            eps: F32Bits(0x322b_cc77),
            max_norm,
        },
    }
}

/// The declaration line of one arena slot.
pub open spec fn slot_line(slot: BufferSlot) -> Seq<char> {
    "    tikun.slot "@ + decimal_text(slot.slot_id as nat) + ", offset = 0x"@ + padded_hex_text(
        slot.byte_offset as nat,
        8,
    ) + " : i64, size = "@ + decimal_text(slot.num_elements as nat) + " : f32, align = 64 : i32\n"@
}

/// The declaration lines of `slots`, in order.
pub open spec fn slot_lines(slots: Seq<BufferSlot>) -> Seq<char>
    decreases slots.len(),
{
    if slots.len() == 0 {
        Seq::empty()
    } else {
        slot_lines(slots.drop_last()) + slot_line(slots.last())
    }
}

/// The most slots the arena block lists one by one.
pub const LISTED_SLOTS: usize = 6;

/// The arena block: the first six slots, then a count of the others.
pub open spec fn arena_plan_text(slots: Seq<BufferSlot>) -> Seq<char> {
    if slots.len() > 6 {
        slot_lines(slots.take(6)) + "    // ... and "@ + decimal_text((slots.len() - 6) as nat)
            + " additional memory slots\n"@
    } else {
        slot_lines(slots)
    }
}

/// Fixed text of the MLIR step module, piece 0.
pub const MLIR_STEP_TEXT_0: &'static str = r#"// =============================================================================
// Tikun MLIR Dialect (v1.0)
// Target: Apple Silicon ARM64 | Co-Design: NEON Vector Pipeline + AMX
// =============================================================================

module @tikun_engine attributes {
  tikun.target = "apple-silicon-arm64",
  tikun.cache_line_bytes = 64 : i32,
  "#;
/// Fixed text of the MLIR step module, piece 1.
pub const MLIR_STEP_TEXT_1: &'static str = r#"tikun.total_memory_mb = "#;
/// Fixed text of the MLIR step module, piece 2.
pub const MLIR_STEP_TEXT_2: &'static str = r#" : f64"#;
/// Fixed text of the MLIR step module, piece 3.
pub const MLIR_STEP_TEXT_3: &'static str = r#"
} {

  // Static Contiguous Resident Memory Arena Plan
  tikun.arena @resident_memory_arena {
"#;
/// Fixed text of the MLIR step module, piece 4.
pub const MLIR_STEP_TEXT_4: &'static str = r#"  }

  "#;
/// Fixed text of the MLIR step module, piece 5.
pub const MLIR_STEP_TEXT_5: &'static str = r#"func.func @step_"#;
/// Fixed text of the MLIR step module, piece 6.
pub const MLIR_STEP_TEXT_6: &'static str = r#"("#;
/// Fixed text of the MLIR step module, piece 7.
pub const MLIR_STEP_TEXT_7: &'static str = r#"
    "#;
/// Fixed text of the MLIR step module, piece 8.
pub const MLIR_STEP_TEXT_8: &'static str = r#"%params: !tikun.arena_ref<"#;
/// Fixed text of the MLIR step module, piece 9.
pub const MLIR_STEP_TEXT_9: &'static str = r#"xf32>"#;
/// Fixed text of the MLIR step module, piece 10.
pub const MLIR_STEP_TEXT_10: &'static str = r#",
    %grads:  !tikun.arena_ref<"#;
/// Fixed text of the MLIR step module, piece 11.
pub const MLIR_STEP_TEXT_11: &'static str = r#"xf32>,
    %m1:     !tikun.arena_ref<"#;
/// Fixed text of the MLIR step module, piece 12.
pub const MLIR_STEP_TEXT_12: &'static str = r#"xf32>,
    %m2:     !tikun.arena_ref<"#;
/// Fixed text of the MLIR step module, piece 13.
pub const MLIR_STEP_TEXT_13: &'static str = r#"xf32>
  ) -> !tikun.arena_ref<"#;
/// Fixed text of the MLIR step module, piece 14.
pub const MLIR_STEP_TEXT_14: &'static str = r#"xf32> {

    // Tier 1: Global Monoidal Reduction
    %clip_scale = tikun.reduce.global_l2_norm %grads "#;
/// Fixed text of the MLIR step module, piece 15.
pub const MLIR_STEP_TEXT_15: &'static str = r#"{max_norm = "#;
/// Fixed text of the MLIR step module, piece 16.
pub const MLIR_STEP_TEXT_16: &'static str = r#" : f32}"#;
/// Fixed text of the MLIR step module, piece 17.
pub const MLIR_STEP_TEXT_17: &'static str = r#" : f32

    // Tier 2: Auto-Tuned Pointwise SIMD Schedule
    tikun.parallel_tile %params, %grads, %m1, %m2 {
      "#;
/// Fixed text of the MLIR step module, piece 18.
pub const MLIR_STEP_TEXT_18: &'static str = r#"tile_size = "#;
/// Fixed text of the MLIR step module, piece 19.
pub const MLIR_STEP_TEXT_19: &'static str = r#" : i32"#;
/// Fixed text of the MLIR step module, piece 20.
pub const MLIR_STEP_TEXT_20: &'static str = r#", // Auto-Tuned Cache Slice
      "#;
/// Fixed text of the MLIR step module, piece 21.
pub const MLIR_STEP_TEXT_21: &'static str = r#"unroll_factor = "#;
/// Fixed text of the MLIR step module, piece 22.
pub const MLIR_STEP_TEXT_22: &'static str = r#" : i32"#;
/// Fixed text of the MLIR step module, piece 23.
pub const MLIR_STEP_TEXT_23: &'static str = r#",  // Vectorized Pipeline Width
      "#;
/// Fixed text of the MLIR step module, piece 24.
pub const MLIR_STEP_TEXT_24: &'static str = r#"prefetch_distance = "#;
/// Fixed text of the MLIR step module, piece 25.
pub const MLIR_STEP_TEXT_25: &'static str = r#" : i32"#;
/// Fixed text of the MLIR step module, piece 26.
pub const MLIR_STEP_TEXT_26: &'static str = r#"
    } ^bb0(%p_lane: tensor<16xf32>, %g_lane: tensor<16xf32>, %m1_lane: tensor<16xf32>, %m2_lane: tensor<16xf32>):
      // Software Prefetch Injection
      tikun.arm64.prefetch %p_lane "#;
/// Fixed text of the MLIR step module, piece 27.
pub const MLIR_STEP_TEXT_27: &'static str = r#"{distance = "#;
/// Fixed text of the MLIR step module, piece 28.
pub const MLIR_STEP_TEXT_28: &'static str = r#" : i32"#;
/// Fixed text of the MLIR step module, piece 29.
pub const MLIR_STEP_TEXT_29: &'static str = r#", policy = #tikun.pldl1keep}

      // In-Register Gradient Scaling & Moment Updates
      %g_scaled = tikun.simd.mul %g_lane, %clip_scale : tensor<16xf32>
      "#;
/// Fixed text of the MLIR step module, piece 30.
pub const MLIR_STEP_TEXT_30: &'static str = r#"%m1_next  = tikun.simd.fma %m1_lane, %g_scaled {beta = "#;
/// Fixed text of the MLIR step module, piece 31.
pub const MLIR_STEP_TEXT_31: &'static str = r#" : f32}"#;
/// Fixed text of the MLIR step module, piece 32.
pub const MLIR_STEP_TEXT_32: &'static str = r#" : tensor<16xf32>
      "#;
/// Fixed text of the MLIR step module, piece 33.
pub const MLIR_STEP_TEXT_33: &'static str = r#"%m2_next  = tikun.simd.fma_sqr %m2_lane, %g_scaled {beta = "#;
/// Fixed text of the MLIR step module, piece 34.
pub const MLIR_STEP_TEXT_34: &'static str = r#" : f32}"#;
/// Fixed text of the MLIR step module, piece 35.
pub const MLIR_STEP_TEXT_35: &'static str = r#" : tensor<16xf32>

      // Newton-Raphson Fast Inverse Square Root (vrsqrteq + vrsqrtsq)
      %rsq_est  = tikun.arm64.vrsqrte %m2_next : tensor<16xf32>
      %rsq_step = tikun.arm64.vrsqrts %rsq_est, %m2_next : tensor<16xf32>
      %v_rsqrt  = tikun.simd.mul %rsq_est, %rsq_step : tensor<16xf32>

      // Parameter Step & Non-Temporal Store
      %next_p   = tikun.simd.apply_step %p_lane, %m1_next, %v_rsqrt "#;
/// Fixed text of the MLIR step module, piece 36.
pub const MLIR_STEP_TEXT_36: &'static str = r#"{lr = "#;
/// Fixed text of the MLIR step module, piece 37.
pub const MLIR_STEP_TEXT_37: &'static str = r#" : f32, decay = "#;
/// Fixed text of the MLIR step module, piece 38.
pub const MLIR_STEP_TEXT_38: &'static str = r#" : f32, eps = "#;
/// Fixed text of the MLIR step module, piece 39.
pub const MLIR_STEP_TEXT_39: &'static str = r#" : f32}"#;
/// Fixed text of the MLIR step module, piece 40.
pub const MLIR_STEP_TEXT_40: &'static str = r#" : tensor<16xf32>
      tikun.store.nontemporal %next_p : tensor<16xf32>
    }

    "#;
/// Fixed text of the MLIR step module, piece 41.
pub const MLIR_STEP_TEXT_41: &'static str = r#"return %params : !tikun.arena_ref<"#;
/// Fixed text of the MLIR step module, piece 42.
pub const MLIR_STEP_TEXT_42: &'static str = r#"xf32>"#;
/// Fixed text of the MLIR step module, piece 43.
pub const MLIR_STEP_TEXT_43: &'static str = r#"
  }
}
"#;

/// The module that `MlirEmitter::emit` writes.
pub open spec fn mlir_module_text(
    layout: LayoutPlan,
    op: PointwiseOp,
    tile_size: i32,
    unroll_factor: i32,
    prefetch_distance: i32,
    scalars: MlirScalarText,
) -> Seq<char> {
    MLIR_STEP_TEXT_0@
        + MLIR_STEP_TEXT_1@
        + scalars.total_memory_mb@
        + MLIR_STEP_TEXT_2@
        + MLIR_STEP_TEXT_3@
        + arena_plan_text(layout.slots@)
        + MLIR_STEP_TEXT_4@
        + MLIR_STEP_TEXT_5@
        + mlir_algorithm(op)
        + MLIR_STEP_TEXT_6@
        + MLIR_STEP_TEXT_7@
        + MLIR_STEP_TEXT_8@
        + decimal_text(sum_elements(layout.slots@) as nat)
        + MLIR_STEP_TEXT_9@
        + MLIR_STEP_TEXT_10@
        + decimal_text(sum_elements(layout.slots@) as nat)
        + MLIR_STEP_TEXT_11@
        + decimal_text(sum_elements(layout.slots@) as nat)
        + MLIR_STEP_TEXT_12@
        + decimal_text(sum_elements(layout.slots@) as nat)
        + MLIR_STEP_TEXT_13@
        + decimal_text(sum_elements(layout.slots@) as nat)
        + MLIR_STEP_TEXT_14@
        + MLIR_STEP_TEXT_15@
        + scalars.max_norm@
        + MLIR_STEP_TEXT_16@
        + MLIR_STEP_TEXT_17@
        + MLIR_STEP_TEXT_18@
        + signed_decimal_text(tile_size as int)
        + MLIR_STEP_TEXT_19@
        + MLIR_STEP_TEXT_20@
        + MLIR_STEP_TEXT_21@
        + signed_decimal_text(unroll_factor as int)
        + MLIR_STEP_TEXT_22@
        + MLIR_STEP_TEXT_23@
        + MLIR_STEP_TEXT_24@
        + signed_decimal_text(prefetch_distance as int)
        + MLIR_STEP_TEXT_25@
        + MLIR_STEP_TEXT_26@
        + MLIR_STEP_TEXT_27@
        + signed_decimal_text(prefetch_distance as int)
        + MLIR_STEP_TEXT_28@
        + MLIR_STEP_TEXT_29@
        + MLIR_STEP_TEXT_30@
        + scalars.beta_one@
        + MLIR_STEP_TEXT_31@
        + MLIR_STEP_TEXT_32@
        + MLIR_STEP_TEXT_33@
        + scalars.beta_two@
        + MLIR_STEP_TEXT_34@
        + MLIR_STEP_TEXT_35@
        + MLIR_STEP_TEXT_36@
        + scalars.learn_rate@
        + MLIR_STEP_TEXT_37@
        + scalars.decay@
        + MLIR_STEP_TEXT_38@
        + scalars.eps@
        + MLIR_STEP_TEXT_39@
        + MLIR_STEP_TEXT_40@
        + MLIR_STEP_TEXT_41@
        + decimal_text(sum_elements(layout.slots@) as nat)
        + MLIR_STEP_TEXT_42@
        + MLIR_STEP_TEXT_43@
}

fn algorithm_label(op: &PointwiseOp) -> (s: &'static str)
    ensures
        s@ == mlir_algorithm(*op),
{
    match op {
        PointwiseOp::AdamW { .. } => "adamw",
        PointwiseOp::Lion { .. } => "lion",
        PointwiseOp::SGD { .. } => "sgd",
        PointwiseOp::CustomDAG { .. } => "custom_dag",
    }
}

fn slot_declaration(slot: &BufferSlot) -> (s: String)
    ensures
        s@ == slot_line(*slot),
{
    let mut s = String::from_str("    tikun.slot ");
    s.append(decimal(slot.slot_id as u64).as_str());
    s.append(", offset = 0x");
    s.append(hex08(slot.byte_offset as u64).as_str());
    s.append(" : i64, size = ");
    s.append(decimal(slot.num_elements as u64).as_str());
    s.append(" : f32, align = 64 : i32\n");
    s
}

fn arena_plan(layout: &LayoutPlan) -> (s: String)
    ensures
        s@ == arena_plan_text(layout.slots@),
{
    let n = layout.slots.len();
    let listed = if n > LISTED_SLOTS {
        LISTED_SLOTS
    } else {
        n
    };
    let mut s = String::new();
    let mut i: usize = 0;
    proof {
        assert(layout.slots@.take(0) =~= Seq::<BufferSlot>::empty());
    }
    while i < listed
        invariant
            n == layout.slots@.len(),
            listed <= n,
            i <= listed,
            s@ == slot_lines(layout.slots@.take(i as int)),
        decreases listed - i,
    {
        proof {
            assert(layout.slots@.take(i + 1).drop_last() =~= layout.slots@.take(i as int));
        }
        let line = slot_declaration(&layout.slots[i]);
        s.append(line.as_str());
        i = i + 1;
    }
    if n > LISTED_SLOTS {
        s.append("    // ... and ");
        s.append(decimal((n - LISTED_SLOTS) as u64).as_str());
        s.append(" additional memory slots\n");
    } else {
        proof {
            assert(layout.slots@.take(n as int) =~= layout.slots@);
        }
    }
    s
}

/// Emitter of the Tikun MLIR dialect.
pub struct MlirEmitter;

impl MlirEmitter {
    /// The floating-point operands of the step for `op` in `pipeline`.
    pub fn step_operands(pipeline: &SchedulePipeline, op: &PointwiseOp) -> (o: MlirOperands)
        ensures
            o == mlir_operands(*op, pipeline.reduction),
    {
        let max_norm = match pipeline.reduction {
            Some(GlobalReduction::GlobalL2Norm { max_norm }) => max_norm,
            None => F32Bits(0x3f80_0000),
        };
        match op {
            PointwiseOp::AdamW { learn_rate, beta_one, beta_two, eps, decay, .. } => MlirOperands {
                learn_rate: *learn_rate,
                beta_one: *beta_one,
                beta_two: *beta_two,
                decay: *decay,
                eps: *eps,
                max_norm,
            },
            PointwiseOp::Lion { learn_rate, beta_one, beta_two, decay } => MlirOperands {
                learn_rate: *learn_rate,
                beta_one: *beta_one,
                beta_two: *beta_two,
                decay: *decay,
                eps: F32Bits(0),
                max_norm,
            },
            PointwiseOp::SGD { learn_rate, momentum, decay } => MlirOperands {
                learn_rate: *learn_rate,
                beta_one: *momentum,
                beta_two: F32Bits(0),
                decay: *decay,
                eps: F32Bits(0),
                max_norm,
            },
            PointwiseOp::CustomDAG { .. } => MlirOperands {
                learn_rate: F32Bits(0x3a83_126f),
                beta_one: F32Bits(0x3f66_6666),
                beta_two: F32Bits(0x3f7f_be77),
                decay: F32Bits(0x3c23_d70a),
                eps: F32Bits(0x322b_cc77),
                max_norm,
            },
        }
    }

    /// Emits the MLIR dialect module of the compiled pipeline: the resident
    /// arena plan, then the step function over the four arena views with
    /// the global norm reduction and the tuned pointwise SIMD schedule.
    /// `scalars` holds the printed forms of the step's floating-point
    /// operands (see `step_operands`) and of the arena size in MB.
    pub fn emit(
        pipeline: &SchedulePipeline,
        layout: &LayoutPlan,
        op: PointwiseOp,
        tile_size: i32,
        unroll_factor: i32,
        prefetch_distance: i32,
        scalars: &MlirScalarText,
    ) -> (out: String)
        requires
            sum_elements(layout.slots@) <= usize::MAX,
        ensures
            out@ == mlir_module_text(*layout, op, tile_size, unroll_factor, prefetch_distance, *scalars),
    {
        let total_count = match total_elements(layout) {
            Some(t) => t,
            None => 0,
        };
        let total = decimal(total_count as u64);
        let arena = arena_plan(layout);
        let tile = signed_decimal(tile_size);
        let unroll = signed_decimal(unroll_factor);
        let prefetch = signed_decimal(prefetch_distance);
        let mut out = String::from_str(MLIR_STEP_TEXT_0);
        out.append(MLIR_STEP_TEXT_1);
        out.append(scalars.total_memory_mb.as_str());
        out.append(MLIR_STEP_TEXT_2);
        out.append(MLIR_STEP_TEXT_3);
        out.append(arena.as_str());
        out.append(MLIR_STEP_TEXT_4);
        out.append(MLIR_STEP_TEXT_5);
        out.append(algorithm_label(&op));
        out.append(MLIR_STEP_TEXT_6);
        out.append(MLIR_STEP_TEXT_7);
        out.append(MLIR_STEP_TEXT_8);
        out.append(total.as_str());
        out.append(MLIR_STEP_TEXT_9);
        out.append(MLIR_STEP_TEXT_10);
        out.append(total.as_str());
        out.append(MLIR_STEP_TEXT_11);
        out.append(total.as_str());
        out.append(MLIR_STEP_TEXT_12);
        out.append(total.as_str());
        out.append(MLIR_STEP_TEXT_13);
        out.append(total.as_str());
        out.append(MLIR_STEP_TEXT_14);
        out.append(MLIR_STEP_TEXT_15);
        out.append(scalars.max_norm.as_str());
        out.append(MLIR_STEP_TEXT_16);
        out.append(MLIR_STEP_TEXT_17);
        out.append(MLIR_STEP_TEXT_18);
        out.append(tile.as_str());
        out.append(MLIR_STEP_TEXT_19);
        out.append(MLIR_STEP_TEXT_20);
        out.append(MLIR_STEP_TEXT_21);
        out.append(unroll.as_str());
        out.append(MLIR_STEP_TEXT_22);
        out.append(MLIR_STEP_TEXT_23);
        out.append(MLIR_STEP_TEXT_24);
        out.append(prefetch.as_str());
        out.append(MLIR_STEP_TEXT_25);
        out.append(MLIR_STEP_TEXT_26);
        out.append(MLIR_STEP_TEXT_27);
        out.append(prefetch.as_str());
        out.append(MLIR_STEP_TEXT_28);
        out.append(MLIR_STEP_TEXT_29);
        out.append(MLIR_STEP_TEXT_30);
        out.append(scalars.beta_one.as_str());
        out.append(MLIR_STEP_TEXT_31);
        out.append(MLIR_STEP_TEXT_32);
        out.append(MLIR_STEP_TEXT_33);
        out.append(scalars.beta_two.as_str());
        out.append(MLIR_STEP_TEXT_34);
        out.append(MLIR_STEP_TEXT_35);
        out.append(MLIR_STEP_TEXT_36);
        out.append(scalars.learn_rate.as_str());
        out.append(MLIR_STEP_TEXT_37);
        out.append(scalars.decay.as_str());
        out.append(MLIR_STEP_TEXT_38);
        out.append(scalars.eps.as_str());
        out.append(MLIR_STEP_TEXT_39);
        out.append(MLIR_STEP_TEXT_40);
        out.append(MLIR_STEP_TEXT_41);
        out.append(total.as_str());
        out.append(MLIR_STEP_TEXT_42);
        out.append(MLIR_STEP_TEXT_43);
        out
    }
}

/// The module carries each value under its own label: the arena size, the
/// clipping norm, the tile, unroll and prefetch settings, the first moment's
/// beta (`beta_one`), the second moment's beta (`beta_two`), the learning
/// rate, decay and epsilon of the step, and the arena length of the
/// parameter view; the step function is named after the op's algorithm.
pub proof fn lemma_mlir_module_labels(
    layout: LayoutPlan,
    op: PointwiseOp,
    tile_size: i32,
    unroll_factor: i32,
    prefetch_distance: i32,
    scalars: MlirScalarText,
)
    ensures
        ({
            let t = mlir_module_text(layout, op, tile_size, unroll_factor, prefetch_distance, scalars);
            &&& contains_text(t, "tikun.total_memory_mb = "@ + scalars.total_memory_mb@ + " : f64"@)
            &&& contains_text(t, "{max_norm = "@ + scalars.max_norm@ + " : f32}"@)
            &&& contains_text(t, "tile_size = "@ + signed_decimal_text(tile_size as int) + " : i32"@)
            &&& contains_text(
                t,
                "unroll_factor = "@ + signed_decimal_text(unroll_factor as int) + " : i32"@,
            )
            &&& contains_text(
                t,
                "prefetch_distance = "@ + signed_decimal_text(prefetch_distance as int) + " : i32"@,
            )
            &&& contains_text(
                t,
                "{distance = "@ + signed_decimal_text(prefetch_distance as int) + " : i32"@,
            )
            &&& contains_text(
                t,
                "%m1_next  = tikun.simd.fma %m1_lane, %g_scaled {beta = "@ + scalars.beta_one@
                    + " : f32}"@,
            )
            &&& contains_text(
                t,
                "%m2_next  = tikun.simd.fma_sqr %m2_lane, %g_scaled {beta = "@ + scalars.beta_two@
                    + " : f32}"@,
            )
            &&& contains_text(t, "{lr = "@ + scalars.learn_rate@ + " : f32, decay = "@)
            &&& contains_text(t, " : f32, decay = "@ + scalars.decay@ + " : f32, eps = "@)
            &&& contains_text(t, " : f32, eps = "@ + scalars.eps@ + " : f32}"@)
            &&& op is AdamW ==> contains_text(t, "func.func @step_"@ + "adamw"@ + "("@)
            &&& op is Lion ==> contains_text(t, "func.func @step_"@ + "lion"@ + "("@)
            &&& op is SGD ==> contains_text(t, "func.func @step_"@ + "sgd"@ + "("@)
            &&& op is CustomDAG ==> contains_text(t, "func.func @step_"@ + "custom_dag"@ + "("@)
            &&& contains_text(
                t,
                "%params: !tikun.arena_ref<"@ + decimal_text(sum_elements(layout.slots@) as nat)
                    + "xf32>"@,
            )
        }),
{
    broadcast use lemma_contains_triple, lemma_contains_append;

}

} // verus!
