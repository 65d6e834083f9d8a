//! Metal lowering: the vectorized AdamW compute shader that a checked
//! schedule lowers to.
use vstd::prelude::*;
use crate::ir::SchedulePipeline;
use crate::static_check::{spec_report, violations_debug, violations_text, Verifier};

verus! {

/// Metal shading language source of the vectorized AdamW kernel.
pub const MSL_SOURCE: &'static str = r#"
#include <metal_stdlib>
using namespace metal;

kernel void adamw_vectorized_kernel(
    device float4* params [[buffer(0)]],
    device const float4* grads [[buffer(1)]],
    device float4* moment_one [[buffer(2)]],
    device float4* moment_two [[buffer(3)]],
    constant float& clip_scale [[buffer(4)]],
    constant float& learn_rate [[buffer(5)]],
    constant float& beta_one [[buffer(6)]],
    constant float& beta_two [[buffer(7)]],
    constant float& eps [[buffer(8)]],
    constant float& decay [[buffer(9)]],
    uint idx [[thread_position_in_grid]]
) {
    float4 p = params[idx];
    float4 g = grads[idx] * clip_scale;
    float4 m1 = moment_one[idx];
    float4 m2 = moment_two[idx];

    float4 next_m1 = beta_one * m1 + (1.0f - beta_one) * g;
    float4 next_m2 = beta_two * m2 + (1.0f - beta_two) * (g * g);

    float4 m_hat = next_m1 / (1.0f - beta_one);
    float4 v_hat = next_m2 / (1.0f - beta_two);

    float4 step_update = (m_hat / (sqrt(v_hat) + eps)) + (decay * p);
    float4 next_p = p - learn_rate * step_update;

    moment_one[idx] = next_m1;
    moment_two[idx] = next_m2;
    params[idx] = next_p;
}
"#;

/// Threads per threadgroup when the AdamW kernel is dispatched.
pub const THREADS_PER_GROUP: u64 = 256;

/// The sizes of one dispatch of the AdamW kernel.
#[derive(Debug, Clone, Copy, PartialEq, Eq, Structural)]
pub struct MetalDispatch {
    /// Kernel threads that do work: one per four floats.
    pub vec4_count: usize,
    /// Bytes of each of the four shared buffers.
    pub byte_length: usize,
    /// Threads in the grid: the working threads rounded up to whole
    /// threadgroups.
    pub grid_width: u64,
}

/// The dispatch sizes of an AdamW step over `length` floats: one thread
/// per whole group of four floats, buffers of `length * 4` bytes, and a
/// grid of the thread count rounded up to a multiple of 256. The grid
/// covers every working thread and is less than one group larger.
pub fn metal_dispatch(length: usize) -> (d: MetalDispatch)
    requires
        length * 4 <= usize::MAX,
    ensures
        d.vec4_count == length / 4,
        d.byte_length == length * 4,
        d.grid_width == (length / 4 + 255) / 256 * 256,
        d.grid_width % 256 == 0,
        d.vec4_count <= d.grid_width < d.vec4_count + 256,
{
    let vec4_count = length / 4;
    let byte_length = length * 4;
    let groups = (vec4_count as u64 + (THREADS_PER_GROUP - 1)) / THREADS_PER_GROUP;
    assert(groups * 256 <= vec4_count + 255) by (nonlinear_arith)
        requires
            groups == (vec4_count + 255) / 256,
    ;
    MetalDispatch { vec4_count, byte_length, grid_width: groups * THREADS_PER_GROUP }
}

/// Lowering of schedules to Metal.
pub struct MetalLowering;

impl MetalLowering {
    /// The Metal shader of `pipeline`, once the schedule passes static
    /// verification; otherwise the message `Static verification failed: `
    /// followed by the `{:?}` text of the violations it reports.
    pub fn msl_shader(pipeline: &SchedulePipeline) -> (r: Result<String, String>)
        ensures
            r is Ok <==> spec_report(pipeline.nodes@) is None,
            r matches Ok(s) ==> s@ == MSL_SOURCE@,
            r matches Err(msg) ==> spec_report(pipeline.nodes@) matches Some(vs) && msg@
                == "Static verification failed: "@ + violations_text(vs),
    {
        match Verifier::verify(pipeline) {
            Ok(()) => Ok(String::from_str(MSL_SOURCE)),
            Err(errs) => {
                let mut msg = String::from_str("Static verification failed: ");
                msg.append(violations_debug(&errs).as_str());
                Err(msg)
            },
        }
    }
}

} // verus!
