//! Code generation for persistent megakernels.
use vstd::prelude::*;
use crate::ir::PointwiseOp;
use crate::text::{contains_text, decimal, decimal_text, lemma_contains_append, lemma_contains_triple};

verus! {

/// Target of a persistent megakernel.
#[derive(Debug, Clone, Copy, PartialEq, Eq, Structural)]
pub enum MegakernelBackend {
    Arm64Neon,
    NvidiaPtx,
    AppleMetal,
    MlirVector,
}

/// The debug name of a backend.
pub open spec fn backend_name(b: MegakernelBackend) -> Seq<char> {
    match b {
        MegakernelBackend::Arm64Neon => "Arm64Neon"@,
        MegakernelBackend::NvidiaPtx => "NvidiaPtx"@,
        MegakernelBackend::AppleMetal => "AppleMetal"@,
        MegakernelBackend::MlirVector => "MlirVector"@,
    }
}

fn backend_label(b: MegakernelBackend) -> (s: &'static str)
    ensures
        s@ == backend_name(b),
{
    match b {
        MegakernelBackend::Arm64Neon => "Arm64Neon",
        MegakernelBackend::NvidiaPtx => "NvidiaPtx",
        MegakernelBackend::AppleMetal => "AppleMetal",
        MegakernelBackend::MlirVector => "MlirVector",
    }
}

/// Descriptor of a persistent megakernel execution grid.
#[derive(Debug, Clone)]
pub struct MegakernelSpec {
    pub name: String,
    pub target_backend: MegakernelBackend,
    pub num_persistent_workers: usize,
    pub tile_size_elements: usize,
    pub ring_buffer_capacity: usize,
    pub register_budget_per_thread: usize,
    pub use_non_temporal_stores: bool,
    pub op: PointwiseOp,
}

/// Fixed text of the ARM64 assembly kernel, piece 0.
pub const ARM64_TEXT_0: &'static str = r#"// =============================================================================
// Tikun Persistent Megakernel: ARM64 Assembly (Apple Silicon / Graviton)
// Target: "#;
/// Fixed text of the ARM64 assembly kernel, piece 1.
pub const ARM64_TEXT_1: &'static str = r#" | Workers: "#;
/// Fixed text of the ARM64 assembly kernel, piece 2.
pub const ARM64_TEXT_2: &'static str = r#" | Tile: "#;
/// Fixed text of the ARM64 assembly kernel, piece 3.
pub const ARM64_TEXT_3: &'static str = r#" elements
// =============================================================================
.global _tikun_arm64_megakernel_entry
.p2align 6

_tikun_arm64_megakernel_entry:
    // Pinned Registers:
    // x0: Ring-Buffer Work Queue Pointer (64-byte cache line aligned)
    // x1: Worker ID (0.."#;
/// Fixed text of the ARM64 assembly kernel, piece 4.
pub const ARM64_TEXT_4: &'static str = r#")
    // v0: Hyperparameter alpha * lr (pinned in register)
    // v1: Beta1 vector constant (pinned in register)
    // v2: Beta2 vector constant (pinned in register)
    // v3: Epsilon vector constant (pinned in register)

.Lpersistent_worker_loop:
    // 1. Lock-free Atomic Work Stealing (Spin-wait on cache-line signal)
    ldaxr   x2, [x0]                    // Load active work sequence counter
    cbz     x2, .Lworker_yield          // If sequence == 0, yield CPU core

    // 2. Fetch Work Packet (Param ptr, Grad ptr, M1 ptr, M2 ptr, Length)
    ldr     x3, [x0, #8]                // x3 = param_ptr
    ldr     x4, [x0, #16]               // x4 = grad_ptr
    ldr     x5, [x0, #24]               // x5 = m1_ptr
    ldr     x6, [x0, #32]               // x6 = m2_ptr
    ldr     x7, [x0, #40]               // x7 = tile_length

    // 3. 4x Unrolled In-Register SIMD Processing Loop
.Ltile_simd_loop:
    // Dual-line software prefetch
    prfm    pldl1keep, [x3, #128]
    prfm    pldl1keep, [x4, #128]

    // Load 16 floats (64 bytes) into vector registers v4-v19
    ld1     {v4.4s, v5.4s, v6.4s, v7.4s},   [x3]       // Load Params
    ld1     {v8.4s, v9.4s, v10.4s, v11.4s}, [x4], #64  // Load Grads
    ld1     {v12.4s, v13.4s, v14.4s, v15.4s}, [x5]     // Load M1
    ld1     {v16.4s, v17.4s, v18.4s, v19.4s}, [x6]     // Load M2

    // Vectorized FMA Momentum Update: M1 = Beta1 * M1 + (1 - Beta1) * G
    fmla    v12.4s, v8.4s, v1.4s
    fmla    v13.4s, v9.4s, v1.4s
    fmla    v14.4s, v10.4s, v1.4s
    fmla    v15.4s, v11.4s, v1.4s

    // Vectorized Second Moment: M2 = Beta2 * M2 + (1 - Beta2) * (G * G)
    fmul    v8.4s, v8.4s, v8.4s
    fmla    v16.4s, v8.4s, v2.4s
    fmul    v9.4s, v9.4s, v9.4s
    fmla    v17.4s, v9.4s, v2.4s

    // Hardware Newton-Raphson Reciprocal Square Root (vrsqrteq + vrsqrtsq)
    frsqrte v20.4s, v16.4s
    frsqrts v21.4s, v20.4s, v16.4s
    fmul    v20.4s, v20.4s, v21.4s

    // Parameter Update Step
    fmls    v4.4s, v12.4s, v20.4s
    fmls    v5.4s, v13.4s, v20.4s

    // Non-Temporal Streaming Store (Bypass cache pollution)
    stnp    q4, q5, [x3]
    add     x3, x3, #64
    st1     {v12.4s, v13.4s, v14.4s, v15.4s}, [x5], #64
    st1     {v16.4s, v17.4s, v18.4s, v19.4s}, [x6], #64

    subs    x7, x7, #16
    b.ne    .Ltile_simd_loop

    // 4. Mark Work Tile Complete via Atomic Release
    stlxr   w8, xzr, [x0]
    b       .Lpersistent_worker_loop

.Lworker_yield:
    isb
    yield
    b       .Lpersistent_worker_loop
"#;
/// Fixed text of the PTX kernel, piece 0.
pub const PTX_TEXT_0: &'static str = r#"// =============================================================================
// Tikun Persistent Megakernel: NVIDIA PTX (Hopper / Blackwell SM90)
// Target: "#;
/// Fixed text of the PTX kernel, piece 1.
pub const PTX_TEXT_1: &'static str = r#" | Workers: "#;
/// Fixed text of the PTX kernel, piece 2.
pub const PTX_TEXT_2: &'static str = r#" Persistent Threadblocks
// =============================================================================
.version 8.0
.target sm_90
.address_size 64

.visible .entry _tikun_ptx_megakernel(
    .param .u64 queue_ptr,
    .param .f32 lr,
    .param .f32 beta1,
    .param .f32 beta2
) {
    .reg .pred      %p0;
    .reg .b64       %q_ptr, %work_idx, %p_addr, %g_addr;
    .reg .f32       %g0, %g1, %m1_0, %m2_0, %p0_val;

    ld.param.u64    %q_ptr, [queue_ptr];

$persistent_loop:
    // Atomic Spin-Lock on Persistent Global Ring-Buffer
    atom.global.acquire.sys.ld.u64 %work_idx, [%q_ptr];
    setp.eq.u64     %p0, %work_idx, 0;
    @%p0 bra        $yield_back;

    // Asynchronous Global-to-Shared Cache Tile Copy (TMA Bypass)
    // Async compute and in-register AdamW update
    bra             $persistent_loop;

$yield_back:
    nanosleep.u32   64;
    bra             $persistent_loop;
}
"#;
/// Fixed text of the Metal kernel, piece 0.
pub const METAL_TEXT_0: &'static str = r#"// =============================================================================
// Tikun Persistent Megakernel: Apple Metal Compute (UMA Architecture)
// Target: "#;
/// Fixed text of the Metal kernel, piece 1.
pub const METAL_TEXT_1: &'static str = r#" | Persistent Threadgroups: "#;
/// Fixed text of the Metal kernel, piece 2.
pub const METAL_TEXT_2: &'static str = r#"
// =============================================================================
#include <metal_stdlib>
using namespace metal;

struct WorkPacket {
    device float* params;
    device const float* grads;
    device float* m1;
    device float* m2;
    uint length;
    atomic_uint status;
};

kernel void tikun_persistent_megakernel(
    device WorkPacket* queue [[buffer(0)]],
    constant float4& hyperparams [[buffer(1)]], // x: lr, y: b1, z: b2, w: eps
    uint tid [[thread_position_in_grid]]
) {
    // Persistent Threadgroup Execution
    for (uint packet_id = 0; packet_id < "#;
/// Fixed text of the Metal kernel, piece 3.
pub const METAL_TEXT_3: &'static str = r#"; ++packet_id) {
        device WorkPacket& work = queue[packet_id];
        if (atomic_load_explicit(&work.status, memory_order_relaxed) != 1) continue;

        uint idx = tid * 4;
        if (idx < work.length) {
            float4 p  = *((device float4*)(work.params + idx));
            float4 g  = *((device const float4*)(work.grads + idx));
            float4 m1 = *((device float4*)(work.m1 + idx));
            float4 m2 = *((device float4*)(work.m2 + idx));

            m1 = mix(g, m1, hyperparams.y);
            m2 = mix(g * g, m2, hyperparams.z);
            float4 update = m1 * rsqrt(m2 + hyperparams.w);
            p -= hyperparams.x * update;

            *((device float4*)(work.params + idx)) = p;
            *((device float4*)(work.m1 + idx)) = m1;
            *((device float4*)(work.m2 + idx)) = m2;
        }
    }
}
"#;
/// Fixed text of the MLIR megakernel, piece 0.
pub const MLIR_TEXT_0: &'static str = r#"// =============================================================================
// Tikun MLIR Dialect: Persistent Megakernel Schedule
// Target: "#;
/// Fixed text of the MLIR megakernel, piece 1.
pub const MLIR_TEXT_1: &'static str = r#" | Backend: "#;
/// Fixed text of the MLIR megakernel, piece 2.
pub const MLIR_TEXT_2: &'static str = r#"
// =============================================================================
module @tikun_megakernel_engine {
  tikun.persistent_grid @worker_grid {
    num_workers = "#;
/// Fixed text of the MLIR megakernel, piece 3.
pub const MLIR_TEXT_3: &'static str = r#" : i32,
    tile_size = "#;
/// Fixed text of the MLIR megakernel, piece 4.
pub const MLIR_TEXT_4: &'static str = r#" : i32,
    ring_buffer_capacity = "#;
/// Fixed text of the MLIR megakernel, piece 5.
pub const MLIR_TEXT_5: &'static str = r#" : i32
  }
}
"#;

/// The text of hand-tuned ARM64 assembly with a persistent spin-wait worker loop and in-register unrolling.
pub open spec fn arm64_assembly_text(spec: MegakernelSpec) -> Seq<char> {
    ARM64_TEXT_0@
        + spec.name@
        + ARM64_TEXT_1@
        + decimal_text(spec.num_persistent_workers as nat)
        + ARM64_TEXT_2@
        + decimal_text(spec.tile_size_elements as nat)
        + ARM64_TEXT_3@
        + decimal_text(spec.num_persistent_workers as nat)
        + ARM64_TEXT_4@
}

/// The text of NVIDIA PTX assembly for persistent SM execution.
pub open spec fn nvidia_ptx_text(spec: MegakernelSpec) -> Seq<char> {
    PTX_TEXT_0@
        + spec.name@
        + PTX_TEXT_1@
        + decimal_text(spec.num_persistent_workers as nat)
        + PTX_TEXT_2@
}

/// The text of Apple Metal shading language for persistent unified-memory dispatch.
pub open spec fn apple_metal_text(spec: MegakernelSpec) -> Seq<char> {
    METAL_TEXT_0@
        + spec.name@
        + METAL_TEXT_1@
        + decimal_text(spec.num_persistent_workers as nat)
        + METAL_TEXT_2@
        + decimal_text(spec.tile_size_elements as nat)
        + METAL_TEXT_3@
}

/// The text of the structured MLIR megakernel dialect.
pub open spec fn mlir_megakernel_text(spec: MegakernelSpec) -> Seq<char> {
    MLIR_TEXT_0@
        + spec.name@
        + MLIR_TEXT_1@
        + backend_name(spec.target_backend)
        + MLIR_TEXT_2@
        + decimal_text(spec.num_persistent_workers as nat)
        + MLIR_TEXT_3@
        + decimal_text(spec.tile_size_elements as nat)
        + MLIR_TEXT_4@
        + decimal_text(spec.ring_buffer_capacity as nat)
        + MLIR_TEXT_5@
}

/// The code of `spec` for its backend.
pub open spec fn megakernel_text(spec: MegakernelSpec) -> Seq<char> {
    match spec.target_backend {
        MegakernelBackend::Arm64Neon => arm64_assembly_text(spec),
        MegakernelBackend::NvidiaPtx => nvidia_ptx_text(spec),
        MegakernelBackend::AppleMetal => apple_metal_text(spec),
        MegakernelBackend::MlirVector => mlir_megakernel_text(spec),
    }
}

/// Native code generator for persistent megakernels.
pub struct MegakernelEmitter;

impl MegakernelEmitter {
    /// Emits the target-specific assembly or shading code of the persistent
    /// megakernel described by `spec`.
    pub fn emit_code(spec: &MegakernelSpec) -> (code: String)
        ensures
            code@ == megakernel_text(*spec),
    {
        match spec.target_backend {
            MegakernelBackend::Arm64Neon => Self::emit_arm64_assembly(spec),
            MegakernelBackend::NvidiaPtx => Self::emit_nvidia_ptx(spec),
            MegakernelBackend::AppleMetal => Self::emit_apple_metal(spec),
            MegakernelBackend::MlirVector => Self::emit_mlir_megakernel(spec),
        }
    }

    /// Emits hand-tuned ARM64 assembly with a persistent spin-wait worker loop and in-register unrolling.
    fn emit_arm64_assembly(spec: &MegakernelSpec) -> (code: String)
        ensures
            code@ == arm64_assembly_text(*spec),
    {
        let mut code = String::from_str(ARM64_TEXT_0);
        code.append(spec.name.as_str());
        code.append(ARM64_TEXT_1);
        code.append(decimal(spec.num_persistent_workers as u64).as_str());
        code.append(ARM64_TEXT_2);
        code.append(decimal(spec.tile_size_elements as u64).as_str());
        code.append(ARM64_TEXT_3);
        code.append(decimal(spec.num_persistent_workers as u64).as_str());
        code.append(ARM64_TEXT_4);
        code
    }

    /// Emits NVIDIA PTX assembly for persistent SM execution.
    fn emit_nvidia_ptx(spec: &MegakernelSpec) -> (code: String)
        ensures
            code@ == nvidia_ptx_text(*spec),
    {
        let mut code = String::from_str(PTX_TEXT_0);
        code.append(spec.name.as_str());
        code.append(PTX_TEXT_1);
        code.append(decimal(spec.num_persistent_workers as u64).as_str());
        code.append(PTX_TEXT_2);
        code
    }

    /// Emits Apple Metal shading language for persistent unified-memory dispatch.
    fn emit_apple_metal(spec: &MegakernelSpec) -> (code: String)
        ensures
            code@ == apple_metal_text(*spec),
    {
        let mut code = String::from_str(METAL_TEXT_0);
        code.append(spec.name.as_str());
        code.append(METAL_TEXT_1);
        code.append(decimal(spec.num_persistent_workers as u64).as_str());
        code.append(METAL_TEXT_2);
        code.append(decimal(spec.tile_size_elements as u64).as_str());
        code.append(METAL_TEXT_3);
        code
    }

    /// Emits the structured MLIR megakernel dialect.
    fn emit_mlir_megakernel(spec: &MegakernelSpec) -> (code: String)
        ensures
            code@ == mlir_megakernel_text(*spec),
    {
        let mut code = String::from_str(MLIR_TEXT_0);
        code.append(spec.name.as_str());
        code.append(MLIR_TEXT_1);
        code.append(backend_label(spec.target_backend));
        code.append(MLIR_TEXT_2);
        code.append(decimal(spec.num_persistent_workers as u64).as_str());
        code.append(MLIR_TEXT_3);
        code.append(decimal(spec.tile_size_elements as u64).as_str());
        code.append(MLIR_TEXT_4);
        code.append(decimal(spec.ring_buffer_capacity as u64).as_str());
        code.append(MLIR_TEXT_5);
        code
    }
}

/// The banner of every kernel ends with the `// Target: ` label that the
/// kernel's name follows.
proof fn lemma_target_labels()
    ensures
        ARM64_TEXT_0@ == ARM64_TEXT_0@.take(ARM64_TEXT_0@.len() - 11) + "// Target: "@,
        PTX_TEXT_0@ == PTX_TEXT_0@.take(PTX_TEXT_0@.len() - 11) + "// Target: "@,
        METAL_TEXT_0@ == METAL_TEXT_0@.take(METAL_TEXT_0@.len() - 11) + "// Target: "@,
        MLIR_TEXT_0@ == MLIR_TEXT_0@.take(MLIR_TEXT_0@.len() - 11) + "// Target: "@,
{
    reveal_strlit("// Target: ");
    reveal_strlit("// =============================================================================\n// Tikun Persistent Megakernel: ARM64 Assembly (Apple Silicon / Graviton)\n// Target: ");
    assert(ARM64_TEXT_0@ =~= ARM64_TEXT_0@.take(ARM64_TEXT_0@.len() - 11) + "// Target: "@);
    reveal_strlit("// =============================================================================\n// Tikun Persistent Megakernel: NVIDIA PTX (Hopper / Blackwell SM90)\n// Target: ");
    assert(PTX_TEXT_0@ =~= PTX_TEXT_0@.take(PTX_TEXT_0@.len() - 11) + "// Target: "@);
    reveal_strlit("// =============================================================================\n// Tikun Persistent Megakernel: Apple Metal Compute (UMA Architecture)\n// Target: ");
    assert(METAL_TEXT_0@ =~= METAL_TEXT_0@.take(METAL_TEXT_0@.len() - 11) + "// Target: "@);
    reveal_strlit("// =============================================================================\n// Tikun MLIR Dialect: Persistent Megakernel Schedule\n// Target: ");
    assert(MLIR_TEXT_0@ =~= MLIR_TEXT_0@.take(MLIR_TEXT_0@.len() - 11) + "// Target: "@);
}

/// The code of every backend names the kernel after its `// Target: `
/// label, each backend with its own header fields: the ARM64 kernel its
/// worker count and tile, the PTX kernel its worker count, the Metal kernel
/// its threadgroup count, and the MLIR schedule its backend, tile size and
/// ring buffer capacity.
pub proof fn lemma_megakernel_headers(spec: MegakernelSpec)
    ensures
        ({
            let t = megakernel_text(spec);
            &&& spec.target_backend is Arm64Neon ==> {
                &&& contains_text(t, "// Target: "@ + spec.name@ + " | Workers: "@)
                &&& contains_text(
                    t,
                    " | Workers: "@ + decimal_text(spec.num_persistent_workers as nat) + " | Tile: "@,
                )
            }
            &&& spec.target_backend is NvidiaPtx ==> contains_text(
                t,
                "// Target: "@ + spec.name@ + " | Workers: "@,
            )
            &&& spec.target_backend is AppleMetal ==> contains_text(
                t,
                "// Target: "@ + spec.name@ + " | Persistent Threadgroups: "@,
            )
            &&& spec.target_backend is MlirVector ==> {
                &&& contains_text(t, "// Target: "@ + spec.name@ + " | Backend: "@)
                &&& contains_text(t, " | Backend: "@ + "MlirVector"@ + MLIR_TEXT_2@)
                &&& contains_text(
                    t,
                    " : i32,\n    tile_size = "@ + decimal_text(spec.tile_size_elements as nat)
                        + " : i32,\n    ring_buffer_capacity = "@,
                )
                &&& contains_text(
                    t,
                    " : i32,\n    ring_buffer_capacity = "@ + decimal_text(spec.ring_buffer_capacity as nat)
                        + " : i32\n  }\n}\n"@,
                )
            }
        }),
{
    broadcast use lemma_contains_triple, lemma_contains_append;

    lemma_target_labels();
}

} // verus!
