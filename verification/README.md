# tikun

Tikun compiles fused optimizer steps (AdamW, Lion, SGD, custom pointwise
DAGs) into hardware schedules. This crate is the verified core, written in
Verus; `app/` is the command-line driver and the floating-point kernels.

## Library (`src/`)

- `arena` — whole-model memory planning: buffers packed into one arena at
  64-byte boundaries, with proofs that slots are aligned, disjoint and inside
  the arena.
- `ir`, `static_check` — the typed schedule IR and the static checker
  (cache-line aligned tiles, power-of-two SIMD widths).
- `schema` — the compilation schema: memory topography, execution schedule,
  memory traffic.
- `mlir`, `megakernel`, `metal_shader`, `inspect`, `text` — code and report
  generation (MLIR dialect, ARM64/PTX/Metal/MLIR megakernels, the Metal
  shader, the hardware plan tables), with exact integer rendering.
- `tuning`, `ann` — the discrete side of auto-tuning: knob tables, per-layer
  schedules, work partitioning, trust-region counters, the random generator
  and hyperplane buckets.
- `lowering`, `jit`, `pmc`, `topology`, `treedef` — buffer descriptors,
  kernel specialization, counter estimates, topology-derived parameters and
  PyTree metadata.

Hyperparameters are carried as IEEE-754 bit patterns (`F32Bits`, `F64Bits`):
the library stores and copies them but never computes with them.

## Driver (`app/`)

Floating-point work (the optimizer kernels, Bayesian tuning, Pareto ranking,
printing of float values), file and terminal I/O, JSON output and the CLI.
