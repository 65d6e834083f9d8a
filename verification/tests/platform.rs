use tikun::lowering::arena_buffers;
use tikun::pmc::estimate_counters;
use tikun::{ArenaBases, JitKernel, LayoutPlan, NodeKind, PmcSampler, SiliconTopology, TensorBuffer, TreeDef};

#[test]
fn jit_kernel_clamps_unroll() {
    let k = JitKernel::new(2, 64, false);
    assert_eq!((k.unroll, k.prefetch, k.streaming), (2, 64, false));
    assert_eq!(JitKernel::new(0, 0, true).unroll, 1);
    assert_eq!(JitKernel::new(64, 0, true).unroll, 16);
    let a = JitKernel::active(8, 128);
    assert_eq!((a.unroll, a.prefetch, a.streaming), (8, 128, true));
    let b = JitKernel::active(4, 64);
    assert!(!b.streaming);
}

#[test]
fn sampler_and_counters() {
    let sampler = PmcSampler::start(1024 * 1024);
    assert_eq!(sampler.num_bytes(), 1024 * 1024);
    let _ = sampler.start_time();
    let e = estimate_counters(256 * 1024);
    assert_eq!(e.instructions_retired, 6 * 256 * 1024);
    assert_eq!(e.simd_fma_retired, 64 * 1024);
    assert_eq!(e.l1d_cache_misses, (256 * 1024 * 16 - 128 * 1024) / 64);
    assert_eq!(e.l2d_cache_misses, 0);
    let small = estimate_counters(100);
    assert_eq!((small.l1d_cache_misses, small.l2d_cache_misses), (0, 0));
    let big = estimate_counters(2 * 1024 * 1024);
    assert_eq!(big.l2d_cache_misses, (32 * 1024 * 1024 - 16 * 1024 * 1024) / 64);
}

#[test]
fn topology_probes() {
    let t = SiliconTopology::probe(12);
    assert_eq!(t.chip_name, "Host CPU (Probed In-Memory)");
    assert_eq!((t.p_cores, t.total_cores, t.recommended_workers), (12, 12, 12));
    assert_eq!((t.l1d_cache_kb, t.l2_cache_kb, t.recommended_tile_kb), (32, 512, 256));
    let m = SiliconTopology::from_cache_sizes(8, 12, 131072, 4194304);
    assert_eq!((m.l1d_cache_kb, m.l2_cache_kb), (128, 4096));
    assert_eq!(m.recommended_tile_kb, 256);
    let tiny = SiliconTopology::from_cache_sizes(0, 1, 0, 65536);
    assert_eq!((tiny.recommended_workers, tiny.recommended_tile_kb), (1, 64));
    let wide = SiliconTopology::from_cache_sizes(1, 1, 0, 16 * 1024 * 1024);
    assert_eq!(wide.recommended_tile_kb, 512);
}

#[test]
fn tree_leaf() {
    let leaf = TreeDef::leaf();
    assert!(leaf.is_leaf());
    assert_eq!(leaf.num_leaves(), 1);
    assert!(leaf.children.is_empty());
    let node = TreeDef { kind: NodeKind::Tuple(2), children: vec![TreeDef::leaf(), TreeDef::leaf()], num_leaves: 2 };
    assert!(!node.is_leaf());
    assert_eq!(node.num_leaves(), 2);
}

#[test]
fn arena_views() {
    let layout = LayoutPlan::from_shapes(&[16, 16]);
    let bases = ArenaBases { params: 1000, grads: 2000, m1: 3000, m2: 4000 };
    let bufs = arena_buffers(&layout, bases).unwrap();
    assert_eq!(bufs[1], TensorBuffer { param_ptr: 1064, grad_ptr: 2064, m1_ptr: 3064, m2_ptr: 4064, length: 16 });
    let high = ArenaBases { params: usize::MAX - 10, grads: 0, m1: 0, m2: 0 };
    assert!(arena_buffers(&layout, high).is_none());
}
