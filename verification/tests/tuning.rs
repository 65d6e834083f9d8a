use tikun::ann::{bucket_count, bucket_of};
use tikun::tuning::{
    chunk_range, decode_layers, knob_options, knob_value, layer_count, layer_range, lcg_next,
    lcg_sample_bits, polar_steps_for, summarize_layers,
};
use tikun::{Knob, LayerChoice, LayerScheduleConfig, RegionAction, RegionCounters};

#[test]
fn knob_tables() {
    assert_eq!(knob_options(Knob::Tile), 8);
    assert_eq!(knob_value(Knob::Tile, 0), 16);
    assert_eq!(knob_value(Knob::Tile, 7), 2048);
    assert_eq!(knob_value(Knob::Unroll, 2), 8);
    assert_eq!(knob_value(Knob::Prefetch, 5), 1024);
    assert_eq!(knob_value(Knob::Chunks, 4), 24);
    assert_eq!(knob_value(Knob::StreamingCutoff, 1), 64);
    assert_eq!(knob_value(Knob::Interleave, 3), 8);
    assert_eq!(knob_value(Knob::RegTileWidth, 3), 24);
}

#[test]
fn layers_of_a_vector() {
    assert_eq!(layer_count(0), 1);
    assert_eq!(layer_count(5), 1);
    assert_eq!(layer_count(24), 4);
    assert_eq!(layer_count(100), 16);
    let choices = vec![
        LayerChoice { unroll: 0, store_policy: 0, math_mode: 0, prefetch: 0, tile: 0, chunks: 0 },
        LayerChoice { unroll: 3, store_policy: 1, math_mode: 2, prefetch: 5, tile: 7, chunks: 7 },
    ];
    let configs = decode_layers(&choices);
    assert_eq!(configs.len(), 2);
    assert_eq!(configs[0].layer_id, 0);
    assert_eq!(configs[0].unroll_factor, 2);
    assert_eq!(configs[0].store_policy, "temporal_st1");
    assert_eq!(configs[0].math_mode, "exact_fsqrt_div");
    assert_eq!(configs[1].layer_id, 1);
    assert_eq!(configs[1].unroll_factor, 16);
    assert_eq!(configs[1].store_policy, "non_temporal_stnp");
    assert_eq!(configs[1].math_mode, "ultra_nr_1step");
    assert_eq!(configs[1].prefetch_bytes, 1024);
    assert_eq!(configs[1].tile_size_kb, 2048);
    assert_eq!(configs[1].thread_chunks, 64);
    let summary = summarize_layers(&configs);
    assert_eq!((summary.tile_kb, summary.unroll, summary.prefetch, summary.workers, summary.polar_steps), (16, 2, 0, 4, 3));
    let none: Vec<LayerScheduleConfig> = vec![];
    let summary = summarize_layers(&none);
    assert_eq!((summary.tile_kb, summary.unroll, summary.prefetch, summary.workers, summary.polar_steps), (512, 4, 128, 12, 4));
    assert_eq!(polar_steps_for(16), 6);
    assert_eq!(polar_steps_for(5), 5);
}

#[test]
fn benchmark_layer_ranges() {
    assert_eq!(layer_range(100, 0), Some((0, 20)));
    assert_eq!(layer_range(100, 4), Some((80, 100)));
    assert_eq!(layer_range(100, 5), None);
    assert_eq!(layer_range(103, 4), Some((80, 100)));
    assert_eq!(layer_range(3, 0), None);
}

#[test]
fn chunks_cover_every_element_once() {
    for len in 0usize..60 {
        for chunks in 1usize..12 {
            let mut seen = vec![0u32; len];
            for c in 0..chunks {
                if let Some((s, e)) = chunk_range(len, chunks, c) {
                    assert!(s < e && e <= len);
                    for i in s..e {
                        seen[i] += 1;
                    }
                }
            }
            assert!(seen.iter().all(|&k| k == 1), "len {} chunks {}", len, chunks);
        }
    }
    assert_eq!(chunk_range(10, 4, 0), Some((0, 3)));
    assert_eq!(chunk_range(10, 4, 3), Some((9, 10)));
    assert_eq!(chunk_range(10, 0, 0), Some((0, 10)));
}

#[test]
fn trust_region_counters() {
    let c = RegionCounters { success_count: 0, failure_count: 2 };
    let (c, a) = c.step(true, 3, 4);
    assert_eq!((c.success_count, c.failure_count, a), (1, 0, RegionAction::Keep));
    let (c, a) = c.step(true, 3, 4);
    assert_eq!((c.success_count, a), (2, RegionAction::Keep));
    let (c, a) = c.step(true, 3, 4);
    assert_eq!((c.success_count, c.failure_count, a), (0, 0, RegionAction::Expand));
    let mut c = c;
    let mut actions = vec![];
    for _ in 0..4 {
        let (n, a) = c.step(false, 3, 4);
        c = n;
        actions.push(a);
    }
    assert_eq!(actions, vec![RegionAction::Keep, RegionAction::Keep, RegionAction::Keep, RegionAction::Shrink]);
    assert_eq!(c, RegionCounters { success_count: 0, failure_count: 0 });
}

#[test]
fn generator_steps() {
    let s = 42u64;
    let n = lcg_next(s);
    assert_eq!(n, s.wrapping_mul(6364136223846793005).wrapping_add(1));
    assert_eq!(lcg_next(u64::MAX), u64::MAX.wrapping_mul(6364136223846793005).wrapping_add(1));
    assert_eq!(lcg_sample_bits(n), n >> 32);
    assert_eq!(lcg_sample_bits(u64::MAX), 0xffff_ffff);
}

#[test]
fn hyperplane_buckets() {
    assert_eq!(bucket_count(0), 1);
    assert_eq!(bucket_count(4), 16);
    assert_eq!(bucket_count(8), 256);
    assert_eq!(bucket_count(40), 65536);
    assert_eq!(bucket_of(&vec![true, false, true, true], 16), 0b1101);
    assert_eq!(bucket_of(&vec![false; 4], 16), 0);
    assert_eq!(bucket_of(&vec![true; 20], 65536), (1usize << 20) - 1 - ((1usize << 20) - 65536));
    let all: Vec<bool> = vec![true; 64];
    assert_eq!(bucket_of(&all, 7), (u64::MAX % 7) as usize);
}
