use tikun::arena::{arena_float_count, slot_float_range};
use tikun::{BufferSlot, LayoutPlan};

#[test]
fn test_cache_alignment() {
    let shapes = vec![100, 513, 2048, 17];
    let plan = LayoutPlan::from_shapes(&shapes);
    assert_eq!(plan.slot_count(), 4);

    for slot in &plan.slots {
        assert_eq!(slot.byte_offset % 64, 0, "Slot must be 64-byte cache line aligned");
    }
}

#[test]
fn packed_offsets_and_total() {
    let plan = LayoutPlan::from_shapes(&[100, 513, 2048, 17]);
    let offsets: Vec<usize> = plan.slots.iter().map(|s| s.byte_offset).collect();
    // 100 floats = 400 bytes -> next at 448; 513 floats = 2052 bytes -> 2500 -> 2560;
    // 2048 floats = 8192 bytes -> 10752; 17 floats = 68 bytes -> 10820.
    assert_eq!(offsets, vec![0, 448, 2560, 10752]);
    assert_eq!(plan.total_allocated_bytes(), 10820);
    assert!(plan.cache_aligned);
    assert_eq!(plan.slots[1], BufferSlot::new(1, 448, 513, true));
    assert_eq!(plan.slots[1].byte_size, 2052);
}

#[test]
fn packed_slots_do_not_overlap() {
    let plan = LayoutPlan::from_shapes(&[3, 64, 1, 0, 17]);
    for w in plan.slots.windows(2) {
        assert!(w[0].byte_offset + w[0].byte_size <= w[1].byte_offset);
    }
    let last = plan.slots.last().unwrap();
    assert!(last.byte_offset + last.byte_size <= plan.total_bytes);
}

#[test]
fn empty_layout() {
    let plan = LayoutPlan::from_shapes(&[]);
    assert_eq!(plan.slot_count(), 0);
    assert_eq!(plan.total_allocated_bytes(), 0);
}

#[test]
fn checked_layout_refuses_overflow() {
    assert!(LayoutPlan::checked_from_shapes(&[usize::MAX / 2]).is_none());
    assert!(LayoutPlan::checked_from_shapes(&[1, usize::MAX / 4 - 8]).is_none());
    let plan = LayoutPlan::checked_from_shapes(&[128, 256]).unwrap();
    assert_eq!(plan.total_bytes, 128 * 4 + 256 * 4);
    assert_eq!(plan.slots[1].byte_offset, 512);
}

#[test]
fn arena_ranges() {
    let plan = LayoutPlan::from_shapes(&[128, 256, 5]);
    assert_eq!(arena_float_count(&plan), (512 + 1024 + 20 + 3) / 4);
    assert_eq!(slot_float_range(&plan, 0), Some((0, 128)));
    assert_eq!(slot_float_range(&plan, 1), Some((128, 384)));
    assert_eq!(slot_float_range(&plan, 2), Some((384, 389)));
    assert_eq!(slot_float_range(&plan, 3), None);
    let odd = LayoutPlan { slots: vec![], total_bytes: 10, cache_aligned: false };
    assert_eq!(arena_float_count(&odd), 3);
}

#[test]
fn layout_of_external_buffers() {
    let plan = LayoutPlan::from_buffers(&[128, 4096, 64], &[10, 20]).unwrap();
    assert_eq!(plan.slot_count(), 2);
    assert_eq!(plan.slots[1], BufferSlot::new(1, 4096, 20, true));
    assert_eq!(plan.total_bytes, 120);
    assert!(plan.cache_aligned);
    let unaligned = LayoutPlan::from_buffers(&[128, 100], &[1, 1]).unwrap();
    assert!(!unaligned.cache_aligned);
    assert!(LayoutPlan::from_buffers(&[0, 0], &[usize::MAX / 4, usize::MAX / 4]).is_none());
    assert!(LayoutPlan::from_buffers(&[0], &[usize::MAX]).is_none());
}
