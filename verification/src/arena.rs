//! Whole-model static memory planning: buffer slots packed into one
//! contiguous, cache-line aligned arena.
use vstd::prelude::*;

verus! {

/// Bytes occupied by one `f32` element.
pub const ELEMENT_BYTES: usize = 4;

/// Size of an L1/L2 cache line, the alignment of every packed slot.
pub const CACHE_LINE: usize = 64;

/// Physical memory buffer descriptor for zero-copy execution.
#[derive(Debug, Clone, Copy, PartialEq, Eq)]
pub struct BufferSlot {
    pub slot_id: usize,
    pub byte_offset: usize,
    pub num_elements: usize,
    pub byte_size: usize,
    pub is_persistent: bool,
}

impl BufferSlot {
    /// A slot of `num_elements` `f32` values starting at `byte_offset`.
    pub fn new(slot_id: usize, byte_offset: usize, num_elements: usize, is_persistent: bool) -> (s:
        Self)
        requires
            num_elements * 4 <= usize::MAX,
        ensures
            s.slot_id == slot_id,
            s.byte_offset == byte_offset,
            s.num_elements == num_elements,
            s.byte_size == num_elements * 4,
            s.is_persistent == is_persistent,
    {
        let byte_size = num_elements * ELEMENT_BYTES;
        BufferSlot { slot_id, byte_offset, num_elements, byte_size, is_persistent }
    }
}

/// `off` rounded up to the next multiple of the cache line.
pub open spec fn align_up(off: int) -> int {
    if off % 64 == 0 {
        off
    } else {
        off + (64 - off % 64)
    }
}

/// The end of the packed layout of `shapes`: each buffer starts at the
/// aligned end of the previous one and takes four bytes per element.
pub open spec fn packed_end(shapes: Seq<usize>) -> int
    decreases shapes.len(),
{
    if shapes.len() == 0 {
        0
    } else {
        align_up(packed_end(shapes.drop_last())) + 4 * shapes.last()
    }
}

/// The byte offset at which buffer `i` of `shapes` is placed.
pub open spec fn packed_offset(shapes: Seq<usize>, i: int) -> int {
    align_up(packed_end(shapes.take(i)))
}

/// The slot that the packed layout of `shapes` gives buffer `i`.
pub open spec fn packed_slot(shapes: Seq<usize>, i: int) -> BufferSlot {
    BufferSlot {
        slot_id: i as usize,
        byte_offset: packed_offset(shapes, i) as usize,
        num_elements: shapes[i],
        byte_size: (4 * shapes[i]) as usize,
        is_persistent: true,
    }
}

/// Static memory layout plan (whole-model memory planning).
#[derive(Debug, Clone, Default)]
pub struct LayoutPlan {
    pub slots: Vec<BufferSlot>,
    pub total_bytes: usize,
    pub cache_aligned: bool,
}

impl LayoutPlan {
    /// `self` is exactly the cache-aligned packed layout of `shapes`.
    pub open spec fn is_packing_of(&self, shapes: Seq<usize>) -> bool {
        &&& self.slots@.len() == shapes.len()
        &&& forall|i: int| 0 <= i < shapes.len() ==> #[trigger] self.slots@[i] == packed_slot(shapes, i)
        &&& self.total_bytes == packed_end(shapes)
        &&& self.cache_aligned
    }

    /// Builds a cache-aligned static memory plan for a list of tensor sizes
    /// (in elements): buffer `i` gets slot `i`, placed at the first 64-byte
    /// boundary after buffer `i - 1`.
    pub fn from_shapes(shapes: &[usize]) -> (plan: Self)
        requires
            packed_end(shapes@) <= usize::MAX,
        ensures
            plan.is_packing_of(shapes@),
    {
        let mut slots: Vec<BufferSlot> = Vec::with_capacity(shapes.len());
        let mut current_offset: usize = 0;
        let n = shapes.len();
        let mut idx: usize = 0;
        proof {
            assert(shapes@.take(0) =~= Seq::<usize>::empty());
        }
        while idx < n
            invariant
                n == shapes@.len(),
                idx <= n,
                packed_end(shapes@) <= usize::MAX,
                slots@.len() == idx,
                current_offset == packed_end(shapes@.take(idx as int)),
                forall|k: int| 0 <= k < idx ==> #[trigger] slots@[k] == packed_slot(shapes@, k),
            decreases n - idx,
        {
            let num_elements = shapes[idx];
            proof {
                let next = shapes@.take(idx + 1);
                assert(next.drop_last() =~= shapes@.take(idx as int));
                assert(next.last() == num_elements);
                lemma_packed_end_monotone(shapes@, idx + 1, n as int);
                assert(shapes@.take(n as int) =~= shapes@);
            }
            let remainder = current_offset % CACHE_LINE;
            if remainder != 0 {
                current_offset = current_offset + (CACHE_LINE - remainder);
            }
            let byte_size = num_elements * ELEMENT_BYTES;
            slots.push(BufferSlot::new(idx, current_offset, num_elements, true));
            current_offset = current_offset + byte_size;
            idx = idx + 1;
        }
        proof {
            assert(shapes@.take(n as int) =~= shapes@);
        }
        LayoutPlan { slots, total_bytes: current_offset, cache_aligned: true }
    }

    /// Like `from_shapes`, but gives `None` where the packed layout would not
    /// fit in the address space.
    pub fn checked_from_shapes(shapes: &[usize]) -> (res: Option<Self>)
        ensures
            res is None <==> packed_end(shapes@) > usize::MAX,
            res matches Some(plan) ==> plan.is_packing_of(shapes@),
    {
        let n = shapes.len();
        let mut end: usize = 0;
        let mut idx: usize = 0;
        proof {
            assert(shapes@.take(0) =~= Seq::<usize>::empty());
        }
        while idx < n
            invariant
                n == shapes@.len(),
                idx <= n,
                end == packed_end(shapes@.take(idx as int)),
            decreases n - idx,
        {
            proof {
                let next = shapes@.take(idx + 1);
                assert(next.drop_last() =~= shapes@.take(idx as int));
                lemma_packed_end_monotone(shapes@, idx + 1, n as int);
                assert(shapes@.take(n as int) =~= shapes@);
            }
            let remainder = end % CACHE_LINE;
            let aligned = if remainder != 0 {
                match end.checked_add(CACHE_LINE - remainder) {
                    Some(a) => a,
                    None => return None,
                }
            } else {
                end
            };
            let byte_size = match shapes[idx].checked_mul(ELEMENT_BYTES) {
                Some(b) => b,
                None => return None,
            };
            end = match aligned.checked_add(byte_size) {
                Some(e) => e,
                None => return None,
            };
            idx = idx + 1;
        }
        proof {
            assert(shapes@.take(n as int) =~= shapes@);
        }
        Some(Self::from_shapes(shapes))
    }

    /// The number of slots in the plan.
    pub fn slot_count(&self) -> (n: usize)
        ensures
            n == self.slots@.len(),
    {
        self.slots.len()
    }

    /// The size in bytes of the whole arena.
    pub fn total_allocated_bytes(&self) -> (n: usize)
        ensures
            n == self.total_bytes,
    {
        self.total_bytes
    }
}

/// The bytes of the first `n` buffers of a pointer/length list.
pub open spec fn buffer_bytes(lengths: Seq<usize>, n: int) -> int
    decreases n,
{
    if n <= 0 {
        0
    } else {
        buffer_bytes(lengths, n - 1) + 4 * lengths[n - 1]
    }
}

/// Every address is on a 64-byte boundary.
pub open spec fn all_cache_aligned(ptrs: Seq<usize>) -> bool {
    forall|i: int| 0 <= i < ptrs.len() ==> #[trigger] ptrs[i] % 64 == 0
}

impl LayoutPlan {
    /// The layout of externally owned buffers: slot `i` sits at address
    /// `ptrs[i]` with `lengths[i]` elements, for as many buffers as both
    /// lists describe; the plan counts their bytes and is cache aligned when
    /// every given address is. `None` where the byte count does not fit in
    /// a `usize`.
    pub fn from_buffers(ptrs: &[usize], lengths: &[usize]) -> (r: Option<Self>)
        ensures
            ({
                let n = if ptrs@.len() < lengths@.len() { ptrs@.len() as int } else { lengths@.len() as int };
                &&& r is None <==> exists|k: int| 0 < k <= n && buffer_bytes(lengths@, k) > usize::MAX
                &&& r matches Some(plan) ==> {
                    &&& plan.slots@.len() == n
                    &&& forall|i: int| 0 <= i < n ==> #[trigger] plan.slots@[i] == (BufferSlot {
                        slot_id: i as usize,
                        byte_offset: ptrs@[i],
                        num_elements: lengths@[i],
                        byte_size: (4 * lengths@[i]) as usize,
                        is_persistent: true,
                    })
                    &&& plan.total_bytes == buffer_bytes(lengths@, n)
                    &&& plan.cache_aligned == all_cache_aligned(ptrs@)
                }
            }),
    {
        let n = if ptrs.len() < lengths.len() {
            ptrs.len()
        } else {
            lengths.len()
        };
        let mut slots: Vec<BufferSlot> = Vec::with_capacity(n);
        let mut total_bytes: usize = 0;
        let mut i: usize = 0;
        while i < n
            invariant
                n <= ptrs@.len(),
                n <= lengths@.len(),
                i <= n,
                slots@.len() == i,
                total_bytes == buffer_bytes(lengths@, i as int),
                forall|k: int| 0 < k <= i ==> buffer_bytes(lengths@, k) <= usize::MAX,
                forall|k: int| 0 <= k < i ==> #[trigger] slots@[k] == (BufferSlot {
                    slot_id: k as usize,
                    byte_offset: ptrs@[k],
                    num_elements: lengths@[k],
                    byte_size: (4 * lengths@[k]) as usize,
                    is_persistent: true,
                }),
            decreases n - i,
        {
            let len = lengths[i];
            let byte_size = match len.checked_mul(ELEMENT_BYTES) {
                Some(b) => b,
                None => {
                    proof {
                        lemma_buffer_bytes_grow(lengths@, i as int);
                    }
                    return None;
                },
            };
            total_bytes = match total_bytes.checked_add(byte_size) {
                Some(t) => t,
                None => {
                    proof {
                        assert(buffer_bytes(lengths@, i + 1) > usize::MAX);
                    }
                    return None;
                },
            };
            slots.push(BufferSlot { slot_id: i, byte_offset: ptrs[i], num_elements: len, byte_size, is_persistent: true });
            i = i + 1;
        }
        let mut aligned = true;
        let mut j: usize = 0;
        while j < ptrs.len()
            invariant
                j <= ptrs@.len(),
                aligned == forall|k: int| 0 <= k < j ==> #[trigger] ptrs@[k] % 64 == 0,
            decreases ptrs@.len() - j,
        {
            if ptrs[j] % CACHE_LINE != 0 {
                aligned = false;
            }
            j = j + 1;
        }
        Some(LayoutPlan { slots, total_bytes, cache_aligned: aligned })
    }
}

/// Adding a buffer never lowers the byte count.
proof fn lemma_buffer_bytes_grow(lengths: Seq<usize>, i: int)
    requires
        0 <= i < lengths.len(),
    ensures
        buffer_bytes(lengths, i + 1) >= 4 * lengths[i],
    decreases i,
{
    lemma_buffer_bytes_nonneg(lengths, i);
}

proof fn lemma_buffer_bytes_nonneg(lengths: Seq<usize>, n: int)
    ensures
        buffer_bytes(lengths, n) >= 0,
    decreases n,
{
    if n > 0 {
        lemma_buffer_bytes_nonneg(lengths, n - 1);
    }
}

/// The number of `f32` cells that an arena for `plan` reserves.
pub open spec fn spec_arena_float_count(plan: LayoutPlan) -> int {
    (plan.total_bytes + 3) / 4
}

/// The number of `f32` cells that a resident arena for `plan` holds: the
/// plan's byte total rounded up to whole elements.
pub fn arena_float_count(plan: &LayoutPlan) -> (n: usize)
    ensures
        n == spec_arena_float_count(*plan),
{
    plan.total_bytes / 4 + if plan.total_bytes % 4 == 0 {
        0
    } else {
        1
    }
}

/// The range `[start, end)` of arena cells that slot `slot_id` of `plan`
/// covers, or `None` where the plan has no such slot.
pub fn slot_float_range(plan: &LayoutPlan, slot_id: usize) -> (r: Option<(usize, usize)>)
    requires
        slot_id < plan.slots@.len() ==> plan.slots@[slot_id as int].byte_offset / 4
            + plan.slots@[slot_id as int].num_elements <= usize::MAX,
    ensures
        r is None <==> slot_id >= plan.slots@.len(),
        r matches Some(range) ==> {
            let slot = plan.slots@[slot_id as int];
            &&& range.0 == slot.byte_offset / 4
            &&& range.1 == slot.byte_offset / 4 + slot.num_elements
        },
{
    if slot_id >= plan.slots.len() {
        return None;
    }
    let slot = plan.slots[slot_id];
    let float_offset = slot.byte_offset / ELEMENT_BYTES;
    Some((float_offset, float_offset + slot.num_elements))
}

/// Every slot of a packed layout starts on a 64-byte cache line boundary.
pub proof fn lemma_packed_slot_aligned(plan: LayoutPlan, shapes: Seq<usize>, i: int)
    requires
        plan.is_packing_of(shapes),
        0 <= i < shapes.len(),
    ensures
        plan.slots@[i].byte_offset % 64 == 0,
{
    lemma_slot_fields(plan, shapes, i);
    lemma_packed_end_nonneg(shapes.take(i));
    lemma_align_up(packed_end(shapes.take(i)));
}

/// The bytes of slot `i` of a packed layout end no later than the total,
/// and before the start of every later slot: slots never overlap and lie
/// inside the arena.
pub proof fn lemma_packed_slots_disjoint(plan: LayoutPlan, shapes: Seq<usize>, i: int, j: int)
    requires
        plan.is_packing_of(shapes),
        0 <= i < shapes.len(),
        0 <= j < shapes.len(),
    ensures
        plan.slots@[i].byte_offset + plan.slots@[i].byte_size <= plan.total_bytes,
        i < j ==> plan.slots@[i].byte_offset + plan.slots@[i].byte_size
            <= plan.slots@[j].byte_offset,
{
    lemma_slot_fields(plan, shapes, i);
    if i < j {
        lemma_slot_fields(plan, shapes, j);
        lemma_packed_end_monotone(shapes, i + 1, j);
        lemma_packed_end_nonneg(shapes.take(j));
        lemma_align_up(packed_end(shapes.take(j)));
    }
}

/// In an arena allocated for a packed layout, the cell range of every slot
/// lies inside the arena, and the ranges of two different slots never
/// overlap: a write through one slot leaves every other slot unchanged.
pub proof fn lemma_packed_slot_ranges(plan: LayoutPlan, shapes: Seq<usize>, i: int, j: int)
    requires
        plan.is_packing_of(shapes),
        0 <= i < shapes.len(),
        0 <= j < shapes.len(),
    ensures
        plan.slots@[i].byte_offset / 4 + plan.slots@[i].num_elements <= spec_arena_float_count(plan),
        i < j ==> plan.slots@[i].byte_offset / 4 + plan.slots@[i].num_elements
            <= plan.slots@[j].byte_offset / 4,
{
    lemma_slot_fields(plan, shapes, i);
    lemma_packed_slot_aligned(plan, shapes, i);
    lemma_packed_slots_disjoint(plan, shapes, i, j);
    let off_i = plan.slots@[i].byte_offset as int;
    let n_i = plan.slots@[i].num_elements as int;
    let total = plan.total_bytes as int;
    lemma_quarter_bound(off_i, n_i, total);
    if i < j {
        lemma_packed_slot_aligned(plan, shapes, j);
        lemma_quarter_bound(off_i, n_i, plan.slots@[j].byte_offset as int);
    }
}

/// A packed layout is tight and keeps every buffer: slot `i` is buffer `i`
/// with its own element count, four bytes per element, persistent; the
/// first slot starts at offset 0, each later slot starts at the first
/// 64-byte boundary at or after the end of the slot before it, and the
/// arena ends where the last slot ends.
pub proof fn lemma_packed_layout_tight(plan: LayoutPlan, shapes: Seq<usize>, i: int)
    requires
        plan.is_packing_of(shapes),
        0 <= i < shapes.len(),
    ensures
        plan.slots@[i].slot_id == i,
        plan.slots@[i].num_elements == shapes[i],
        plan.slots@[i].byte_size == 4 * shapes[i],
        plan.slots@[i].is_persistent,
        i == 0 ==> plan.slots@[i].byte_offset == 0,
        i > 0 ==> {
            let prev_end = plan.slots@[i - 1].byte_offset + plan.slots@[i - 1].byte_size;
            &&& prev_end <= plan.slots@[i].byte_offset < prev_end + 64
        },
        i == shapes.len() - 1 ==> plan.total_bytes == plan.slots@[i].byte_offset
            + plan.slots@[i].byte_size,
{
    lemma_slot_fields(plan, shapes, i);
    assert(plan.slots@[i] == packed_slot(shapes, i));
    assert(i < plan.slots.len());
    lemma_packed_end_nonneg(shapes.take(i));
    lemma_align_up(packed_end(shapes.take(i)));
    if i == 0 {
        assert(shapes.take(0) =~= Seq::<usize>::empty());
    } else {
        lemma_slot_fields(plan, shapes, i - 1);
    }
    if i == shapes.len() - 1 {
        assert(shapes.take(i + 1) =~= shapes);
    }
}

/// For a 64-aligned offset, the byte bound `off + 4 n <= bound` carries
/// over to whole elements.
proof fn lemma_quarter_bound(off: int, n: int, bound: int)
    requires
        off >= 0,
        n >= 0,
        off % 64 == 0,
        off + 4 * n <= bound,
    ensures
        off / 4 + n <= bound / 4,
        off / 4 + n <= (bound + 3) / 4,
{
    assert(off / 4 + n <= bound / 4) by (nonlinear_arith)
        requires
            off >= 0,
            n >= 0,
            off % 64 == 0,
            off + 4 * n <= bound,
    ;
}

/// The fields of slot `i` of a packed layout, as integers.
proof fn lemma_slot_fields(plan: LayoutPlan, shapes: Seq<usize>, i: int)
    requires
        plan.is_packing_of(shapes),
        0 <= i < shapes.len(),
    ensures
        plan.slots@[i].byte_offset == packed_offset(shapes, i),
        plan.slots@[i].byte_size == 4 * shapes[i],
        plan.slots@[i].num_elements == shapes[i],
        packed_offset(shapes, i) + 4 * shapes[i] == packed_end(shapes.take(i + 1)),
        packed_end(shapes.take(i + 1)) <= plan.total_bytes,
{
    let n = shapes.len() as int;
    lemma_slot_end(shapes, i);
    lemma_packed_end_monotone(shapes, i + 1, n);
    assert(shapes.take(n) =~= shapes);
    lemma_packed_end_nonneg(shapes.take(i));
    lemma_align_up(packed_end(shapes.take(i)));
    assert(plan.slots@[i] == packed_slot(shapes, i));
}

/// The end of slot `i` of the packed layout is the packed end of the first
/// `i + 1` buffers.
proof fn lemma_slot_end(shapes: Seq<usize>, i: int)
    requires
        0 <= i < shapes.len(),
    ensures
        packed_offset(shapes, i) + 4 * shapes[i] == packed_end(shapes.take(i + 1)),
{
    let next = shapes.take(i + 1);
    assert(next.drop_last() =~= shapes.take(i));
}

proof fn lemma_align_up(x: int)
    requires
        x >= 0,
    ensures
        x <= align_up(x) < x + 64,
        align_up(x) % 64 == 0,
{
}

proof fn lemma_packed_end_nonneg(shapes: Seq<usize>)
    ensures
        packed_end(shapes) >= 0,
    decreases shapes.len(),
{
    if shapes.len() > 0 {
        lemma_packed_end_nonneg(shapes.drop_last());
        lemma_align_up(packed_end(shapes.drop_last()));
    }
}

/// The packed end of a prefix never exceeds that of a longer prefix.
proof fn lemma_packed_end_monotone(shapes: Seq<usize>, i: int, j: int)
    requires
        0 <= i <= j <= shapes.len(),
    ensures
        packed_end(shapes.take(i)) <= packed_end(shapes.take(j)),
        align_up(packed_end(shapes.take(i))) <= packed_end(shapes.take(j)) || i == j,
    decreases j - i,
{
    if i < j {
        lemma_packed_end_monotone(shapes, i, j - 1);
        let pre = shapes.take(j);
        assert(pre.drop_last() =~= shapes.take(j - 1));
        lemma_packed_end_nonneg(shapes.take(j - 1));
        lemma_align_up(packed_end(shapes.take(j - 1)));
        lemma_packed_end_nonneg(shapes.take(i));
        lemma_align_up(packed_end(shapes.take(i)));
        if i < j - 1 {
            lemma_align_up(packed_end(shapes.take(j - 1)));
        }
    }
}

} // verus!
