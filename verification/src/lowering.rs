//! Buffer descriptors that bind the slots of a layout to four resident
//! arenas (parameters, gradients and the two optimizer moments).
use vstd::prelude::*;
use crate::arena::{BufferSlot, LayoutPlan};

verus! {

/// Addresses of the four views of one tensor, and its element count.
#[derive(Debug, Clone, Copy, PartialEq, Eq, Structural)]
pub struct TensorBuffer {
    pub param_ptr: usize,
    pub grad_ptr: usize,
    pub m1_ptr: usize,
    pub m2_ptr: usize,
    pub length: usize,
}

/// Base addresses of the parameter, gradient and moment arenas.
#[derive(Debug, Clone, Copy, PartialEq, Eq, Structural)]
pub struct ArenaBases {
    pub params: usize,
    pub grads: usize,
    pub m1: usize,
    pub m2: usize,
}

/// Every address of `slot` in the four arenas fits in a `usize`.
pub open spec fn slot_addressable(bases: ArenaBases, slot: BufferSlot) -> bool {
    &&& bases.params + slot.byte_offset <= usize::MAX
    &&& bases.grads + slot.byte_offset <= usize::MAX
    &&& bases.m1 + slot.byte_offset <= usize::MAX
    &&& bases.m2 + slot.byte_offset <= usize::MAX
}

/// `buf` is the view of `slot` in the arenas at `bases`.
pub open spec fn binds(buf: TensorBuffer, bases: ArenaBases, slot: BufferSlot) -> bool {
    &&& buf.param_ptr == bases.params + slot.byte_offset
    &&& buf.grad_ptr == bases.grads + slot.byte_offset
    &&& buf.m1_ptr == bases.m1 + slot.byte_offset
    &&& buf.m2_ptr == bases.m2 + slot.byte_offset
    &&& buf.length == slot.num_elements
}

/// One buffer per slot of `layout`, each at the slot's byte offset in the
/// four arenas, or `None` where some address would not fit in a `usize`.
pub fn arena_buffers(layout: &LayoutPlan, bases: ArenaBases) -> (r: Option<Vec<TensorBuffer>>)
    ensures
        r is None <==> exists|i: int|
            0 <= i < layout.slots@.len() && !slot_addressable(bases, #[trigger] layout.slots@[i]),
        r matches Some(bufs) ==> {
            &&& bufs@.len() == layout.slots@.len()
            &&& forall|i: int| 0 <= i < bufs@.len() ==> binds(#[trigger] bufs@[i], bases, layout.slots@[i])
        },
{
    let n = layout.slots.len();
    let mut buffers: Vec<TensorBuffer> = Vec::with_capacity(n);
    let mut i: usize = 0;
    while i < n
        invariant
            n == layout.slots@.len(),
            i <= n,
            buffers@.len() == i,
            forall|k: int| 0 <= k < i ==> slot_addressable(bases, #[trigger] layout.slots@[k]),
            forall|k: int| 0 <= k < i ==> binds(#[trigger] buffers@[k], bases, layout.slots@[k]),
        decreases n - i,
    {
        let slot = layout.slots[i];
        let off = slot.byte_offset;
        if off > usize::MAX - bases.params || off > usize::MAX - bases.grads || off > usize::MAX
            - bases.m1 || off > usize::MAX - bases.m2 {
            return None;
        }
        buffers.push(
            TensorBuffer {
                param_ptr: bases.params + off,
                grad_ptr: bases.grads + off,
                m1_ptr: bases.m1 + off,
                m2_ptr: bases.m2 + off,
                length: slot.num_elements,
            },
        );
        i = i + 1;
    }
    Some(buffers)
}

} // verus!
