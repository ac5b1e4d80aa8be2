//! The first-fit heap of `linked_list_allocator`, which serves every request
//! that no size class covers. Its state is opaque here: it is described by how
//! many bytes it spans and how many of them are in use.
use core::mem::MaybeUninit;
use linked_list_allocator::Heap;
use vstd::prelude::*;

verus! {

#[verifier::external_type_specification]
#[verifier::external_body]
pub struct ExHeap(Heap);

/// The number of bytes a heap counts as used (`Heap::used`).
pub uninterp spec fn heap_used(h: Heap) -> nat;

/// The number of bytes a heap spans for allocations (`Heap::size`); zero for a
/// heap that was never given memory.
pub uninterp spec fn heap_size(h: Heap) -> nat;

/// The first address a heap allocates from (`Heap::bottom`); zero for a heap
/// that was never given memory.
pub uninterp spec fn heap_bottom(h: Heap) -> nat;

/// The address just past the memory a heap owns (`Heap::top`); zero for a
/// heap that was never given memory.
pub uninterp spec fn heap_top(h: Heap) -> nat;

/// Every address the first-fit search computes for a request of `size`
/// bytes aligned to `align` stays below the end of the address space: hole
/// addresses lie below the heap's top, and the search adds to them at most a
/// hole header, the alignment, the size and a back-padding header.
pub open spec fn fallback_in_range(h: Heap, size: nat, align: nat) -> bool {
    heap_top(h) + size + align + 32 <= usize::MAX
}

/// The bytes a successful request of `size` bytes takes from the heap: at
/// least the two machine words of a hole header, rounded up to a word.
pub open spec fn hole_block_size(size: nat) -> nat {
    let s = if size < 16 { 16 } else { size };
    if s % 8 == 0 { s } else { s + (8 - s % 8) as nat }
}

/// Relies on `Heap::empty`: a heap without memory, with nothing in use.
pub assume_specification[ Heap::empty ]() -> (h: Heap)
    ensures
        heap_used(h) == 0,
        heap_size(h) == 0,
        heap_bottom(h) == 0,
        heap_top(h) == 0,
;

/// Relies on `Heap::used`: it reads the used-byte counter.
pub assume_specification[ Heap::used ](h: &Heap) -> (r: usize)
    ensures
        r == heap_used(*h),
;

/// Relies on `Heap::size`: the distance between the heap's bottom and top.
pub assume_specification[ Heap::size ](h: &Heap) -> (r: usize)
    ensures
        r == heap_size(*h),
;

/// Relies on `Heap::init_from_slice`: it panics on a heap that already has
/// memory or on a slice too short for a hole header; otherwise the heap spans
/// the slice, less at most seven bytes of alignment at each end.
pub assume_specification[ Heap::init_from_slice ](
    h: &mut Heap,
    mem: &'static mut [MaybeUninit<u8>],
)
    requires
        heap_size(*old(h)) == 0,
        old(mem)@.len() >= 32,
    ensures
        heap_used(*final(h)) == 0,
        heap_size(*final(h)) <= old(mem)@.len(),
        heap_size(*final(h)) + 14 >= old(mem)@.len(),
;

/// Relies on `Heap::top`: the heap's top address, converted to an integer.
#[verifier::external_body]
pub(crate) fn heap_top_addr(h: &Heap) -> (r: usize)
    ensures
        r == heap_top(*h),
{
    h.top().addr()
}

/// Relies on `Layout::from_size_align` and `Heap::allocate_first_fit`. The
/// search adds offsets to hole addresses with wrapping arithmetic, so the
/// request must keep those sums below the end of the address space. Then an
/// invalid layout or a heap without a large enough hole gives `None` and
/// leaves the heap as it was; a success returns a non-null address aligned to
/// `align` and counts `hole_block_size(size)` more bytes as used, which stay
/// within the heap's size since every block lies inside the heap: the block
/// of `hole_block_size(size)` bytes lies in a hole, between the heap's bottom
/// and top, which an allocation does not move.
#[verifier::external_body]
pub(crate) fn heap_allocate(h: &mut Heap, size: usize, align: usize) -> (r: Option<usize>)
    requires
        fallback_in_range(*old(h), size as nat, align as nat),
    ensures
        heap_size(*final(h)) == heap_size(*old(h)),
        heap_bottom(*final(h)) == heap_bottom(*old(h)),
        heap_top(*final(h)) == heap_top(*old(h)),
        r is None ==> *final(h) == *old(h),
        r is Some ==> {
            &&& r->Some_0 != 0
            &&& align > 0
            &&& r->Some_0 % align == 0
            &&& heap_used(*final(h)) == heap_used(*old(h)) + hole_block_size(size as nat)
            &&& heap_used(*final(h)) <= heap_size(*final(h))
            &&& heap_bottom(*final(h)) <= r->Some_0
            &&& r->Some_0 + hole_block_size(size as nat) <= heap_top(*final(h))
        },
{
    match core::alloc::Layout::from_size_align(size, align) {
        Ok(layout) => h.allocate_first_fit(layout).ok().map(|p| p.addr().get()),
        Err(_) => None,
    }
}

} // verus!
