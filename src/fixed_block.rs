//! The segregated size-class allocator.
//!
//! Small requests are served from one free list per size class; a released
//! block goes back on the list of its class, so a later request of that class
//! reuses it without touching the fallback heap. Everything else goes to the
//! fallback heap. A free list is a stack of block addresses whose top is its
//! head.
use crate::fallback::{
    fallback_in_range, heap_allocate, heap_bottom, heap_size, heap_top, heap_top_addr, heap_used,
    hole_block_size,
};
use crate::spin_lock::SpinLock;
use core::mem::MaybeUninit;
use linked_list_allocator::Heap;
use vstd::prelude::*;

verus! {

/// The number of size classes.
pub const BLOCK_COUNT: usize = 9;

/// The size classes, in bytes, ascending.
pub open spec fn block_sizes() -> Seq<nat> {
    seq![8, 16, 32, 64, 128, 256, 512, 1024, 2048]
}

/// The largest size class.
pub open spec fn largest_block() -> nat {
    2048
}

/// The bytes a block must hold to serve a request: its size or its
/// alignment, whichever is larger.
pub open spec fn required_size(size: nat, align: nat) -> nat {
    if size >= align { size } else { align }
}

/// The first class, from `i` on, whose blocks are at least `req` bytes.
pub open spec fn class_from(req: nat, i: nat) -> Option<nat>
    decreases BLOCK_COUNT - i,
{
    if i >= BLOCK_COUNT {
        None
    } else if block_sizes()[i as int] >= req {
        Some(i)
    } else {
        class_from(req, i + 1)
    }
}

/// The size class that serves a request, if any: the smallest one that fits.
pub open spec fn class_of(size: nat, align: nat) -> Option<nat> {
    class_from(required_size(size, align), 0)
}

/// Every class can hold a free-list link: a machine word, word-aligned.
pub proof fn lemma_block_holds_link()
    ensures
        forall|i: int|
            0 <= i < BLOCK_COUNT ==> block_sizes()[i] >= 8 && #[trigger] block_sizes()[i] % 8 == 0,
{
}

proof fn lemma_class_from(req: nat, i: nat)
    requires
        i <= BLOCK_COUNT,
        forall|j: int| 0 <= j < i ==> block_sizes()[j] < req,
    ensures
        class_from(req, i) is None <==> req > largest_block(),
        class_from(req, i) matches Some(c) ==> {
            &&& i <= c < BLOCK_COUNT
            &&& block_sizes()[c as int] >= req
            &&& forall|j: int| 0 <= j < c ==> block_sizes()[j] < req
        },
    decreases BLOCK_COUNT - i,
{
    assert(block_sizes()[8] == largest_block());
    assert(forall|j: int| 0 <= j < BLOCK_COUNT ==> #[trigger] block_sizes()[j] <= largest_block());
    if i < BLOCK_COUNT && block_sizes()[i as int] < req {
        lemma_class_from(req, i + 1);
    }
}

/// The class of a request is the smallest class at least as large as the
/// request's size and alignment; there is none exactly when that exceeds the
/// largest class.
pub proof fn lemma_class_of(size: nat, align: nat)
    ensures
        class_of(size, align) is None <==> required_size(size, align) > largest_block(),
        class_of(size, align) matches Some(c) ==> {
            &&& c < BLOCK_COUNT
            &&& block_sizes()[c as int] >= required_size(size, align)
            &&& forall|j: int| 0 <= j < c ==> block_sizes()[j] < required_size(size, align)
        },
{
    lemma_class_from(required_size(size, align), 0);
}

/// The size of class `index`.
pub fn block_size(index: usize) -> (r: usize)
    requires
        index < BLOCK_COUNT,
    ensures
        r == block_sizes()[index as int],
{
    match index {
        0 => 8,
        1 => 16,
        2 => 32,
        3 => 64,
        4 => 128,
        5 => 256,
        6 => 512,
        7 => 1024,
        _ => 2048,
    }
}

/// The free-list index for a request of `size` bytes aligned to `align`.
pub fn list_index(size: usize, align: usize) -> (r: Option<usize>)
    ensures
        match class_of(size as nat, align as nat) {
            Some(c) => r == Some(c as usize),
            None => r is None,
        },
        r is None <==> required_size(size as nat, align as nat) > largest_block(),
        r matches Some(c) ==> {
            &&& c < BLOCK_COUNT
            &&& block_sizes()[c as int] >= required_size(size as nat, align as nat)
            &&& forall|j: int| 0 <= j < c ==> block_sizes()[j] < required_size(size as nat, align as nat)
        },
{
    let required = if size >= align { size } else { align };
    let mut i: usize = 0;
    while i < BLOCK_COUNT
        invariant
            i <= BLOCK_COUNT,
            required == required_size(size as nat, align as nat),
            class_from(required as nat, i as nat) == class_of(size as nat, align as nat),
        decreases BLOCK_COUNT - i,
    {
        if block_size(i) >= required {
            proof {
                lemma_class_of(size as nat, align as nat);
            }
            return Some(i);
        }
        i += 1;
    }
    proof {
        lemma_class_of(size as nat, align as nat);
    }
    None
}

/// Every block on list `i` is non-null and aligned to the size of class `i`.
pub open spec fn blocks_aligned(lists: Seq<Seq<usize>>) -> bool {
    forall|i: int, k: int|
        0 <= i < lists.len() && 0 <= k < lists[i].len() ==> #[trigger] lists[i][k] != 0
            && (lists[i][k] as nat) % block_sizes()[i] == 0
}

/// No block is on the free lists twice.
pub open spec fn blocks_distinct(lists: Seq<Seq<usize>>) -> bool {
    forall|i: int, k: int, j: int, l: int|
        0 <= i < lists.len() && 0 <= k < lists[i].len() && 0 <= j < lists.len() && 0 <= l
            < lists[j].len() && (i != j || k != l) ==> #[trigger] lists[i][k] != #[trigger] lists[j][l]
}

/// The `len` bytes from `addr` lie between the bottom and the top of heap `h`.
pub open spec fn in_heap(h: Heap, addr: nat, len: nat) -> bool {
    heap_bottom(h) <= addr && addr + len <= heap_top(h)
}

/// Every block on list `i` lies in heap `h`, with the size of class `i`.
pub open spec fn blocks_in_heap(lists: Seq<Seq<usize>>, h: Heap) -> bool {
    forall|i: int, k: int|
        0 <= i < lists.len() && 0 <= k < lists[i].len() ==> in_heap(
            h,
            #[trigger] lists[i][k] as nat,
            block_sizes()[i],
        )
}

/// `addr` is on one of the free lists.
pub open spec fn is_listed(lists: Seq<Seq<usize>>, addr: usize) -> bool {
    exists|i: int, k: int| 0 <= i < lists.len() && 0 <= k < lists[i].len() && lists[i][k] == addr
}

/// Free lists per size class over a first-fit fallback heap.
pub struct FixedSizeBlockAllocator {
    list_heads: Vec<Vec<usize>>,
    fallback_allocator: Heap,
}

impl FixedSizeBlockAllocator {
    /// One free list per size class; every listed block is non-null, aligned
    /// to its class's size, inside the fallback heap and listed once.
    pub open spec fn wf(&self) -> bool {
        &&& self.free_lists().len() == BLOCK_COUNT
        &&& blocks_aligned(self.free_lists())
        &&& blocks_distinct(self.free_lists())
        &&& blocks_in_heap(self.free_lists(), self.fallback())
    }

    /// The free blocks of each class; the last one is the list's head.
    pub closed spec fn free_lists(&self) -> Seq<Seq<usize>> {
        self.list_heads@.map_values(|l: Vec<usize>| l@)
    }

    /// The fallback heap.
    pub closed spec fn fallback(&self) -> Heap {
        self.fallback_allocator
    }

    /// The outcome of `acquire(size, align)` from `pre`, which became `post`
    /// and returned `r`.
    pub open spec fn acquire_outcome(
        pre: Self,
        post: Self,
        size: nat,
        align: nat,
        r: Option<usize>,
    ) -> bool {
        &&& post.wf()
        &&& match class_of(size, align) {
            Some(c) => (r matches Some(a) ==> a != 0 && (a as nat) % block_sizes()[c as int] == 0
                && in_heap(post.fallback(), a as nat, block_sizes()[c as int])) && if pre.free_lists()[c as int].len() > 0 {
                // the head of the class's list is taken; the fallback is untouched
                &&& r == Some(pre.free_lists()[c as int].last())
                &&& !is_listed(post.free_lists(), r->Some_0)
                &&& post.free_lists() == pre.free_lists().update(
                    c as int,
                    pre.free_lists()[c as int].drop_last(),
                )
                &&& post.fallback() == pre.fallback()
            } else {
                // a whole block of the class, aligned to its size, from the fallback
                &&& post.free_lists() == pre.free_lists()
                &&& Self::fallback_outcome(pre, post, block_sizes()[c as int], block_sizes()[c as int], r)
            },
            None => {
                &&& post.free_lists() == pre.free_lists()
                &&& Self::fallback_outcome(pre, post, size, align, r)
            },
        }
    }

    /// What a request of `size` bytes aligned to `align` does to the fallback.
    pub open spec fn fallback_outcome(pre: Self, post: Self, size: nat, align: nat, r: Option<usize>) -> bool {
        &&& heap_size(post.fallback()) == heap_size(pre.fallback())
        &&& heap_bottom(post.fallback()) == heap_bottom(pre.fallback())
        &&& heap_top(post.fallback()) == heap_top(pre.fallback())
        &&& !fallback_in_range(pre.fallback(), size, align) ==> r is None
        &&& r is None ==> post.fallback() == pre.fallback()
        &&& r is Some ==> {
            &&& r->Some_0 != 0
            &&& align > 0
            &&& (r->Some_0 as nat) % align == 0
            &&& heap_used(post.fallback()) == heap_used(pre.fallback()) + hole_block_size(size)
            &&& heap_used(post.fallback()) <= heap_size(post.fallback())
            &&& in_heap(post.fallback(), r->Some_0 as nat, hole_block_size(size))
        }
    }

    /// The outcome of `release(addr, size, align)` from `pre`, which became
    /// `post` and returned `cached`.
    pub open spec fn release_outcome(
        pre: Self,
        post: Self,
        addr: usize,
        size: nat,
        align: nat,
        cached: bool,
    ) -> bool {
        &&& post.wf()
        &&& post.fallback() == pre.fallback()
        &&& cached == class_of(size, align) is Some
        &&& match class_of(size, align) {
            Some(c) => post.free_lists() == pre.free_lists().update(
                c as int,
                pre.free_lists()[c as int].push(addr),
            ),
            None => post.free_lists() == pre.free_lists(),
        }
    }

    /// An allocator with empty free lists and a fallback heap without memory:
    /// every request fails until `init`.
    pub fn new() -> (a: Self)
        ensures
            a.wf(),
            forall|i: int| 0 <= i < BLOCK_COUNT ==> (#[trigger] a.free_lists()[i]).len() == 0,
            heap_size(a.fallback()) == 0,
            heap_used(a.fallback()) == 0,
    {
        let mut list_heads: Vec<Vec<usize>> = Vec::new();
        let mut i: usize = 0;
        while i < BLOCK_COUNT
            invariant
                i <= BLOCK_COUNT,
                list_heads@.len() == i,
                forall|j: int| 0 <= j < i ==> (#[trigger] list_heads@[j])@.len() == 0,
            decreases BLOCK_COUNT - i,
        {
            list_heads.push(Vec::new());
            i += 1;
        }
        FixedSizeBlockAllocator { list_heads, fallback_allocator: Heap::empty() }
    }

    /// Hands the fallback heap its memory. It may be given memory once.
    ///
    /// No block can have been released before: the free lists are empty.
    pub fn init(&mut self, mem: &'static mut [MaybeUninit<u8>])
        requires
            heap_size(old(self).fallback()) == 0,
            forall|i: int| 0 <= i < old(self).free_lists().len() ==> (#[trigger] old(self).free_lists()[i]).len() == 0,
            old(mem)@.len() >= 32,
        ensures
            final(self).wf() == old(self).wf(),
            final(self).free_lists() == old(self).free_lists(),
            heap_used(final(self).fallback()) == 0,
            heap_size(final(self).fallback()) <= old(mem)@.len(),
            heap_size(final(self).fallback()) + 14 >= old(mem)@.len(),
    {
        self.fallback_allocator.init_from_slice(mem);
    }

    /// A request of `size` bytes aligned to `align` to the fallback heap. A
    /// request whose search would run past the end of the address space is
    /// refused before the heap sees it.
    fn fallback_alloc(&mut self, size: usize, align: usize) -> (r: Option<usize>)
        ensures
            final(self).list_heads == old(self).list_heads,
            Self::fallback_outcome(*old(self), *final(self), size as nat, align as nat, r),
    {
        let top = heap_top_addr(&self.fallback_allocator);
        if top > usize::MAX - 32 || size > usize::MAX - 32 - top || align > usize::MAX - 32 - top
            - size {
            return None;
        }
        heap_allocate(&mut self.fallback_allocator, size, align)
    }

    /// Acquires a block of `size` bytes aligned to `align`; `None` when the
    /// fallback heap cannot serve it.
    pub fn acquire(&mut self, size: usize, align: usize) -> (r: Option<usize>)
        requires
            old(self).wf(),
        ensures
            Self::acquire_outcome(*old(self), *final(self), size as nat, align as nat, r),
    {
        proof {
            lemma_class_of(size as nat, align as nat);
        }
        match list_index(size, align) {
            Some(index) => {
                let head = self.list_heads[index].pop();
                match head {
                    Some(addr) => {
                        assert(self.free_lists() =~= old(self).free_lists().update(
                            index as int,
                            old(self).free_lists()[index as int].drop_last(),
                        ));
                        Some(addr)
                    },
                    None => {
                        assert(self.free_lists() =~= old(self).free_lists());
                        let size = block_size(index);
                        self.fallback_alloc(size, size)
                    },
                }
            },
            None => self.fallback_alloc(size, align),
        }
    }

    /// Releases a block acquired with the same `size` and `align`. A block of
    /// a size class goes on that class's free list and `true` is returned;
    /// any other block belongs to the fallback heap, which must take it back
    /// through `fallback_mut`, and `false` is returned.
    ///
    /// A block of a size class was acquired with its class's size as
    /// alignment and is not free already, so it is non-null, aligned, inside
    /// the fallback heap and not on a free list.
    pub fn release(&mut self, addr: usize, size: usize, align: usize) -> (cached: bool)
        requires
            old(self).wf(),
            class_of(size as nat, align as nat) matches Some(c) ==> {
                &&& addr != 0
                &&& (addr as nat) % block_sizes()[c as int] == 0
                &&& !is_listed(old(self).free_lists(), addr)
                &&& in_heap(old(self).fallback(), addr as nat, block_sizes()[c as int])
            },
        ensures
            Self::release_outcome(*old(self), *final(self), addr, size as nat, align as nat, cached),
    {
        proof {
            lemma_class_of(size as nat, align as nat);
            lemma_block_holds_link();
        }
        match list_index(size, align) {
            Some(index) => {
                self.list_heads[index].push(addr);
                assert(self.free_lists() =~= old(self).free_lists().update(
                    index as int,
                    old(self).free_lists()[index as int].push(addr),
                ));
                true
            },
            None => false,
        }
    }

    /// The number of free blocks of class `index`.
    pub fn free_list_len(&self, index: usize) -> (r: usize)
        requires
            self.wf(),
            index < BLOCK_COUNT,
        ensures
            r == self.free_lists()[index as int].len(),
    {
        self.list_heads[index].len()
    }

    /// The bytes of the fallback heap in use.
    pub fn fallback_used(&self) -> (r: usize)
        ensures
            r == heap_used(self.fallback()),
    {
        self.fallback_allocator.used()
    }

    /// The bytes the fallback heap spans.
    pub fn fallback_size(&self) -> (r: usize)
        ensures
            r == heap_size(self.fallback()),
    {
        self.fallback_allocator.size()
    }

    /// The fallback heap, for returning to it the blocks that `release` did
    /// not keep.
    pub fn fallback_mut(&mut self) -> (h: &mut Heap)
        ensures
            *h == old(self).fallback(),
            old(self).wf() && heap_bottom(*final(h)) == heap_bottom(*h) && heap_top(*final(h))
                == heap_top(*h) ==> final(self).wf(),
            final(self).free_lists() == old(self).free_lists(),
            final(self).fallback() == *final(h),
    {
        &mut self.fallback_allocator
    }
}

/// The kernel's allocator: the size-class allocator behind its lock. Each
/// request holds the lock for exactly its own duration.
pub struct LockFixedSizeBlockAllocator(pub SpinLock<FixedSizeBlockAllocator>);

impl LockFixedSizeBlockAllocator {
    /// Acquires a block under the lock; see `FixedSizeBlockAllocator::acquire`.
    pub fn acquire(&mut self, size: usize, align: usize) -> (r: Option<usize>)
        requires
            !old(self).0.held(),
            old(self).0.inner().wf(),
        ensures
            !final(self).0.held(),
            FixedSizeBlockAllocator::acquire_outcome(
                old(self).0.inner(),
                final(self).0.inner(),
                size as nat,
                align as nat,
                r,
            ),
    {
        let mut allocator = self.0.lock();
        let r = allocator.get_mut().acquire(size, align);
        self.0.unlock(allocator);
        r
    }

    /// Releases a block under the lock; see `FixedSizeBlockAllocator::release`.
    pub fn release(&mut self, addr: usize, size: usize, align: usize) -> (cached: bool)
        requires
            !old(self).0.held(),
            old(self).0.inner().wf(),
            class_of(size as nat, align as nat) matches Some(c) ==> {
                &&& addr != 0
                &&& (addr as nat) % block_sizes()[c as int] == 0
                &&& !is_listed(old(self).0.inner().free_lists(), addr)
                &&& in_heap(old(self).0.inner().fallback(), addr as nat, block_sizes()[c as int])
            },
        ensures
            !final(self).0.held(),
            FixedSizeBlockAllocator::release_outcome(
                old(self).0.inner(),
                final(self).0.inner(),
                addr,
                size as nat,
                align as nat,
                cached,
            ),
    {
        let mut allocator = self.0.lock();
        let cached = allocator.get_mut().release(addr, size, align);
        self.0.unlock(allocator);
        cached
    }
}

/// `states` runs through the releases of the blocks `addrs`, each acquired
/// with `size` and `align`.
pub open spec fn releases(
    states: Seq<FixedSizeBlockAllocator>,
    size: nat,
    align: nat,
    addrs: Seq<usize>,
) -> bool {
    &&& states.len() == addrs.len() + 1
    &&& forall|i: int|
        0 <= i < addrs.len() ==> FixedSizeBlockAllocator::release_outcome(
            #[trigger] states[i],
            states[i + 1],
            addrs[i],
            size,
            align,
            true,
        )
}

/// Acquiring a block of a size class whose free list is not empty, and
/// releasing it at once, leaves every free list and the fallback heap as they
/// were.
pub proof fn lemma_round_trip(
    a0: FixedSizeBlockAllocator,
    a1: FixedSizeBlockAllocator,
    a2: FixedSizeBlockAllocator,
    size: nat,
    align: nat,
    r: Option<usize>,
    cached: bool,
)
    requires
        a0.wf(),
        required_size(size, align) <= largest_block(),
        a0.free_lists()[class_of(size, align)->Some_0 as int].len() > 0,
        FixedSizeBlockAllocator::acquire_outcome(a0, a1, size, align, r),
        FixedSizeBlockAllocator::release_outcome(a1, a2, r->Some_0, size, align, cached),
    ensures
        r is Some,
        a2.free_lists() == a0.free_lists(),
        a2.fallback() == a0.fallback(),
{
    lemma_class_of(size, align);
    let c = class_of(size, align)->Some_0 as int;
    assert(a2.free_lists() =~= a0.free_lists()) by {
        assert(a0.free_lists()[c].drop_last().push(a0.free_lists()[c].last()) =~= a0.free_lists()[c]);
    }
}

proof fn lemma_releases_fill(states: Seq<FixedSizeBlockAllocator>, size: nat, align: nat, addrs: Seq<usize>, c: nat)
    requires
        class_of(size, align) == Some(c),
        states[0].wf(),
        releases(states, size, align, addrs),
    ensures
        forall|i: int| 0 <= i < states.len() ==> {
            &&& (#[trigger] states[i]).wf()
            &&& states[i].fallback() == states[0].fallback()
            &&& states[i].free_lists()[c as int].len() == states[0].free_lists()[c as int].len() + i
        },
    decreases addrs.len(),
{
    lemma_class_of(size, align);
    if addrs.len() > 0 {
        let n = addrs.len() - 1;
        assert(FixedSizeBlockAllocator::release_outcome(states[n], states[n + 1], addrs[n], size, align, true));
        lemma_releases_fill(states.drop_last(), size, align, addrs.drop_last(), c);
        assert(states.drop_last()[n] == states[n]);
        assert(states[n + 1].free_lists()[c as int].len() == states[n].free_lists()[c as int].len() + 1);
        assert forall|i: int| 0 <= i < states.len() implies {
            &&& (#[trigger] states[i]).wf()
            &&& states[i].fallback() == states[0].fallback()
            &&& states[i].free_lists()[c as int].len() == states[0].free_lists()[c as int].len() + i
        } by {
            if i < states.len() - 1 {
                assert(states.drop_last()[i] == states[i]);
            }
        }
    }
}

/// One call on a size class: an acquisition that returned `got`, or the
/// release of the block at `addr`.
pub ghost enum ClassCall {
    Acquire(Option<usize>),
    Release(usize),
}

/// The number of acquisitions among `calls`.
pub open spec fn acquire_count(calls: Seq<ClassCall>) -> nat
    decreases calls.len(),
{
    if calls.len() == 0 {
        0
    } else {
        acquire_count(calls.drop_last()) + if calls.last() is Acquire { 1nat } else { 0nat }
    }
}

/// The number of releases among `calls`.
pub open spec fn release_count(calls: Seq<ClassCall>) -> nat
    decreases calls.len(),
{
    if calls.len() == 0 {
        0
    } else {
        release_count(calls.drop_last()) + if calls.last() is Release { 1nat } else { 0nat }
    }
}

/// `states` runs through `calls`, each made with `size` and `align`.
pub open spec fn class_calls(
    states: Seq<FixedSizeBlockAllocator>,
    size: nat,
    align: nat,
    calls: Seq<ClassCall>,
) -> bool {
    &&& states.len() == calls.len() + 1
    &&& forall|i: int|
        0 <= i < calls.len() ==> match #[trigger] calls[i] {
            ClassCall::Acquire(got) => FixedSizeBlockAllocator::acquire_outcome(
                states[i],
                states[i + 1],
                size,
                align,
                got,
            ),
            ClassCall::Release(addr) => FixedSizeBlockAllocator::release_outcome(
                states[i],
                states[i + 1],
                addr,
                size,
                align,
                true,
            ),
        }
}

proof fn lemma_counts_step(calls: Seq<ClassCall>, i: int)
    requires
        0 <= i < calls.len(),
    ensures
        acquire_count(calls.take(i + 1)) == acquire_count(calls.take(i)) + if calls[i] is Acquire {
            1nat
        } else {
            0nat
        },
        release_count(calls.take(i + 1)) == release_count(calls.take(i)) + if calls[i] is Release {
            1nat
        } else {
            0nat
        },
{
    assert(calls.take(i + 1).drop_last() =~= calls.take(i));
}

#[verifier::rlimit(50)]
proof fn lemma_calls_from_list(
    states: Seq<FixedSizeBlockAllocator>,
    size: nat,
    align: nat,
    calls: Seq<ClassCall>,
    c: nat,
)
    requires
        class_of(size, align) == Some(c),
        states[0].wf(),
        class_calls(states, size, align, calls),
        forall|i: int|
            0 <= i < calls.len() && #[trigger] calls[i] is Acquire ==> acquire_count(calls.take(i + 1))
                <= states[0].free_lists()[c as int].len() + release_count(calls.take(i)),
    ensures
        forall|i: int|
            0 <= i < states.len() ==> {
                &&& (#[trigger] states[i]).wf()
                &&& states[i].fallback() == states[0].fallback()
                &&& states[i].free_lists()[c as int].len() + acquire_count(calls.take(i))
                    == states[0].free_lists()[c as int].len() + release_count(calls.take(i))
            },
    decreases calls.len(),
{
    lemma_class_of(size, align);
    if calls.len() > 0 {
        let n = calls.len() - 1;
        let sp = states.drop_last();
        let cp = calls.drop_last();
        assert forall|i: int| 0 <= i < cp.len() && #[trigger] cp[i] is Acquire implies acquire_count(
            cp.take(i + 1),
        ) <= sp[0].free_lists()[c as int].len() + release_count(cp.take(i)) by {
            assert(cp.take(i + 1) =~= calls.take(i + 1));
            assert(cp.take(i) =~= calls.take(i));
            assert(calls[i] is Acquire);
        }
        assert forall|i: int| 0 <= i < cp.len() implies match #[trigger] cp[i] {
            ClassCall::Acquire(got) => FixedSizeBlockAllocator::acquire_outcome(sp[i], sp[i + 1], size, align, got),
            ClassCall::Release(addr) => FixedSizeBlockAllocator::release_outcome(sp[i], sp[i + 1], addr, size, align, true),
        } by {
            assert(calls[i] == cp[i]);
        }
        lemma_calls_from_list(sp, size, align, cp, c);
        assert(sp[n] == states[n]);
        assert(calls.take(n) =~= cp.take(n));
        assert(cp.take(n) =~= cp);
        lemma_counts_step(calls, n);
        assert(calls[n] == calls[n]);
        assert forall|i: int| 0 <= i < states.len() implies {
            &&& (#[trigger] states[i]).wf()
            &&& states[i].fallback() == states[0].fallback()
            &&& states[i].free_lists()[c as int].len() + acquire_count(calls.take(i))
                == states[0].free_lists()[c as int].len() + release_count(calls.take(i))
        } by {
            if i < states.len() - 1 {
                assert(sp[i] == states[i]);
                assert(calls.take(i) =~= cp.take(i));
            } else {
                assert(calls.take(i) =~= calls);
            }
        }
    }
}

/// Once `n` blocks of a size class have been released, calls of that class
/// that never acquire more blocks than were released (the `n`, plus those
/// released in between) are all served from the free list: every acquisition
/// succeeds and the fallback heap is not touched, so memory use stays what
/// the first blocks took.
pub proof fn lemma_reuse_after_release(
    freed: Seq<FixedSizeBlockAllocator>,
    again: Seq<FixedSizeBlockAllocator>,
    size: nat,
    align: nat,
    addrs: Seq<usize>,
    calls: Seq<ClassCall>,
)
    requires
        required_size(size, align) <= largest_block(),
        freed[0].wf(),
        releases(freed, size, align, addrs),
        again[0] == freed.last(),
        class_calls(again, size, align, calls),
        forall|i: int|
            0 <= i < calls.len() && #[trigger] calls[i] is Acquire ==> acquire_count(calls.take(i + 1))
                <= addrs.len() + release_count(calls.take(i)),
    ensures
        forall|i: int| 0 <= i < again.len() ==> (#[trigger] again[i]).fallback() == freed[0].fallback(),
        heap_used(again.last().fallback()) == heap_used(freed[0].fallback()),
        forall|i: int| 0 <= i < calls.len() ==> (#[trigger] calls[i] matches ClassCall::Acquire(got) ==> got is Some),
{
    lemma_class_of(size, align);
    let c = class_of(size, align)->Some_0;
    lemma_releases_fill(freed, size, align, addrs, c);
    assert(freed.last() == freed[freed.len() - 1]);
    lemma_calls_from_list(again, size, align, calls, c);
    assert forall|i: int| 0 <= i < calls.len() implies (#[trigger] calls[i] matches ClassCall::Acquire(got) ==> got is Some) by {
        if calls[i] is Acquire {
            lemma_counts_step(calls, i);
            assert(again[i].wf());
        }
    }
    assert(again.last() == again[again.len() - 1]);
}

} // verus!
