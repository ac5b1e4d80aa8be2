//! The decisions of the heap bootstrap.
//!
//! Before the allocator may be used, every page of the heap region must be
//! backed by a fresh physical frame. The page tables and the frame allocator
//! live outside this library; [`HeapBootstrap`] decides which page comes next,
//! when the region is complete and when the bootstrap has failed, and its
//! caller carries out each step and reports how it went.
use vstd::prelude::*;

verus! {

/// The first virtual address of the kernel heap.
pub const HEAP_START: u64 = 0x4444_4444_0000;

/// The size of the kernel heap in bytes (100 KiB).
pub const HEAP_SIZE: u64 = 102400;

/// The size of a page and of a frame.
pub const PAGE_SIZE: u64 = 4096;

/// The start of the page that holds `addr`.
pub open spec fn page_of(addr: nat) -> nat {
    (addr - addr % (PAGE_SIZE as nat)) as nat
}

/// The first page of the heap.
pub open spec fn first_page() -> nat {
    page_of(HEAP_START as nat)
}

/// The last page of the heap: the one that holds its last byte.
pub open spec fn last_page() -> nat {
    page_of((HEAP_START + HEAP_SIZE - 1) as nat)
}

/// The number of pages from the first page to the last, both included.
pub open spec fn page_count() -> nat {
    ((last_page() - first_page()) / (PAGE_SIZE as int) + 1) as nat
}

/// The heap spans a whole number of pages.
pub proof fn lemma_page_count()
    ensures
        page_count() == HEAP_SIZE / PAGE_SIZE,
        first_page() == HEAP_START,
{
}

/// The start of the page that holds `addr`.
pub fn containing_page(addr: u64) -> (r: u64)
    ensures
        r == page_of(addr as nat),
{
    addr - addr % PAGE_SIZE
}

/// The number of pages that the heap spans.
pub fn heap_page_count() -> (r: u64)
    ensures
        r == page_count(),
{
    let first = containing_page(HEAP_START);
    let last = containing_page(HEAP_START + HEAP_SIZE - 1);
    (last - first) / PAGE_SIZE + 1
}

/// Why the bootstrap stopped.
#[derive(Clone, Copy, Debug, PartialEq, Eq, Structural)]
pub enum HeapInitError {
    /// The frame allocator had no frame left.
    FrameAllocationFailed,
    /// A page table on the way to the page is a huge page.
    ParentEntryHugePage,
    /// The page was already mapped, to the frame that starts at `frame`.
    PageAlreadyMapped { frame: u64 },
}

/// How the mapping of the requested page went.
#[derive(Clone, Copy, Debug, PartialEq, Eq, Structural)]
pub enum PageOutcome {
    /// A frame was allocated, the page mapped to it present and writable, and
    /// the translation entry flushed.
    Mapped,
    /// The frame allocator had no frame left.
    NoFrame,
    /// Mapping the page failed.
    MapFailed(HeapInitError),
}

/// What the bootstrap needs done next.
#[derive(Clone, Copy, Debug, PartialEq, Eq, Structural)]
pub enum BootstrapStep {
    /// Allocate a frame and map the page that starts at `page` to it.
    MapPage { page: u64 },
    /// Every page is mapped: hand the allocator `size` bytes from `start`.
    InitAllocator { start: u64, size: u64 },
    /// The bootstrap failed; pages mapped so far stay mapped.
    Failed(HeapInitError),
}

/// The progress of the bootstrap.
pub struct HeapBootstrap {
    mapped: u64,
    failure: Option<HeapInitError>,
}

/// The state of a bootstrap: how many pages are mapped, and why it failed.
pub ghost struct BootstrapView {
    pub mapped: nat,
    pub failure: Option<HeapInitError>,
}

impl View for HeapBootstrap {
    type V = BootstrapView;

    closed spec fn view(&self) -> BootstrapView {
        BootstrapView { mapped: self.mapped as nat, failure: self.failure }
    }
}

/// The state before any page is mapped.
pub open spec fn initial() -> BootstrapView {
    BootstrapView { mapped: 0, failure: None }
}

/// The step that state `s` asks for: the pages in ascending order, then the
/// allocator; or the failure, once there is one.
pub open spec fn step_of(s: BootstrapView) -> BootstrapStep {
    match s.failure {
        Some(e) => BootstrapStep::Failed(e),
        None => if s.mapped < page_count() {
            BootstrapStep::MapPage { page: (HEAP_START + s.mapped * PAGE_SIZE) as u64 }
        } else {
            BootstrapStep::InitAllocator { start: HEAP_START, size: HEAP_SIZE }
        },
    }
}

/// The state after the requested page had `outcome`.
pub open spec fn after(s: BootstrapView, outcome: PageOutcome) -> BootstrapView {
    match outcome {
        PageOutcome::Mapped => BootstrapView { mapped: s.mapped + 1, ..s },
        PageOutcome::NoFrame => BootstrapView {
            failure: Some(HeapInitError::FrameAllocationFailed),
            ..s
        },
        PageOutcome::MapFailed(e) => BootstrapView { failure: Some(e), ..s },
    }
}

/// The state after the pages requested one after the other had `outcomes`.
pub open spec fn run(outcomes: Seq<PageOutcome>) -> BootstrapView
    decreases outcomes.len(),
{
    if outcomes.len() == 0 {
        initial()
    } else {
        after(run(outcomes.drop_last()), outcomes.last())
    }
}

impl HeapBootstrap {
    /// A bootstrap that has mapped nothing yet.
    pub fn new() -> (b: Self)
        ensures
            b@ == initial(),
    {
        HeapBootstrap { mapped: 0, failure: None }
    }

    /// What to do next.
    pub fn next_step(&self) -> (r: BootstrapStep)
        requires
            self@.mapped <= page_count(),
        ensures
            r == step_of(self@),
    {
        match self.failure {
            Some(e) => BootstrapStep::Failed(e),
            None => if self.mapped < heap_page_count() {
                BootstrapStep::MapPage { page: HEAP_START + self.mapped * PAGE_SIZE }
            } else {
                BootstrapStep::InitAllocator { start: HEAP_START, size: HEAP_SIZE }
            },
        }
    }

    /// Records how the page that `next_step` asked for went.
    pub fn record(&mut self, outcome: PageOutcome)
        requires
            step_of(old(self)@) is MapPage,
        ensures
            final(self)@ == after(old(self)@, outcome),
    {
        match outcome {
            PageOutcome::Mapped => self.mapped = self.mapped + 1,
            PageOutcome::NoFrame => self.failure = Some(HeapInitError::FrameAllocationFailed),
            PageOutcome::MapFailed(e) => self.failure = Some(e),
        }
    }
}

/// Driven from its start, the bootstrap asks for the heap's pages one at a
/// time in ascending address order, one frame and one mapping each. When the
/// first `k - 1` pages are mapped and no frame is left for the `k`-th, exactly
/// `k - 1` pages are mapped and the bootstrap reports the failure. When all
/// `HEAP_SIZE / PAGE_SIZE` pages are mapped, and only then, it hands the
/// region to the allocator.
pub proof fn lemma_bootstrap_run(outcomes: Seq<PageOutcome>)
    requires
        outcomes.len() <= page_count(),
        forall|i: int| 0 <= i < outcomes.len() - 1 ==> outcomes[i] is Mapped,
    ensures
        forall|i: int|
            0 <= i < outcomes.len() ==> step_of(#[trigger] run(outcomes.take(i)))
                == (BootstrapStep::MapPage { page: (HEAP_START + i * PAGE_SIZE) as u64 }),
        outcomes.len() > 0 && outcomes.last() is NoFrame ==> {
            &&& run(outcomes).mapped == outcomes.len() - 1
            &&& step_of(run(outcomes)) == BootstrapStep::Failed(HeapInitError::FrameAllocationFailed)
        },
        (forall|i: int| 0 <= i < outcomes.len() ==> outcomes[i] is Mapped) ==> {
            &&& run(outcomes).mapped == outcomes.len()
            &&& (outcomes.len() == HEAP_SIZE / PAGE_SIZE <==> step_of(run(outcomes))
                == BootstrapStep::InitAllocator { start: HEAP_START, size: HEAP_SIZE })
        },
    decreases outcomes.len(),
{
    lemma_page_count();
    if outcomes.len() > 0 {
        let prefix = outcomes.drop_last();
        lemma_bootstrap_run(prefix);
        lemma_run_prefix_mapped(outcomes);
        assert forall|i: int| 0 <= i < outcomes.len() implies step_of(#[trigger] run(outcomes.take(i)))
            == (BootstrapStep::MapPage { page: (HEAP_START + i * PAGE_SIZE) as u64 }) by {
            assert(outcomes.take(i) =~= prefix.take(i));
            if i == outcomes.len() - 1 {
                assert(prefix.take(i) =~= prefix);
            }
        }
    }
}

/// Along outcomes that are all `Mapped` but perhaps the last, every prefix
/// maps one page per outcome and has not failed.
proof fn lemma_run_prefix_mapped(outcomes: Seq<PageOutcome>)
    requires
        forall|i: int| 0 <= i < outcomes.len() - 1 ==> outcomes[i] is Mapped,
    ensures
        forall|i: int|
            0 <= i < outcomes.len() ==> (#[trigger] run(outcomes.take(i))).mapped == i
                && run(outcomes.take(i)).failure is None,
    decreases outcomes.len(),
{
    if outcomes.len() > 0 {
        let prefix = outcomes.drop_last();
        lemma_run_prefix_mapped(prefix);
        assert forall|i: int| 0 <= i < outcomes.len() implies (#[trigger] run(outcomes.take(i))).mapped == i
            && run(outcomes.take(i)).failure is None by {
            assert(outcomes.take(i) =~= prefix.take(i));
            if i == outcomes.len() - 1 && i > 0 {
                let p = prefix.take(i);
                assert(p.drop_last() =~= prefix.take(i - 1));
                assert(p.last() == outcomes[i - 1]);
                assert(run(prefix.take(i - 1)).mapped == i - 1);
                assert(run(p) == after(run(p.drop_last()), p.last()));
            }
        }
    }
}

} // verus!
