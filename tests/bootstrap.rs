use kernel_heap::bootstrap::{
    containing_page, heap_page_count, BootstrapStep, HeapBootstrap, HeapInitError, PageOutcome,
    HEAP_SIZE, HEAP_START, PAGE_SIZE,
};

#[test]
fn heap_spans_twenty_five_pages() {
    assert_eq!(heap_page_count(), 25);
    assert_eq!(heap_page_count(), HEAP_SIZE / PAGE_SIZE);
}

#[test]
fn containing_page_rounds_down() {
    assert_eq!(containing_page(0x1234), 0x1000);
    assert_eq!(containing_page(0x2000), 0x2000);
    assert_eq!(containing_page(HEAP_START + HEAP_SIZE - 1), HEAP_START + 24 * PAGE_SIZE);
}

#[test]
fn maps_every_page_in_order_then_inits() {
    let mut b = HeapBootstrap::new();
    let mut pages = Vec::new();
    loop {
        match b.next_step() {
            BootstrapStep::MapPage { page } => {
                pages.push(page);
                b.record(PageOutcome::Mapped);
            }
            BootstrapStep::InitAllocator { start, size } => {
                assert_eq!(start, HEAP_START);
                assert_eq!(size, HEAP_SIZE);
                break;
            }
            BootstrapStep::Failed(e) => panic!("unexpected failure {:?}", e),
        }
    }
    let expected: Vec<u64> = (0..25).map(|i| HEAP_START + i * PAGE_SIZE).collect();
    assert_eq!(pages, expected);
}

#[test]
fn frame_exhaustion_stops_after_k_minus_one_pages() {
    let k = 7;
    let mut b = HeapBootstrap::new();
    let mut requests = 0;
    let mut mapped = 0;
    loop {
        match b.next_step() {
            BootstrapStep::MapPage { .. } => {
                requests += 1;
                if requests == k {
                    b.record(PageOutcome::NoFrame);
                } else {
                    mapped += 1;
                    b.record(PageOutcome::Mapped);
                }
            }
            BootstrapStep::InitAllocator { .. } => panic!("reported success after a failure"),
            BootstrapStep::Failed(e) => {
                assert_eq!(e, HeapInitError::FrameAllocationFailed);
                break;
            }
        }
    }
    assert_eq!(requests, k);
    assert_eq!(mapped, k - 1);
    assert_eq!(
        b.next_step(),
        BootstrapStep::Failed(HeapInitError::FrameAllocationFailed)
    );
}

#[test]
fn map_error_is_reported() {
    let mut b = HeapBootstrap::new();
    assert_eq!(b.next_step(), BootstrapStep::MapPage { page: HEAP_START });
    b.record(PageOutcome::MapFailed(HeapInitError::PageAlreadyMapped { frame: 0x5000 }));
    assert_eq!(
        b.next_step(),
        BootstrapStep::Failed(HeapInitError::PageAlreadyMapped { frame: 0x5000 })
    );
}
