use tracking_allocator::allocator::alloc_attribution;
use tracking_allocator::allocator::dealloc_attribution;
use tracking_allocator::allocator::try_get_wrapped_layout;
use tracking_allocator::allocator::AllocLayout;
use tracking_allocator::allocator::Allocator;
use tracking_allocator::allocator::HEADER_SIZE;
use tracking_allocator::allocator::UNATTRIBUTED;

/// Layout invariants over many (size, alignment) pairs: the wrapped size
/// covers header plus request, the wrapped size is a multiple of the wrapped
/// alignment, and any base aligned to the wrapped alignment puts the object
/// pointer exactly at the requested alignment.
#[test]
fn wrapped_layout_invariants_many_pairs() {
    for &align in &[1usize, 2, 4, 8, 16, 32, 64, 128, 4096] {
        for size in 0usize..130 {
            let (wrapped, offset) =
                try_get_wrapped_layout(AllocLayout { size, align }).expect("small layout fits");
            assert!(wrapped.size >= HEADER_SIZE + size, "size {size} align {align}");
            assert!(offset >= HEADER_SIZE);
            assert_eq!(wrapped.size % wrapped.align, 0);
            assert_eq!(wrapped.align % align, 0);
            assert!(wrapped.align >= align);
            // Any base the backing allocator may return is aligned to
            // wrapped.align; the object pointer it implies is aligned as
            // requested.
            for k in 0usize..4 {
                let base = k * wrapped.align;
                assert_eq!((base + offset) % align, 0);
            }
        }
    }
}

/// Concrete wrapped layouts: the header occupies eight bytes, padded to the
/// requested alignment when that is stricter.
#[test]
fn wrapped_layout_concrete_values() {
    let (w, off) = try_get_wrapped_layout(AllocLayout { size: 5, align: 4 }).unwrap();
    assert_eq!((w.size, w.align, off), (16, 8, 8));
    let (w, off) = try_get_wrapped_layout(AllocLayout { size: 1, align: 32 }).unwrap();
    assert_eq!((w.size, w.align, off), (64, 32, 32));
    let (w, off) = try_get_wrapped_layout(AllocLayout { size: 0, align: 1 }).unwrap();
    assert_eq!((w.size, w.align, off), (8, 8, 8));
}

/// A request whose wrapped size cannot fit is refused rather than wrapped
/// around.
#[test]
fn oversized_layout_is_refused() {
    assert!(try_get_wrapped_layout(AllocLayout { size: usize::MAX, align: 1 }).is_none());
    assert!(try_get_wrapped_layout(AllocLayout { size: isize::MAX as usize, align: 8 }).is_none());
}

/// Allocation attribution round trip, with a recording "tracker": entering
/// group 7, allocating, and freeing yields exactly one allocated event for
/// group 7 and one deallocated event with source group 7.
#[test]
fn attribution_round_trip_records_one_pair() {
    let mut allocated_events: Vec<usize> = Vec::new();
    let mut deallocated_events: Vec<(usize, Option<usize>)> = Vec::new();

    // Allocation while group 7 is active, tracker registered, not suspended.
    let mut header: usize = UNATTRIBUTED;
    if let Some(group) = alloc_attribution(true, false, Some(7)) {
        header = group;
        allocated_events.push(group);
    }
    // Deallocation of that block while group 3 is active.
    if let Some((source, current)) = dealloc_attribution(true, false, Some(3), header) {
        deallocated_events.push((source, current));
    }

    assert_eq!(allocated_events, vec![7]);
    assert_eq!(deallocated_events, vec![(7, Some(3))]);
}

/// Unattributed allocation: with no active group the header keeps the
/// sentinel and nothing is ever reported for the block, with or without a
/// tracker.
#[test]
fn unattributed_allocation_reports_nothing() {
    for &tracker in &[false, true] {
        let attribution = alloc_attribution(tracker, false, None);
        assert_eq!(attribution, None);
        let header = attribution.unwrap_or(UNATTRIBUTED);
        assert_eq!(dealloc_attribution(tracker, false, Some(5), header), None);
    }
    // No tracker registered: nothing is reported even with a group active.
    assert_eq!(alloc_attribution(false, false, Some(2)), None);
    assert_eq!(dealloc_attribution(false, false, Some(2), 2), None);
}

/// Re-entrancy guard: while tracking is suspended (a tracker callback is
/// running), nested allocations are observed untracked, so a tracker that
/// allocates cannot recurse into itself.
#[test]
fn suspended_tracking_skips_attribution() {
    assert_eq!(alloc_attribution(true, true, Some(9)), None);
    assert_eq!(dealloc_attribution(true, true, Some(9), 9), None);

    // Simulate a tracker whose allocated callback allocates: the outer
    // allocation is attributed, the nested one (suspended) is not.
    let outer = alloc_attribution(true, false, Some(9));
    assert_eq!(outer, Some(9));
    let nested_inside_callback = alloc_attribution(true, true, Some(9));
    assert_eq!(nested_inside_callback, None);
}

/// The allocator wrapper hands back the backing allocator it was given.
#[test]
fn allocator_wraps_backing() {
    let alloc = Allocator::from_allocator(17u8);
    assert_eq!(*alloc.backing_allocator(), 17u8);
    let _system = Allocator::system();
}
