use alloc_stats::SystemWithStats;

#[test]
fn alloc_basics() {
    let mut sws = SystemWithStats::new();

    // Start with a blank slate.
    sws.reset();

    // Check current and max mem use.
    let initial_use_curr = sws.use_curr();
    let initial_use_max = sws.use_max();
    assert_eq!(initial_use_curr, initial_use_max);

    // Allocate 1B.
    sws.record_alloc(1);
    assert_eq!(sws.alloc_count(), 1);
    assert_eq!(sws.alloc_sum(), 1);
    assert_eq!(sws.alloc_avg(), Some(1));
    assert_eq!(sws.dealloc_count(), 0);
    assert_eq!(sws.dealloc_sum(), 0);
    assert_eq!(sws.use_curr(), initial_use_curr + 1);
    assert_eq!(sws.use_max(), initial_use_max + 1);

    // Allocate 4B.
    sws.record_alloc(4);
    assert_eq!(sws.alloc_count(), 2);
    assert_eq!(sws.alloc_sum(), 5);
    assert_eq!(sws.alloc_avg(), Some(2));
    assert_eq!(sws.dealloc_count(), 0);
    assert_eq!(sws.dealloc_sum(), 0);
    assert_eq!(sws.use_curr(), initial_use_curr + 5);
    assert_eq!(sws.use_max(), initial_use_max + 5);

    // Allocate 95B.
    sws.record_alloc(95);
    assert_eq!(sws.alloc_count(), 3);
    assert_eq!(sws.alloc_sum(), 100);
    assert_eq!(sws.alloc_avg(), Some(33));
    assert_eq!(sws.dealloc_count(), 0);
    assert_eq!(sws.dealloc_sum(), 0);
    assert_eq!(sws.use_curr(), initial_use_curr + 100);
    assert_eq!(sws.use_max(), initial_use_max + 100);

    // Register what is expected to be the max heap use.
    let use_max = sws.use_max();

    // Deallocate 1B.
    sws.record_dealloc(1);
    assert_eq!(sws.alloc_count(), 3);
    assert_eq!(sws.alloc_sum(), 100);
    assert_eq!(sws.dealloc_count(), 1);
    assert_eq!(sws.dealloc_sum(), 1);
    assert_eq!(sws.use_curr(), use_max - 1);
    assert_eq!(sws.use_max(), use_max);

    // Deallocate 4B.
    sws.record_dealloc(4);
    assert_eq!(sws.alloc_count(), 3);
    assert_eq!(sws.alloc_sum(), 100);
    assert_eq!(sws.dealloc_count(), 2);
    assert_eq!(sws.dealloc_sum(), 5);
    assert_eq!(sws.use_curr(), use_max - 5);
    assert_eq!(sws.use_max(), use_max);

    // Deallocate 95B.
    sws.record_dealloc(95);
    assert_eq!(sws.alloc_count(), 3);
    assert_eq!(sws.alloc_sum(), 100);
    assert_eq!(sws.dealloc_count(), 3);
    assert_eq!(sws.dealloc_sum(), 100);
    assert_eq!(sws.use_curr(), use_max - 100);
    assert_eq!(sws.use_max(), use_max);
}
