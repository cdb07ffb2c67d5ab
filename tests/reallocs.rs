use alloc_stats::SystemWithStats;

#[test]
fn realloc_basics() {
    let mut sws = SystemWithStats::new();

    // Start with a blank slate.
    sws.reset();

    // Allocate a vector of capacity 7.
    sws.record_alloc(7);
    assert_eq!(sws.alloc_count(), 1);
    assert_eq!(sws.alloc_sum(), 7);
    assert_eq!(sws.realloc_growth_count(), 0);
    assert_eq!(sws.realloc_growth_sum(), 0);
    assert_eq!(sws.realloc_growth_avg(), None);
    assert_eq!(sws.realloc_shrink_count(), 0);
    assert_eq!(sws.realloc_shrink_sum(), 0);
    assert_eq!(sws.realloc_shrink_avg(), None);

    // Grow the vector to 13.
    sws.record_realloc(7, 13);
    assert_eq!(sws.alloc_count(), 2);
    assert_eq!(sws.alloc_sum(), 20);
    assert_eq!(sws.realloc_growth_count(), 1);
    assert_eq!(sws.realloc_growth_sum(), 6);
    assert_eq!(sws.realloc_growth_avg(), Some(6));
    assert_eq!(sws.realloc_shrink_count(), 0);
    assert_eq!(sws.realloc_shrink_sum(), 0);
    assert_eq!(sws.realloc_shrink_avg(), None);

    // Grow the vector again, to 23.
    sws.record_realloc(13, 23);
    assert_eq!(sws.alloc_count(), 3);
    assert_eq!(sws.alloc_sum(), 43);
    assert_eq!(sws.realloc_growth_count(), 2);
    assert_eq!(sws.realloc_growth_sum(), 16);
    assert_eq!(sws.realloc_growth_avg(), Some(8));
    assert_eq!(sws.realloc_shrink_count(), 0);
    assert_eq!(sws.realloc_shrink_sum(), 0);
    assert_eq!(sws.realloc_shrink_avg(), None);

    // Shrink the vector to 15.
    sws.record_realloc(23, 15);
    assert_eq!(sws.alloc_count(), 4);
    assert_eq!(sws.alloc_sum(), 58);
    assert_eq!(sws.realloc_growth_count(), 2);
    assert_eq!(sws.realloc_growth_sum(), 16);
    assert_eq!(sws.realloc_growth_avg(), Some(8));
    assert_eq!(sws.realloc_shrink_count(), 1);
    assert_eq!(sws.realloc_shrink_sum(), 8);
    assert_eq!(sws.realloc_shrink_avg(), Some(8));

    // Shrink the vector again, to 5.
    sws.record_realloc(15, 5);
    assert_eq!(sws.alloc_count(), 5);
    assert_eq!(sws.alloc_sum(), 63);
    assert_eq!(sws.realloc_growth_count(), 2);
    assert_eq!(sws.realloc_growth_sum(), 16);
    assert_eq!(sws.realloc_growth_avg(), Some(8));
    assert_eq!(sws.realloc_shrink_count(), 2);
    assert_eq!(sws.realloc_shrink_sum(), 18);
    assert_eq!(sws.realloc_shrink_avg(), Some(9));
}
