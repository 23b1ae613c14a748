use file_preview::budget::{cache_sizes_for_memory, calculate_cache_sizes, worker_count};

#[test]
fn cache_sizes_fall_back_to_minimum_without_memory() {
    assert_eq!(cache_sizes_for_memory(0), (50, 25));
}

#[test]
fn cache_sizes_from_a_tenth_of_available_memory() {
    // 1 GiB: a tenth is 107374182 bytes, 291 thumbnails of 360 KiB.
    assert_eq!(cache_sizes_for_memory(1073741824), (291, 145));
}

#[test]
fn cache_sizes_are_capped() {
    assert_eq!(cache_sizes_for_memory(8589934592), (2000, 1000));
    assert_eq!(cache_sizes_for_memory(u64::MAX), (2000, 1000));
}

#[test]
fn calculated_cache_sizes_are_in_range() {
    let (preload, render) = calculate_cache_sizes();
    assert!((50..=2000).contains(&preload));
    assert_eq!(render, preload / 2);
}

#[test]
fn worker_count_is_clamped() {
    assert_eq!(worker_count(Some(1)), 2);
    assert_eq!(worker_count(Some(4)), 4);
    assert_eq!(worker_count(Some(32)), 6);
    assert_eq!(worker_count(None), 4);
}
