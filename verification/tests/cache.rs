use greeter::cache::SingleCache;

#[test]
fn miss_computes_and_hit_reuses() {
    let mut cache: SingleCache<String, i32> = SingleCache::default();
    let key = "query".to_string();
    assert_eq!(*cache.get(&key, || 10), 10);
    // Same key: the closure must not run again.
    assert_eq!(*cache.get(&key, || panic!("recomputed on a hit")), 10);
    // New key: recomputed.
    let other = "other".to_string();
    assert_eq!(*cache.get(&other, || 20), 20);
}

#[test]
fn update_keeps_a_slot_that_was_read() {
    let mut cache: SingleCache<String, i32> = SingleCache::default();
    let key = "query".to_string();
    cache.get(&key, || 10);
    cache.update();
    // Read in the frame above, so the slot survives into this one.
    assert_eq!(*cache.get(&key, || panic!("recomputed on a hit")), 10);
}

#[test]
fn update_clears_a_slot_nobody_read() {
    let mut cache: SingleCache<String, i32> = SingleCache::default();
    let key = "query".to_string();
    cache.get(&key, || 10);
    cache.update();
    cache.update();
    // A whole frame passed without a lookup: the slot was invalidated.
    assert_eq!(*cache.get(&key, || 30), 30);
}
