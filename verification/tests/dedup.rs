use gmail_tray_notifier::dedup::{DedupCache, DEDUP_CAPACITY};

#[test]
fn two_hundred_and_one_identifiers_leave_two_hundred() {
    let mut cache = DedupCache::new();
    for i in 0..201u64 {
        cache.mark_seen(&format!("id-{}", i), i);
    }
    assert_eq!(DEDUP_CAPACITY, 200);
    assert_eq!(cache.len(), 200);
    assert!(!cache.contains("id-0"));
    for i in 1..201u64 {
        assert!(cache.contains(&format!("id-{}", i)));
    }
}

#[test]
fn a_lookup_counts_as_a_use() {
    let mut cache = DedupCache::new();
    for i in 0..200u64 {
        cache.mark_seen(&format!("id-{}", i), i);
    }
    assert!(cache.is_known("id-0"));
    assert!(!cache.is_known("stranger"));
    cache.mark_seen("id-200", 200);
    assert_eq!(cache.len(), 200);
    assert!(cache.contains("id-0"));
    assert!(!cache.contains("id-1"));
    assert!(cache.contains("id-2"));
}

#[test]
fn contains_does_not_count_as_a_use() {
    let mut cache = DedupCache::new();
    for i in 0..200u64 {
        cache.mark_seen(&format!("id-{}", i), i);
    }
    assert!(cache.contains("id-0"));
    cache.mark_seen("id-200", 200);
    assert!(!cache.contains("id-0"));
}

#[test]
fn recording_again_refreshes_without_growing() {
    let mut cache = DedupCache::new();
    cache.mark_seen("a", 1);
    cache.mark_seen("b", 2);
    cache.mark_seen("a", 3);
    assert_eq!(cache.len(), 2);
    for i in 0..198u64 {
        cache.mark_seen(&format!("id-{}", i), i);
    }
    assert_eq!(cache.len(), 200);
    cache.mark_seen("one-more", 9);
    assert!(!cache.contains("b"));
    assert!(cache.contains("a"));
}

#[test]
fn forget_and_clear() {
    let mut cache = DedupCache::new();
    cache.mark_seen("a", 1);
    cache.mark_seen("b", 2);
    cache.forget("a");
    cache.forget("never-there");
    assert_eq!(cache.len(), 1);
    assert!(!cache.is_known("a"));
    assert!(cache.is_known("b"));
    cache.clear();
    assert_eq!(cache.len(), 0);
    assert!(!cache.is_known("b"));
}
