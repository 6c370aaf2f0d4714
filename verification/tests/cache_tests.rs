use std::collections::HashSet;

use logfmt::ThreadColorCache;
use logfmt::style_of;

#[test]
fn empty_cache_has_no_assignments() {
    let cache = ThreadColorCache::new();
    assert_eq!(cache.len(), 0);
    assert_eq!(cache.lookup(7), None);
    assert_eq!(cache.index_of(7), None);
}

#[test]
fn first_sight_assigns_in_order() {
    let mut cache = ThreadColorCache::new();
    for id in 100u64..110 {
        let style = cache.style_for(id);
        assert_eq!(style, style_of(id - 100));
    }
    assert_eq!(cache.len(), 10);
    for id in 100u64..110 {
        assert_eq!(cache.index_of(id), Some(id - 100));
    }
}

#[test]
fn repeated_calls_return_identical_style() {
    let mut cache = ThreadColorCache::new();
    let first = cache.style_for(5);
    let other = cache.style_for(99);
    let again = cache.style_for(5);
    let once_more = cache.style_for(5);
    assert_eq!(first, again);
    assert_eq!(first, once_more);
    assert_ne!(first, other);
    assert_eq!(cache.len(), 2);
    assert_eq!(cache.lookup(5), Some(first));
}

#[test]
fn twenty_nine_identities_get_distinct_indices() {
    let mut cache = ThreadColorCache::new();
    for id in 0u64..29 {
        cache.style_for(id * 31 + 7);
    }
    assert_eq!(cache.len(), 29);
    let mut indices = HashSet::new();
    for id in 0u64..29 {
        let idx = cache.index_of(id * 31 + 7).unwrap();
        assert!(idx < 29);
        assert!(indices.insert(idx));
    }
    assert_eq!(indices.len(), 29);
    let thirtieth = cache.style_for(1000000);
    assert_eq!(cache.index_of(1000000), Some(29));
    assert_eq!(thirtieth, style_of(29));
    assert_eq!(thirtieth, style_of(1));
}
