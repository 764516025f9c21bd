use std::cell::Cell;
use cliptrack::cache::FormatCache;
use cliptrack::types::ClipboardFormat;

fn one_record(tag: &str) -> Vec<ClipboardFormat> {
    vec![ClipboardFormat {
        format_name: tag.to_string(),
        format_type: "text/plain".to_string(),
        data_size: tag.len(),
        content_preview: tag.to_string(),
        is_available: true,
        raw_data: None,
    }]
}

#[test]
fn second_call_within_window_does_not_recompute() {
    let calls = Cell::new(0u32);
    let mut cache = FormatCache::new();

    let r1 = cache.get_or_compute(100, || {
        calls.set(calls.get() + 1);
        one_record("first")
    });
    assert_eq!(calls.get(), 1);
    assert_eq!(r1[0].format_name, "first");

    // within 5 simulated seconds: served from the cache
    let r2 = cache.get_or_compute(104, || {
        calls.set(calls.get() + 1);
        one_record("second")
    });
    assert_eq!(calls.get(), 1);
    assert_eq!(r2[0].format_name, "first");
}

#[test]
fn call_after_window_recomputes() {
    let calls = Cell::new(0u32);
    let mut cache = FormatCache::new();

    cache.get_or_compute(100, || {
        calls.set(calls.get() + 1);
        one_record("first")
    });
    // 5 or more seconds later: the slot is stale
    let r = cache.get_or_compute(105, || {
        calls.set(calls.get() + 1);
        one_record("second")
    });
    assert_eq!(calls.get(), 2);
    assert_eq!(r[0].format_name, "second");
}

#[test]
fn empty_cache_always_computes() {
    let calls = Cell::new(0u32);
    let mut cache = FormatCache::new();
    cache.get_or_compute(0, || {
        calls.set(calls.get() + 1);
        Vec::new()
    });
    assert_eq!(calls.get(), 1);
}

#[test]
fn returned_copy_does_not_alias_the_cache() {
    let mut cache = FormatCache::new();
    let mut r1 = cache.get_or_compute(10, || one_record("keep"));
    r1[0].format_name = "mutated".to_string();
    let r2 = cache.get_or_compute(11, || one_record("unused"));
    assert_eq!(r2[0].format_name, "keep");
}
