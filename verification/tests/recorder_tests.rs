use cliptrack::cache::FormatCache;
use cliptrack::history::HistoryStore;
use cliptrack::ids::generate_clipboard_id;
use cliptrack::recorder::record_capture;
use cliptrack::types::{ContentKind, RawImage};

#[test]
fn text_capture_records_one_classified_entry() {
    let mut store = HistoryStore::new();
    let mut cache = FormatCache::new();
    record_capture(&mut store, &mut cache, 0, Some("https://example.com"), None);
    let snap = store.snapshot();
    assert_eq!(snap.len(), 1);
    let e = &snap[0];
    assert_eq!(e.primary_content, "https://example.com");
    assert_eq!(e.content_type, ContentKind::Url);
    assert_eq!(e.plain_text.as_deref(), Some("https://example.com"));
    assert!(e.html_content.is_none());
    assert!(e.image_data.is_none());
    // the timestamp is the chrono rendering of the epoch second
    let expected_ts = chrono::DateTime::<chrono::Utc>::from_timestamp(0, 0)
        .unwrap()
        .format("%Y-%m-%d %H:%M:%S UTC")
        .to_string();
    assert_eq!(e.timestamp, expected_ts);
    assert_eq!(e.timestamp, "1970-01-01 00:00:00 UTC");
    assert_eq!(e.id, generate_clipboard_id("https://example.com", &expected_ts));
    assert!(e.formats.iter().any(|f| f.format_name == "URL"));
}

#[test]
fn empty_text_records_nothing() {
    let mut store = HistoryStore::new();
    let mut cache = FormatCache::new();
    record_capture(&mut store, &mut cache, 0, Some(""), None);
    record_capture(&mut store, &mut cache, 0, None, None);
    assert_eq!(store.len(), 0);
}

#[test]
fn image_capture_records_a_png_entry() {
    let mut store = HistoryStore::new();
    let mut cache = FormatCache::new();
    let img = RawImage { rgba: vec![7u8; 2 * 2 * 4], width: 2, height: 2 };
    record_capture(&mut store, &mut cache, 42, None, Some(&img));
    let snap = store.snapshot();
    assert_eq!(snap.len(), 1);
    let e = &snap[0];
    assert_eq!(e.content_type, ContentKind::Image);
    assert_eq!(e.primary_content, "Image 2x2");
    assert_eq!(e.image_format.as_deref(), Some("png"));
    assert_eq!(e.image_dimensions, Some((2, 2)));
    assert!(e.image_data.as_deref().map(|d| !d.is_empty()).unwrap_or(false));
    assert!(e.plain_text.is_none());
}

#[test]
fn invalid_image_is_skipped_but_text_still_lands() {
    let mut store = HistoryStore::new();
    let mut cache = FormatCache::new();
    let img = RawImage { rgba: vec![0u8; 5], width: 2, height: 2 };
    record_capture(&mut store, &mut cache, 0, Some("note"), Some(&img));
    let snap = store.snapshot();
    assert_eq!(snap.len(), 1);
    assert_eq!(snap[0].primary_content, "note");
}

#[test]
fn both_payloads_record_two_entries() {
    let mut store = HistoryStore::new();
    let mut cache = FormatCache::new();
    let img = RawImage { rgba: vec![1u8; 4], width: 1, height: 1 };
    record_capture(&mut store, &mut cache, 0, Some("note"), Some(&img));
    let snap = store.snapshot();
    assert_eq!(snap.len(), 2);
    // the text branch runs second, so its entry is at the front
    assert_eq!(snap[0].primary_content, "note");
    assert_eq!(snap[1].primary_content, "Image 1x1");
}

#[test]
fn repeated_capture_of_same_text_does_not_grow_history() {
    let mut store = HistoryStore::new();
    let mut cache = FormatCache::new();
    record_capture(&mut store, &mut cache, 0, Some("same"), None);
    record_capture(&mut store, &mut cache, 1, Some("same"), None);
    assert_eq!(store.len(), 1);
}

#[test]
fn file_list_capture_populates_file_fields() {
    let mut store = HistoryStore::new();
    let mut cache = FormatCache::new();
    let text = "/a/b.txt\n\n/c/d.txt";
    record_capture(&mut store, &mut cache, 0, Some(text), None);
    let snap = store.snapshot();
    let e = &snap[0];
    assert_eq!(e.file_list.as_deref(), Some(text));
    assert_eq!(
        e.file_paths.as_deref(),
        Some(&["/a/b.txt".to_string(), "/c/d.txt".to_string()][..])
    );
}
