use cliptrack::history::HistoryStore;
use cliptrack::types::{ClipboardHistoryItem, ContentKind};

fn text_item(content: &str) -> ClipboardHistoryItem {
    ClipboardHistoryItem {
        id: format!("id-{content}"),
        timestamp: "2024-01-01 00:00:00 UTC".to_string(),
        formats: Vec::new(),
        primary_content: content.to_string(),
        content_type: ContentKind::Text,
        plain_text: Some(content.to_string()),
        html_content: None,
        rtf_content: None,
        image_data: None,
        image_format: None,
        image_dimensions: None,
        file_paths: None,
        file_list: None,
        custom_formats: None,
    }
}

fn image_item(width: u32, height: u32) -> ClipboardHistoryItem {
    ClipboardHistoryItem {
        id: format!("img-{width}x{height}"),
        timestamp: "2024-01-01 00:00:00 UTC".to_string(),
        formats: Vec::new(),
        primary_content: format!("Image {width}x{height}"),
        content_type: ContentKind::Image,
        plain_text: None,
        html_content: None,
        rtf_content: None,
        image_data: Some("AAAA".to_string()),
        image_format: Some("png".to_string()),
        image_dimensions: Some((width, height)),
        file_paths: None,
        file_list: None,
        custom_formats: None,
    }
}

#[test]
fn appending_same_text_twice_keeps_length_one() {
    let mut store = HistoryStore::new();
    store.append(text_item("hello"));
    store.append(text_item("hello"));
    assert_eq!(store.len(), 1);
}

#[test]
fn fifty_one_distinct_appends_evict_the_oldest() {
    let mut store = HistoryStore::new();
    for i in 1..=51u32 {
        store.append(text_item(&format!("entry {i}")));
    }
    assert_eq!(store.len(), 50);
    let snap = store.snapshot();
    assert_eq!(snap[0].primary_content, "entry 51");
    assert_eq!(snap[49].primary_content, "entry 2");
    assert!(!snap.iter().any(|e| e.primary_content == "entry 1"));
}

#[test]
fn duplicates_do_not_refresh_recency() {
    let mut store = HistoryStore::new();
    store.append(text_item("first"));
    store.append(text_item("second"));
    store.append(text_item("first"));
    let snap = store.snapshot();
    assert_eq!(snap.len(), 2);
    assert_eq!(snap[0].primary_content, "second");
    assert_eq!(snap[1].primary_content, "first");
}

#[test]
fn image_entries_deduplicate_by_dimensions() {
    let mut store = HistoryStore::new();
    store.append(image_item(4, 4));
    store.append(image_item(4, 4));
    assert_eq!(store.len(), 1);
    store.append(image_item(8, 4));
    assert_eq!(store.len(), 2);
}

#[test]
fn text_matching_a_synthesized_image_primary_is_a_duplicate() {
    // text entries deduplicate against every entry's primary content,
    // including the synthesized one of an image entry
    let mut store = HistoryStore::new();
    store.append(image_item(4, 4));
    store.append(text_item("Image 4x4"));
    assert_eq!(store.len(), 1);
}

#[test]
fn clear_empties_the_store() {
    let mut store = HistoryStore::new();
    store.append(text_item("a"));
    store.append(text_item("b"));
    store.clear();
    assert_eq!(store.len(), 0);
    assert!(store.snapshot().is_empty());
}
