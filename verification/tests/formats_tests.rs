use base64::Engine;
use cliptrack::formats::{enumerate_formats, enumerate_text_formats};
use cliptrack::types::RawImage;

fn names(records: &[cliptrack::types::ClipboardFormat]) -> Vec<String> {
    records.iter().map(|r| r.format_name.clone()).collect()
}

#[test]
fn non_empty_text_yields_at_least_three_records() {
    let records = enumerate_text_formats("hello");
    assert!(records.len() >= 3);
    let ns = names(&records);
    assert_eq!(ns[0], "Plain Text");
    assert_eq!(ns[1], "Unicode Text (UTF-8)");
    assert_eq!(ns[2], "Unicode Text (UTF-16LE)");
}

#[test]
fn empty_payload_yields_single_unavailable_sentinel() {
    let records = enumerate_formats(None, None);
    assert_eq!(records.len(), 1);
    assert_eq!(records[0].format_name, "Empty");
    assert_eq!(records[0].format_type, "empty");
    assert!(!records[0].is_available);
    assert!(records[0].raw_data.is_none());

    let records = enumerate_formats(Some(""), None);
    assert_eq!(records.len(), 1);
    assert!(!records[0].is_available);
}

#[test]
fn bracket_shape_without_valid_json_appends_no_json_record() {
    let records = enumerate_text_formats("{not valid json}");
    assert!(!names(&records).iter().any(|n| n == "JSON"));
}

#[test]
fn valid_json_appends_exactly_one_json_record() {
    let records = enumerate_text_formats("{\"a\": 1}");
    let count = names(&records).iter().filter(|n| *n == "JSON").count();
    assert_eq!(count, 1);
}

#[test]
fn url_text_appends_url_and_shortcut_records() {
    let ns = names(&enumerate_text_formats("https://example.com"));
    assert!(ns.iter().any(|n| n == "URL"));
    assert!(ns.iter().any(|n| n == "Internet Shortcut"));
}

#[test]
fn csv_record_counts_rows() {
    let records = enumerate_text_formats("a,b\nc,d\ne,f");
    let csv = records.iter().find(|r| r.format_name == "CSV").expect("CSV record");
    assert_eq!(csv.content_preview, "CSV with 3 rows");
    assert_eq!(csv.format_type, "text/csv");
}

#[test]
fn file_list_record_counts_files() {
    let records = enumerate_text_formats("/a/b.txt\n\n/c/d.txt");
    let drop = records.iter().find(|r| r.format_name == "File Drop List").expect("drop record");
    assert_eq!(drop.content_preview, "2 file(s)");
}

#[test]
fn base64_shape_record() {
    let ns = names(&enumerate_text_formats("QUJDREVGR0hJSktMTU5PUA=="));
    assert!(ns.iter().any(|n| n == "Base64 Encoded Data"));
    // too short, not a multiple of four, or bad characters: no record
    let ns = names(&enumerate_text_formats("QUJD"));
    assert!(!ns.iter().any(|n| n == "Base64 Encoded Data"));
}

#[test]
fn plain_preview_truncates_at_100_characters() {
    let long = "x".repeat(150);
    let records = enumerate_text_formats(&long);
    let preview = &records[0].content_preview;
    assert_eq!(preview.chars().count(), 103);
    assert!(preview.ends_with("..."));
    assert!(preview.starts_with(&"x".repeat(100)));

    let short = "short";
    let records = enumerate_text_formats(short);
    assert_eq!(records[0].content_preview, "short");
}

#[test]
fn sizes_and_payloads_match_the_encodings() {
    let records = enumerate_text_formats("hi");
    assert_eq!(records[0].data_size, 2); // UTF-8 bytes
    assert_eq!(records[1].data_size, 8); // chars * 4
    assert_eq!(records[2].data_size, 4); // UTF-16LE bytes
    let b64 = base64::engine::general_purpose::STANDARD;
    assert_eq!(records[0].raw_data.as_deref(), Some(b64.encode("hi").as_str()));
    let utf16: Vec<u8> = "hi".encode_utf16().flat_map(|u| u.to_le_bytes()).collect();
    assert_eq!(records[2].raw_data.as_deref(), Some(b64.encode(&utf16).as_str()));
}

#[test]
fn image_payload_yields_four_records_first() {
    let img = RawImage { rgba: vec![0u8; 16], width: 2, height: 2 };
    let records = enumerate_formats(Some("note"), Some(&img));
    let ns = names(&records);
    assert_eq!(ns[0], "Image (RGBA)");
    assert_eq!(ns[1], "Image (PNG)");
    assert_eq!(ns[2], "Image (JPEG)");
    assert_eq!(ns[3], "Image (Bitmap)");
    assert_eq!(records[0].content_preview, "2x2 pixels");
    assert_eq!(records[0].data_size, 16);
    assert_eq!(ns[4], "Plain Text");
    let b64 = base64::engine::general_purpose::STANDARD;
    assert_eq!(records[0].raw_data.as_deref(), Some(b64.encode(vec![0u8; 16]).as_str()));
}

#[test]
fn enumeration_is_deterministic() {
    let a = enumerate_text_formats("a,b\nc,d");
    let b = enumerate_text_formats("a,b\nc,d");
    assert_eq!(names(&a), names(&b));
    assert_eq!(
        a.iter().map(|r| r.content_preview.clone()).collect::<Vec<_>>(),
        b.iter().map(|r| r.content_preview.clone()).collect::<Vec<_>>()
    );
}
