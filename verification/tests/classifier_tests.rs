use cliptrack::classifier::{classify_kind, detect_content_type};
use cliptrack::types::ContentKind;

#[test]
fn url_beats_filepath_and_json() {
    // the URL predicate has higher priority than the path and JSON shapes
    assert_eq!(classify_kind("https://example.com/a.json"), ContentKind::Url);
    assert_eq!(detect_content_type("https://example.com/a.json"), "URL");
}

#[test]
fn http_and_ftp_prefixes() {
    assert_eq!(classify_kind("http://host/x"), ContentKind::Url);
    assert_eq!(classify_kind("ftp://host/x"), ContentKind::Ftp);
    assert_eq!(classify_kind("ftps://host/x"), ContentKind::Ftp);
}

#[test]
fn bracket_shape_is_json_even_when_invalid() {
    assert_eq!(classify_kind("{not valid json}"), ContentKind::Json);
    assert_eq!(classify_kind("  [1, 2, 3]  "), ContentKind::Json);
    assert_eq!(detect_content_type("{not valid json}"), "JSON");
}

#[test]
fn html_tags() {
    assert_eq!(classify_kind("xx <div class='a'> yy"), ContentKind::Html);
    assert_eq!(classify_kind("<!DOCTYPE html>"), ContentKind::Html);
}

#[test]
fn rtf_prefix() {
    // not brace-delimited, so the earlier JSON shape does not fire
    assert_eq!(classify_kind("{\\rtf1\\ansi hello"), ContentKind::Rtf);
    // a brace-delimited RTF payload hits the JSON shape first
    assert_eq!(classify_kind("{\\rtf1\\ansi hello}"), ContentKind::Json);
}

#[test]
fn file_path_shapes() {
    assert_eq!(classify_kind("/usr/bin/env"), ContentKind::FilePath);
    assert_eq!(classify_kind("~/notes.md"), ContentKind::FilePath);
    assert_eq!(classify_kind("see C:\\temp"), ContentKind::FilePath);
}

#[test]
fn email_needs_no_whitespace() {
    assert_eq!(classify_kind("user@example.com"), ContentKind::Email);
    assert_eq!(classify_kind("user@example.com extra"), ContentKind::Text);
}

#[test]
fn multiline_and_number_and_text() {
    assert_eq!(classify_kind("first\nsecond"), ContentKind::MultilineText);
    assert_eq!(classify_kind("+3.14-2"), ContentKind::Number);
    assert_eq!(classify_kind("just words"), ContentKind::Text);
}

#[test]
fn labels_are_reported_verbatim() {
    assert_eq!(detect_content_type("ftp://h"), "FTP");
    assert_eq!(detect_content_type("x <div>"), "HTML");
    assert_eq!(detect_content_type("{\\rtf1"), "RTF");
    assert_eq!(detect_content_type("/etc/hosts"), "File Path");
    assert_eq!(detect_content_type("a@b.c"), "Email");
    assert_eq!(detect_content_type("one\ntwo"), "Multiline Text");
    assert_eq!(detect_content_type("12.5"), "Number");
    assert_eq!(detect_content_type("plain words"), "Text");
}

#[test]
fn empty_text_counts_as_number() {
    // the digit rule is vacuously true of the empty text, and nothing
    // earlier in the chain fires
    assert_eq!(classify_kind(""), ContentKind::Number);
}

#[test]
fn classification_is_deterministic() {
    // identical input always yields an identical output
    for payload in ["https://a.b", "{x}", "plain", "a@b.c", "1\n2\n3"] {
        assert_eq!(classify_kind(payload), classify_kind(payload));
        assert_eq!(detect_content_type(payload), detect_content_type(payload));
    }
}
