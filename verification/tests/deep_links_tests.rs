use cliptrack::deep_links::{parse_deep_link_url, deep_link_outcome};

#[test]
fn https_url_is_decomposed() {
    let d = parse_deep_link_url("https://example.com/path/to?x=1&y=2").unwrap();
    assert_eq!(d.url, "https://example.com/path/to?x=1&y=2");
    assert_eq!(d.scheme, "https");
    assert_eq!(d.host, "example.com");
    assert_eq!(d.path, "/path/to");
    assert_eq!(d.query, "x=1&y=2");
}

#[test]
fn custom_scheme_url_is_decomposed() {
    let d = parse_deep_link_url("myapp://action/open").unwrap();
    assert_eq!(d.scheme, "myapp");
    assert_eq!(d.host, "action");
    assert_eq!(d.path, "/open");
    assert_eq!(d.query, "");
}

#[test]
fn invalid_url_is_rejected() {
    let r = parse_deep_link_url("not a url");
    assert_eq!(r.unwrap_err(), "Invalid URL format");
}

#[test]
fn outcome_reports_each_stage() {
    let r = deep_link_outcome("myapp://x", None, None);
    assert!(!r.success);
    assert_eq!(r.message, "Invalid URL format");
    assert!(r.data.is_none());

    let d = parse_deep_link_url("myapp://x").unwrap();
    let r = deep_link_outcome("myapp://x", Some(d.clone()), Some("emit failed".to_string()));
    assert!(!r.success);
    assert_eq!(r.message, "emit failed");
    assert!(r.data.is_some());

    let r = deep_link_outcome("myapp://x", Some(d), None);
    assert!(r.success);
    assert_eq!(r.message, "Deep link handled: myapp://x");
}
