use cliptrack::ids::{generate_clipboard_id, generate_message_id};

#[test]
fn clipboard_ids_are_deterministic() {
    let a = generate_clipboard_id("content", "2024-01-01 00:00:00 UTC");
    let b = generate_clipboard_id("content", "2024-01-01 00:00:00 UTC");
    assert_eq!(a, b);
    assert!(a.starts_with("clip_"));
}

#[test]
fn clipboard_ids_depend_on_content_and_timestamp() {
    let base = generate_clipboard_id("content", "t1");
    assert_ne!(base, generate_clipboard_id("other", "t1"));
    assert_ne!(base, generate_clipboard_id("content", "t2"));
    // the field boundary matters
    assert_ne!(generate_clipboard_id("ab", "c"), generate_clipboard_id("a", "bc"));
}

#[test]
fn message_ids_compose_time_and_counter() {
    assert_eq!(generate_message_id(1234, 7), "msg_1234_7");
    assert_eq!(generate_message_id(0, 0), "msg_0_0");
    assert_eq!(generate_message_id(18446744073709551615, 1), "msg_18446744073709551615_1");
}
