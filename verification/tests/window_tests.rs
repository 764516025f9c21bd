use cliptrack::window::{
    validate_window_label, sanitize_window_label, generate_window_label, CreateWindowOptions,
};

#[test]
fn empty_label_is_rejected() {
    let r = validate_window_label("");
    assert_eq!(r.unwrap_err(), "Window label cannot be empty");
}

#[test]
fn long_label_is_rejected() {
    let r = validate_window_label(&"x".repeat(51));
    assert_eq!(r.unwrap_err(), "Window label too long (max 50 characters)");
    assert!(validate_window_label(&"x".repeat(50)).is_ok());
}

#[test]
fn invalid_characters_are_rejected() {
    let r = validate_window_label("bad/label");
    assert_eq!(
        r.unwrap_err(),
        "Window label can only contain alphanumeric characters, dashes, underscores, and spaces"
    );
    assert!(validate_window_label("My Window_2-ok").is_ok());
}

#[test]
fn sanitize_maps_and_trims() {
    assert_eq!(sanitize_window_label("My Window!"), "My-Window");
    assert_eq!(sanitize_window_label("  x  "), "x");
    assert_eq!(sanitize_window_label("---"), "");
    assert_eq!(sanitize_window_label("a_b-c"), "a_b-c");
}

#[test]
fn generated_labels_compose_counter_and_label() {
    assert_eq!(generate_window_label(3, "My App"), "window-cdc-3-My-App");
    assert_eq!(generate_window_label(4, ""), "window-cdc-4");
    assert_eq!(generate_window_label(5, "!!!"), "window-cdc-5");
}

#[test]
fn default_window_options() {
    let o = CreateWindowOptions::default();
    assert_eq!(o.label, "new-window");
    assert_eq!(o.title, "New Window");
    assert_eq!(o.url, "/");
    assert_eq!(o.width, Some(800));
    assert_eq!(o.height, Some(600));
    assert_eq!(o.visible, Some(true));
    assert_eq!(o.center, Some(true));
    assert!(o.x.is_none() && o.y.is_none());
}
