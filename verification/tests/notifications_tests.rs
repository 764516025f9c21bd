use cliptrack::notifications::{
    create_demo_options, create_success_options, create_error_options, create_info_options,
    notification_outcome,
};

#[test]
fn demo_options_are_fixed() {
    let o = create_demo_options();
    assert_eq!(o.title, "🚀 Tauri Notification Demo");
    assert_eq!(
        o.body.as_deref(),
        Some(
            "This is a demo notification from your Tauri + Next.js app! OS notifications are working perfectly."
        )
    );
    assert!(o.icon.is_none() && o.sound.is_none());
}

#[test]
fn success_error_info_defaults_and_overrides() {
    let o = create_success_options(None);
    assert_eq!(o.title, "✅ Success");
    assert_eq!(o.body.as_deref(), Some("Operation completed successfully!"));
    let o = create_success_options(Some("saved".to_string()));
    assert_eq!(o.body.as_deref(), Some("saved"));

    let o = create_error_options(None);
    assert_eq!(o.title, "❌ Error");
    assert_eq!(o.body.as_deref(), Some("An error occurred!"));

    let o = create_info_options(None);
    assert_eq!(o.title, "ℹ️ Information");
    assert_eq!(o.body.as_deref(), Some("Here's some information for you!"));
}

#[test]
fn outcome_without_permission() {
    let r = notification_outcome(false, None, "Hi");
    assert!(!r.success);
    assert!(!r.permission_granted);
    assert_eq!(r.message, "Notification permission not granted");
}

#[test]
fn outcome_on_success() {
    let r = notification_outcome(true, None, "Hi");
    assert!(r.success);
    assert!(r.permission_granted);
    assert_eq!(r.message, "Notification 'Hi' sent successfully");
}

#[test]
fn outcome_on_send_failure() {
    let r = notification_outcome(true, Some("no daemon"), "Hi");
    assert!(!r.success);
    assert!(r.permission_granted);
    assert_eq!(r.message, "Failed to send notification: no daemon");
}
