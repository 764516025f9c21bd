use cliptrack::features::Features;

#[test]
fn new_and_full_enable_everything() {
    for f in [Features::new(), Features::full(), Features::default()] {
        assert!(f.clipboard && f.notifications && f.deep_links && f.system_tray);
    }
}

#[test]
fn minimal_disables_everything() {
    let f = Features::minimal();
    assert!(!f.clipboard && !f.notifications && !f.deep_links && !f.system_tray);
}

#[test]
fn builders_flip_one_flag_each() {
    let f = Features::new().with_clipboard(false);
    assert!(!f.clipboard && f.notifications);
    let f = Features::minimal().with_notifications(true).with_deep_links(true);
    assert!(!f.clipboard && f.notifications && f.deep_links && !f.system_tray);
    let f = Features::minimal().with_system_tray(true);
    assert!(f.system_tray);
}
