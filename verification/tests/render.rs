//! Template rendering and the default template record.

use ip_notifier::template::{default_template, prepare_notification, render};

#[test]
fn render_substitutes_single_marker() {
    assert_eq!(render("IP has changed to #ip#", "1.2.3.4"), "IP has changed to 1.2.3.4");
}

#[test]
fn render_substitutes_every_marker() {
    assert_eq!(render("a#ip#b#ip#c", "X"), "aXbXc");
}

#[test]
fn render_without_marker_returns_template_unchanged() {
    assert_eq!(render("no marker here", "1.2.3.4"), "no marker here");
}

#[test]
fn render_with_empty_address_drops_marker() {
    assert_eq!(render("a#ip#b", ""), "ab");
}

#[test]
fn render_marker_only_template_becomes_address() {
    assert_eq!(render("#ip#", "5.6.7.8"), "5.6.7.8");
}

#[test]
fn render_does_not_rescan_substituted_text() {
    assert_eq!(render("a#ip#b", "=#ip#="), "a=#ip#=b");
}

#[test]
fn render_scans_left_to_right_without_overlap() {
    assert_eq!(render("##ip##", "X"), "#X#");
}

#[test]
fn render_agrees_with_plain_string_replacement() {
    for (t, a) in [
        ("IP has changed to #ip#", "9.9.9.9"),
        ("x#ip##ip#y", "ab"),
        ("#ip", ""),
        ("", "1.1.1.1"),
    ] {
        assert_eq!(render(t, a), t.replace("#ip#", a));
    }
}

#[test]
fn default_template_has_exact_content() {
    assert_eq!(
        default_template(),
        "{\"content\": \"IP has changed to #ip#\", \"username\": \"IP Notifier\"}"
    );
}

#[test]
fn notification_bodies_are_identical_for_identical_inputs() {
    let template = "{\"content\": \"IP has changed to #ip#\"}".to_string();
    let (t1, b1) = prepare_notification(Some(template.clone()), "4.4.4.4");
    let (t2, b2) = prepare_notification(Some(template.clone()), "4.4.4.4");
    assert_eq!(t1, template);
    assert_eq!(t2, template);
    assert_eq!(b1, b2);
    assert_eq!(b1, "{\"content\": \"IP has changed to 4.4.4.4\"}");
}

#[test]
fn notification_without_stored_template_creates_default() {
    let (t, b) = prepare_notification(None, "7.7.7.7");
    assert_eq!(t, default_template());
    assert_eq!(b, "{\"content\": \"IP has changed to 7.7.7.7\", \"username\": \"IP Notifier\"}");
}
