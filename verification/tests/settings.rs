//! Configuration assembly: defaults and the required callback URL.

use ip_notifier::config::{from_parts, ConfigError};

#[test]
fn missing_webhook_halts_startup() {
    let r = from_parts(None, None, None, Vec::new());
    assert_eq!(r.err(), Some(ConfigError::MissingWebhook));
}

#[test]
fn empty_webhook_halts_startup() {
    let r = from_parts(Some(String::new()), None, None, Vec::new());
    assert_eq!(r.err(), Some(ConfigError::MissingWebhook));
}

#[test]
fn absent_settings_take_documented_defaults() {
    let c = from_parts(Some("https://example.test/hook".to_string()), None, None, Vec::new())
        .unwrap();
    assert_eq!(c.webhook, "https://example.test/hook");
    assert_eq!(c.wait_seconds, 60);
    assert_eq!(c.ip_grab_url, "https://api.ipify.org");
    assert!(c.blacklist_words.is_empty());
}

#[test]
fn explicit_settings_are_kept_exactly() {
    let words = vec![Some("^10\\.".to_string()), None];
    let c = from_parts(
        Some("https://example.test/hook".to_string()),
        Some(5),
        Some("https://echo.example.test".to_string()),
        words.clone(),
    )
    .unwrap();
    assert_eq!(c.wait_seconds, 5);
    assert_eq!(c.ip_grab_url, "https://echo.example.test");
    assert_eq!(c.blacklist_words, words);
}
