use edit_cookie_malaccamax::storage::{
    CustomDescriptions, DataStorage, DescriptionsError, PreferencesStorage,
    MAX_CUSTOM_DESCRIPTIONS,
};
use edit_cookie_malaccamax::types::Preferences;

#[test]
fn sanitize_replaces_unknown_values() {
    let mut p = Preferences::default();
    p.theme = "system".into();
    p.copy_cookies_type = "xml".into();
    p.sort_cookies_type = "random".into();
    p.custom_locale = "en-GB-oxendict".into();
    p.max_cookie_age = 99_999;
    let s = PreferencesStorage::sanitized(&p);
    assert_eq!(s.theme, "light");
    assert_eq!(s.copy_cookies_type, "json");
    assert_eq!(s.sort_cookies_type, "domain_alpha");
    assert_eq!(s.custom_locale, "en-GB-oxen");
    assert_eq!(s.max_cookie_age, 36_500);
}

#[test]
fn sanitize_keeps_valid_values() {
    let mut p = Preferences::default();
    p.theme = "dark".into();
    p.copy_cookies_type = "semicolon".into();
    p.sort_cookies_type = "expiration".into();
    p.custom_locale = "de".into();
    p.max_cookie_age = 36_500;
    p.show_alerts = true;
    let s = PreferencesStorage::sanitized(&p);
    assert_eq!(s.theme, "dark");
    assert_eq!(s.copy_cookies_type, "semicolon");
    assert_eq!(s.sort_cookies_type, "expiration");
    assert_eq!(s.custom_locale, "de");
    assert_eq!(s.max_cookie_age, 36_500);
    assert!(s.show_alerts);
    let again = PreferencesStorage::sanitized(&s);
    assert_eq!(again.custom_locale, s.custom_locale);
}

#[test]
fn sanitize_cuts_locale_at_char_boundary() {
    let mut p = Preferences::default();
    p.custom_locale = "ééééé-x".into();
    let s = PreferencesStorage::sanitized(&p);
    assert_eq!(s.custom_locale, "ééééé");
}

#[test]
fn data_storage_keys() {
    assert_eq!(DataStorage::filters_key(), "data_filters");
    assert_eq!(DataStorage::read_only_key(), "data_readOnly");
    assert_eq!(DataStorage::key("x"), "data_x");
}

#[test]
fn custom_description_overrides_builtin() {
    let mut d = CustomDescriptions::new();
    assert_eq!(
        d.resolve("_ga").as_deref(),
        Some("Google Analytics: unique visitor identifier")
    );
    d.set_description("_ga".into(), Some("mine".into()));
    assert_eq!(d.resolve("_ga").as_deref(), Some("mine"));
    assert!(d.contains("_ga"));
    d.set_description("_ga".into(), Some("mine again".into()));
    assert_eq!(d.len(), 1);
    assert_eq!(d.resolve("_ga").as_deref(), Some("mine again"));
    d.set_description("_ga".into(), None);
    assert!(!d.contains("_ga"));
    assert_eq!(
        d.resolve("_ga").as_deref(),
        Some("Google Analytics: unique visitor identifier")
    );
    assert_eq!(d.resolve("unknown_cookie"), None);
}

#[test]
fn description_pairs_round_trip() {
    let d = CustomDescriptions::from_pairs(vec![
        ("a".into(), "1".into()),
        ("b".into(), "2".into()),
        ("a".into(), "3".into()),
    ]);
    assert_eq!(d.len(), 2);
    assert_eq!(d.get("a").as_deref(), Some("3"));
    assert_eq!(d.get("b").as_deref(), Some("2"));
    let mut pairs = d.to_pairs();
    pairs.sort();
    assert_eq!(pairs, vec![("a".to_string(), "3".to_string()), ("b".to_string(), "2".to_string())]);
    let mut e = CustomDescriptions::from_pairs(pairs);
    e.remove("a");
    assert_eq!(e.get("a"), None);
    assert_eq!(e.len(), 1);
}

#[test]
fn description_limit() {
    let mut d = CustomDescriptions::new();
    for i in 0..MAX_CUSTOM_DESCRIPTIONS {
        d.insert(format!("c{}", i), "x".into());
    }
    assert_eq!(d.check_limit(), Ok(()));
    d.insert("one_more".into(), "x".into());
    let e = d.check_limit().unwrap_err();
    assert_eq!(e, DescriptionsError::LimitReached { count: 501 });
    assert_eq!(e.message(), "Custom descriptions limit reached (501, max 500)");
}
