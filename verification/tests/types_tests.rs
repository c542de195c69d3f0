use edit_cookie_malaccamax::types::{
    default_domain_alpha, default_en, default_false, default_json, default_one,
    default_protected_cookies, default_system, default_true, Cookie, ExtensionStats, Filter,
    Preferences, ProtectToggle, ReadOnlyCookie, MAX_PROTECTED_COOKIES,
};

fn cookie(name: &str, domain: &str) -> Cookie {
    Cookie {
        name: name.to_string(),
        value: "v".to_string(),
        domain: domain.to_string(),
        path: Some("/".to_string()),
        expiration_date: None,
        http_only: false,
        secure: false,
        same_site: None,
        store_id: None,
    }
}

fn filter(domain_pattern: &str, name_pattern: Option<&str>) -> Filter {
    Filter {
        id: 1,
        domain_pattern: domain_pattern.to_string(),
        name_pattern: name_pattern.map(|s| s.to_string()),
        enabled: true,
    }
}

#[test]
fn extension_stats_default_roundtrip() {
    let s = ExtensionStats::default();
    assert_eq!(s.n_cookies_created, 0);
}

#[test]
fn extension_stats_default_all_zero() {
    let s = ExtensionStats::default();
    assert_eq!(
        [
            s.n_cookies_created,
            s.n_cookies_changed,
            s.n_cookies_deleted,
            s.n_cookies_protected,
            s.n_cookies_flagged,
            s.n_cookies_shortened,
            s.n_popup_clicked,
            s.n_panel_clicked,
            s.n_cookies_imported,
            s.n_cookies_exported
        ],
        [0; 10]
    );
}

#[test]
fn increment_named_counter_only() {
    let mut s = ExtensionStats::default();
    s.increment("protected");
    s.increment("protected");
    s.increment("exported");
    assert_eq!(s.n_cookies_protected, 2);
    assert_eq!(s.n_cookies_exported, 1);
    assert_eq!(s.n_cookies_created, 0);
    assert_eq!(s.n_popup_clicked, 0);
}

#[test]
fn increment_unknown_counter_changes_nothing() {
    let mut s = ExtensionStats::default();
    s.increment("bogus");
    s.increment("Created");
    assert_eq!(s.n_cookies_created, 0);
    assert_eq!(s.n_cookies_changed, 0);
}

#[test]
fn preferences_default_values() {
    let p = Preferences::default();
    assert!(!p.show_alerts);
    assert!(!p.show_commands_labels);
    assert!(p.show_domain);
    assert!(p.show_domain_before_name);
    assert!(!p.show_flag_and_delete_all);
    assert!(p.show_context_menu);
    assert!(!p.refresh_after_submit);
    assert!(p.skip_cache_refresh);
    assert!(!p.use_max_cookie_age);
    assert_eq!(p.max_cookie_age_type, 0);
    assert_eq!(p.max_cookie_age, 1);
    assert!(!p.use_custom_locale);
    assert_eq!(p.custom_locale, "en");
    assert_eq!(p.copy_cookies_type, "json");
    assert_eq!(p.sort_cookies_type, "domain_alpha");
    assert_eq!(p.theme, "light");
    assert!(p.protected_cookies.is_empty());
}

#[test]
fn default_helpers() {
    assert!(!default_false());
    assert!(default_true());
    assert_eq!(default_one(), 1);
    assert_eq!(default_en(), "en");
    assert_eq!(default_json(), "json");
    assert_eq!(default_domain_alpha(), "domain_alpha");
    assert_eq!(default_system(), "light");
    assert!(default_protected_cookies().is_empty());
}

#[test]
fn filter_exact_domain() {
    let f = filter("example.com", None);
    assert!(f.matches(&cookie("a", "example.com")));
    assert!(!f.matches(&cookie("a", ".example.com")));
    assert!(!f.matches(&cookie("a", "example.co")));
}

#[test]
fn filter_leading_star_is_suffix() {
    let f = filter("*example.com", None);
    assert!(f.matches(&cookie("a", "www.example.com")));
    assert!(f.matches(&cookie("a", "example.com")));
    assert!(!f.matches(&cookie("a", "example.org")));
}

#[test]
fn filter_trailing_star_is_prefix() {
    let f = filter("ads.*", None);
    assert!(f.matches(&cookie("a", "ads.tracker.net")));
    assert!(!f.matches(&cookie("a", "x.ads.tracker.net")));
}

#[test]
fn filter_lone_star_matches_everything() {
    let f = filter("*", Some("*"));
    assert!(f.matches(&cookie("anything", "any.where")));
    assert!(f.matches(&cookie("", "")));
}

#[test]
fn filter_name_pattern() {
    let f = filter("*", Some("_ga*"));
    assert!(f.matches(&cookie("_ga_XYZ", "a.com")));
    assert!(!f.matches(&cookie("ga", "a.com")));
    let g = filter("*", Some("*sid"));
    assert!(g.matches(&cookie("PHPSESSID".to_lowercase().as_str(), "a.com")));
    let h = filter("a.com", Some("token"));
    assert!(h.matches(&cookie("token", "a.com")));
    assert!(!h.matches(&cookie("tokens", "a.com")));
}

#[test]
fn filter_star_both_ends_uses_leading_star() {
    let f = filter("*mid*", None);
    assert!(f.matches(&cookie("a", "amid*")));
    assert!(!f.matches(&cookie("a", "amidst")));
}

#[test]
fn cookie_expiry_and_scope() {
    let mut c = cookie("a", "example.com");
    assert!(!c.is_expired_at(100));
    c.expiration_date = Some(99);
    assert!(c.is_expired_at(100));
    assert!(!c.is_expired_at(99));
    assert!(c.is_host_only());
    c.domain = ".example.com".to_string();
    assert!(!c.is_host_only());
}

#[test]
fn cookie_copy_and_same_as() {
    let c = cookie("a", "example.com");
    let d = c.copy();
    assert_eq!(c, d);
    assert!(c.same_as(&d));
    let mut e = d.copy();
    e.secure = true;
    assert!(!c.same_as(&e));
}

#[test]
fn set_bool_field_by_key() {
    let mut p = Preferences::default();
    p.set_bool_field("showAlerts", true);
    p.set_bool_field("showDomain", false);
    p.set_bool_field("useMaxCookieAge", true);
    p.set_bool_field("unknownKey", true);
    assert!(p.show_alerts);
    assert!(!p.show_domain);
    assert!(p.use_max_cookie_age);
    assert!(p.show_context_menu);
}

#[test]
fn set_string_field_by_key() {
    let mut p = Preferences::default();
    p.set_string_field("theme", "dark".to_string());
    p.set_string_field("sortCookiesType", "name_alpha".to_string());
    p.set_string_field("copyCookiesType", "netscape".to_string());
    p.set_string_field("customLocale", "fr".to_string());
    p.set_string_field("nope", "x".to_string());
    assert_eq!(p.theme, "dark");
    assert_eq!(p.sort_cookies_type, "name_alpha");
    assert_eq!(p.copy_cookies_type, "netscape");
    assert_eq!(p.custom_locale, "fr");
}

#[test]
fn toggle_protection_twice() {
    let mut p = Preferences::default();
    assert!(!p.is_protected("sid", "a.com"));
    assert_eq!(p.toggle_protected("sid", "a.com"), ProtectToggle::Protected);
    assert!(p.is_protected("sid", "a.com"));
    assert!(!p.is_protected("sid", "b.com"));
    assert_eq!(p.toggle_protected("sid", "a.com"), ProtectToggle::Unprotected);
    assert!(!p.is_protected("sid", "a.com"));
    assert!(p.protected_cookies.is_empty());
}

#[test]
fn unprotect_removes_duplicates() {
    let mut p = Preferences::default();
    for _ in 0..3 {
        p.protected_cookies.push(ReadOnlyCookie { name: "x".into(), domain: "d".into() });
    }
    p.protected_cookies.push(ReadOnlyCookie { name: "y".into(), domain: "d".into() });
    assert_eq!(p.toggle_protected("x", "d"), ProtectToggle::Unprotected);
    assert_eq!(p.protected_cookies.len(), 1);
    assert_eq!(p.protected_cookies[0].name, "y");
}

#[test]
fn protection_limit() {
    let mut p = Preferences::default();
    for i in 0..MAX_PROTECTED_COOKIES {
        p.protected_cookies.push(ReadOnlyCookie { name: format!("c{}", i), domain: "d".into() });
    }
    assert_eq!(p.toggle_protected("new", "d"), ProtectToggle::LimitReached);
    assert_eq!(p.protected_cookies.len(), MAX_PROTECTED_COOKIES);
    assert_eq!(p.toggle_protected("c5", "d"), ProtectToggle::Unprotected);
    assert_eq!(p.protected_cookies.len(), MAX_PROTECTED_COOKIES - 1);
}
