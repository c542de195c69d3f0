use edit_cookie_malaccamax::known_cookies::{lookup, lookup_prefix};
use edit_cookie_malaccamax::options::{age_type_for_unit, parse_max_age};
use edit_cookie_malaccamax::text::{decimal_string, str_eq};
use edit_cookie_malaccamax::theme::{next_theme, theme_classes, theme_icon, theme_label};

#[test]
fn known_cookie_lookup() {
    assert_eq!(lookup("NID"), Some("Google: unique browser/user ID for ads & preferences"));
    assert_eq!(lookup("HSID"), Some("Google: account session authentication"));
    assert_eq!(lookup("_csrf"), Some("CSRF: cross-site request forgery token"));
    assert_eq!(lookup("XSRF-TOKEN"), Some("CSRF: cross-site request forgery token"));
    assert_eq!(lookup("ASP.NET_SessionId"), Some("ASP.NET: server-side session identifier"));
    assert_eq!(lookup("nid"), None);
    assert_eq!(lookup(""), None);
}

#[test]
fn known_cookie_prefixes() {
    assert_eq!(lookup("_ga_ABC123"), Some("Google Analytics: measurement stream session"));
    assert_eq!(lookup("_ga"), Some("Google Analytics: unique visitor identifier"));
    assert_eq!(lookup("__Secure-3PSID"), Some("Google: secure cross-site authentication"));
    assert_eq!(lookup("_hjSessionUser_123"), Some("Hotjar: returning visitor identifier"));
    assert_eq!(lookup("_hjSession_123"), Some("Hotjar: active session data"));
    assert_eq!(lookup("ajs_user_id"), Some("Segment: identified user analytics ID"));
    assert_eq!(lookup("ajs_group_id"), Some("Segment: analytics event metadata"));
    assert_eq!(lookup_prefix("ajs_user_id"), Some("Segment: analytics event metadata"));
    assert_eq!(lookup_prefix("NID"), None);
    assert_eq!(lookup("BIGipServer~pool"), Some("F5 / ServiceNow: server-pool persistence"));
    assert_eq!(lookup("wordpress_logged_in_abc"), Some("WordPress: authenticated login state"));
}

#[test]
fn themes() {
    assert_eq!(next_theme("light"), "dark");
    assert_eq!(next_theme("dark"), "light");
    assert_eq!(next_theme("system"), "light");
    assert_eq!(next_theme(next_theme("dark")), "dark");
    assert_eq!(theme_label("dark"), "Dark");
    assert_eq!(theme_label("light"), "Light");
    assert_eq!(theme_icon("dark"), "fa-moon");
    assert_eq!(theme_icon("x"), "fa-sun");
    assert_eq!(theme_classes("dark"), ("dark-theme", "light-theme"));
    assert_eq!(theme_classes("light"), ("light-theme", "dark-theme"));
}

#[test]
fn max_age_input() {
    assert_eq!(parse_max_age("7"), Some(7));
    assert_eq!(parse_max_age("+12"), Some(12));
    assert_eq!(parse_max_age("007"), Some(7));
    assert_eq!(parse_max_age("18446744073709551615"), Some(u64::MAX));
    assert_eq!(parse_max_age("18446744073709551616"), None);
    assert_eq!(parse_max_age(""), None);
    assert_eq!(parse_max_age("+"), None);
    assert_eq!(parse_max_age("-1"), None);
    assert_eq!(parse_max_age("1.5"), None);
    assert_eq!(parse_max_age(" 1"), None);
    for s in ["0", "42", "+5", "", "+", "-3", "9x", "99999999999999999999"] {
        assert_eq!(parse_max_age(s), s.parse::<u64>().ok(), "{}", s);
    }
    assert_eq!(age_type_for_unit("days"), 0);
    assert_eq!(age_type_for_unit("hours"), 1);
}

#[test]
fn text_helpers() {
    assert!(str_eq("abc", "abc"));
    assert!(!str_eq("abc", "abd"));
    assert_eq!(decimal_string(0), "0");
    assert_eq!(decimal_string(1234567890), "1234567890");
    assert_eq!(decimal_string(u64::MAX), u64::MAX.to_string());
}

#[test]
fn extending_a_name_keeps_its_prefix_match() {
    for (name, ext) in [("_hjSession_", "User_1"), ("intercom-id-", "session-x"), ("wp-settings-", "time-1"), ("_ga_", "ABC")] {
        let base = lookup_prefix(name);
        assert!(base.is_some());
        assert_eq!(lookup_prefix(&format!("{}{}", name, ext)), base);
    }
}
