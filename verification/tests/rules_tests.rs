use edit_cookie_malaccamax::rules::{
    add_filter, add_read_only, is_read_only, protect_read_only, matches_filter, maybe_shorten, remove_filter,
    remove_read_only, toggle_filter, FilterError, MAX_FILTERS,
};
use edit_cookie_malaccamax::types::{Cookie, ExtensionStats, Filter, Preferences, ReadOnlyCookie};

fn cookie(name: &str, domain: &str, exp: Option<i64>) -> Cookie {
    Cookie {
        name: name.to_string(),
        value: "v".to_string(),
        domain: domain.to_string(),
        path: None,
        expiration_date: exp,
        http_only: false,
        secure: false,
        same_site: None,
        store_id: None,
    }
}

#[test]
fn disabled_filters_do_not_block() {
    let mut filters = Vec::new();
    add_filter(&mut filters, "*tracker.net".to_string(), None).unwrap();
    let c = cookie("id", "ads.tracker.net", None);
    assert!(matches_filter(&filters, &c));
    toggle_filter(&mut filters, 1);
    assert!(!filters[0].enabled);
    assert!(!matches_filter(&filters, &c));
    toggle_filter(&mut filters, 1);
    assert!(filters[0].enabled);
    assert!(matches_filter(&filters, &c));
    assert!(!matches_filter(&filters, &cookie("id", "example.com", None)));
}

#[test]
fn filter_ids_count_up_from_largest() {
    let mut filters = Vec::new();
    add_filter(&mut filters, "a".to_string(), None).unwrap();
    add_filter(&mut filters, "b".to_string(), Some("n".to_string())).unwrap();
    assert_eq!(filters[0].id, 1);
    assert_eq!(filters[1].id, 2);
    assert_eq!(filters[1].name_pattern.as_deref(), Some("n"));
    assert!(filters[1].enabled);
    remove_filter(&mut filters, 1);
    assert_eq!(filters.len(), 1);
    add_filter(&mut filters, "c".to_string(), None).unwrap();
    assert_eq!(filters[1].id, 3);
    filters.push(Filter { id: 40, domain_pattern: "d".into(), name_pattern: None, enabled: false });
    add_filter(&mut filters, "e".to_string(), None).unwrap();
    assert_eq!(filters[3].id, 41);
}

#[test]
fn remove_filter_drops_every_match() {
    let mut filters = vec![
        Filter { id: 7, domain_pattern: "a".into(), name_pattern: None, enabled: true },
        Filter { id: 8, domain_pattern: "b".into(), name_pattern: None, enabled: true },
        Filter { id: 7, domain_pattern: "c".into(), name_pattern: None, enabled: true },
    ];
    remove_filter(&mut filters, 7);
    assert_eq!(filters.len(), 1);
    assert_eq!(filters[0].domain_pattern, "b");
    remove_filter(&mut filters, 99);
    assert_eq!(filters.len(), 1);
}

#[test]
fn toggle_filter_switches_first_only() {
    let mut filters = vec![
        Filter { id: 7, domain_pattern: "a".into(), name_pattern: None, enabled: true },
        Filter { id: 7, domain_pattern: "b".into(), name_pattern: None, enabled: true },
    ];
    toggle_filter(&mut filters, 7);
    assert!(!filters[0].enabled);
    assert!(filters[1].enabled);
    toggle_filter(&mut filters, 3);
    assert!(!filters[0].enabled);
}

#[test]
fn add_filter_errors() {
    let mut filters = Vec::new();
    let long = "x".repeat(254);
    assert_eq!(
        add_filter(&mut filters, long.clone(), None),
        Err(FilterError::DomainPatternTooLong { len: 254 })
    );
    assert_eq!(
        add_filter(&mut filters, "ok".into(), Some("é".repeat(127))),
        Err(FilterError::NamePatternTooLong { len: 254 })
    );
    assert!(add_filter(&mut filters, "x".repeat(253), Some("y".repeat(253))).is_ok());
    assert_eq!(
        FilterError::DomainPatternTooLong { len: 254 }.message(),
        "Domain pattern too long (254 chars, max 253)"
    );
    assert_eq!(
        FilterError::NamePatternTooLong { len: 300 }.message(),
        "Name pattern too long (300 chars, max 253)"
    );
    let mut full: Vec<Filter> = Vec::new();
    for i in 0..MAX_FILTERS {
        full.push(Filter { id: i as u64, domain_pattern: "a".into(), name_pattern: None, enabled: true });
    }
    let e = add_filter(&mut full, "b".into(), None).unwrap_err();
    assert_eq!(e, FilterError::LimitReached { count: 100 });
    assert_eq!(e.message(), "Filter limit reached (100, max 100). Remove some before adding more.");
    assert_eq!(full.len(), MAX_FILTERS);
}

#[test]
fn read_only_by_list_or_preferences() {
    let mut ro = Vec::new();
    let mut prefs = Preferences::default();
    let c = cookie("sid", "a.com", None);
    assert!(!is_read_only(&ro, &prefs, &c));
    assert!(add_read_only(&mut ro, "sid".into(), "a.com".into()));
    assert!(!add_read_only(&mut ro, "sid".into(), "a.com".into()));
    assert_eq!(ro.len(), 1);
    assert!(is_read_only(&ro, &prefs, &c));
    remove_read_only(&mut ro, "sid", "a.com");
    assert!(ro.is_empty());
    assert!(!is_read_only(&ro, &prefs, &c));
    prefs.protected_cookies.push(ReadOnlyCookie { name: "sid".into(), domain: "a.com".into() });
    assert!(is_read_only(&ro, &prefs, &c));
    assert!(!is_read_only(&ro, &prefs, &cookie("sid", ".a.com", None)));
}

#[test]
fn shorten_caps_expiry_in_days_and_hours() {
    let mut prefs = Preferences::default();
    let c = cookie("a", "b", Some(10_000_000));
    assert!(maybe_shorten(&c, &prefs, 1_000).is_none());
    prefs.use_max_cookie_age = true;
    prefs.max_cookie_age = 2;
    let s = maybe_shorten(&c, &prefs, 1_000).unwrap();
    assert_eq!(s.expiration_date, Some(1_000 + 2 * 86_400));
    assert_eq!(s.name, "a");
    prefs.max_cookie_age_type = 1;
    let s = maybe_shorten(&c, &prefs, 1_000).unwrap();
    assert_eq!(s.expiration_date, Some(1_000 + 2 * 3_600));
    assert!(maybe_shorten(&cookie("a", "b", Some(1_000 + 7_200)), &prefs, 1_000).is_none());
    assert!(maybe_shorten(&cookie("a", "b", None), &prefs, 1_000).is_none());
    prefs.max_cookie_age = u64::MAX;
    assert!(maybe_shorten(&c, &prefs, 1_000).is_none());
}

#[test]
fn protecting_counts_each_new_entry_once() {
    let mut ro: Vec<ReadOnlyCookie> = Vec::new();
    let mut stats = ExtensionStats::default();
    assert!(protect_read_only(&mut ro, &mut stats, "sid".into(), "a.com".into()));
    assert_eq!(ro.len(), 1);
    assert_eq!(stats.n_cookies_protected, 1);
    assert!(!protect_read_only(&mut ro, &mut stats, "sid".into(), "a.com".into()));
    assert_eq!(ro.len(), 1);
    assert_eq!(stats.n_cookies_protected, 1);
    assert!(protect_read_only(&mut ro, &mut stats, "sid".into(), "b.com".into()));
    assert_eq!(stats.n_cookies_protected, 2);
    assert_eq!(stats.n_cookies_created, 0);
}
