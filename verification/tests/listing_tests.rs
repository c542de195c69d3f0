use edit_cookie_malaccamax::listing::{
    cookie_matches_search, cookie_passes_attributes, lowered_matches_search, panel_cookies,
    shown_cookies, visible_cookies, CookieFilters,
};
use edit_cookie_malaccamax::types::Cookie;

fn c(name: &str, domain: &str, value: &str, exp: Option<i64>) -> Cookie {
    Cookie {
        name: name.to_string(),
        value: value.to_string(),
        domain: domain.to_string(),
        path: None,
        expiration_date: exp,
        http_only: false,
        secure: false,
        same_site: None,
        store_id: None,
    }
}

fn names(v: &[Cookie]) -> Vec<String> {
    v.iter().map(|c| c.name.clone()).collect()
}

#[test]
fn search_is_case_insensitive_over_name_domain_value() {
    let cookies = vec![
        c("SessionID", "a.com", "x", None),
        c("other", "Shop.EXAMPLE.com", "y", None),
        c("third", "b.com", "ZzSessionzz", None),
        c("none", "c.com", "q", None),
    ];
    let f = CookieFilters::default();
    assert_eq!(names(&shown_cookies(&cookies, "SESSION", &f)), vec!["SessionID", "third"]);
    assert_eq!(names(&shown_cookies(&cookies, "example", &f)), vec!["other"]);
    assert_eq!(shown_cookies(&cookies, "", &f).len(), 4);
    assert!(shown_cookies(&cookies, "nothing-matches", &f).is_empty());
    assert!(cookie_matches_search(&cookies[0], "sessionid"));
    assert!(!cookie_matches_search(&cookies[0], "SessionID"));
    assert!(lowered_matches_search("abc", "def", "ghi", ""));
    assert!(lowered_matches_search("abc", "def", "ghi", "hi"));
    assert!(!lowered_matches_search("abc", "def", "ghi", "cd"));
}

#[test]
fn attribute_filter_pairs() {
    let mut host = c("h", "a.com", "", None);
    host.secure = true;
    let mut dom = c("d", ".a.com", "", Some(5));
    dom.http_only = true;
    let both = CookieFilters { host_only: true, domain: true, ..CookieFilters::default() };
    let host_only = CookieFilters { host_only: true, ..CookieFilters::default() };
    let domain_only = CookieFilters { domain: true, ..CookieFilters::default() };
    assert!(cookie_passes_attributes(&both, &host) && cookie_passes_attributes(&both, &dom));
    assert!(cookie_passes_attributes(&host_only, &host));
    assert!(!cookie_passes_attributes(&host_only, &dom));
    assert!(!cookie_passes_attributes(&domain_only, &host));
    assert!(cookie_passes_attributes(&domain_only, &dom));
    let secure = CookieFilters { secure: true, ..CookieFilters::default() };
    assert!(cookie_passes_attributes(&secure, &host) && !cookie_passes_attributes(&secure, &dom));
    let http_only = CookieFilters { http_only: true, ..CookieFilters::default() };
    assert!(!cookie_passes_attributes(&http_only, &host) && cookie_passes_attributes(&http_only, &dom));
    let session = CookieFilters { session: true, ..CookieFilters::default() };
    assert!(cookie_passes_attributes(&session, &host) && !cookie_passes_attributes(&session, &dom));
    let persistent = CookieFilters { persistent: true, ..CookieFilters::default() };
    assert!(!cookie_passes_attributes(&persistent, &host) && cookie_passes_attributes(&persistent, &dom));
    let both_expiry = CookieFilters { session: true, persistent: true, ..CookieFilters::default() };
    assert!(cookie_passes_attributes(&both_expiry, &host) && cookie_passes_attributes(&both_expiry, &dom));
}

#[test]
fn popup_sorts_by_domain_then_name() {
    let cookies = vec![
        c("b", "z.com", "", None),
        c("b", "a.com", "", None),
        c("a", "a.com", "", None),
        c("c", "m.com", "", None),
    ];
    let r = visible_cookies(&cookies, "", &CookieFilters::default(), "domain_alpha", &None);
    let got: Vec<(String, String)> = r.iter().map(|c| (c.domain.clone(), c.name.clone())).collect();
    assert_eq!(
        got,
        vec![
            ("a.com".to_string(), "a".to_string()),
            ("a.com".to_string(), "b".to_string()),
            ("m.com".to_string(), "c".to_string()),
            ("z.com".to_string(), "b".to_string()),
        ]
    );
    let r = visible_cookies(&cookies, "", &CookieFilters::default(), "unknown", &None);
    assert_eq!(names(&r), vec!["a", "b", "c", "b"]);
}

#[test]
fn popup_sort_by_name_is_stable() {
    let cookies = vec![
        c("b", "1", "", None),
        c("a", "2", "", None),
        c("b", "3", "", None),
        c("A", "4", "", None),
    ];
    let r = visible_cookies(&cookies, "", &CookieFilters::default(), "name_alpha", &None);
    let doms: Vec<String> = r.iter().map(|c| c.domain.clone()).collect();
    assert_eq!(doms, vec!["4", "2", "1", "3"]);
}

#[test]
fn popup_sort_by_expiration_sessions_first() {
    let cookies = vec![
        c("late", "d", "", Some(300)),
        c("session1", "d", "", None),
        c("early", "d", "", Some(-5)),
        c("session2", "d", "", None),
    ];
    let r = visible_cookies(&cookies, "", &CookieFilters::default(), "expiration", &None);
    assert_eq!(names(&r), vec!["session1", "session2", "early", "late"]);
}

#[test]
fn pinned_cookie_comes_first() {
    let cookies = vec![
        c("a", "a.com", "", None),
        c("new_cookie", "z.com", "", None),
        c("b", "b.com", "", None),
    ];
    let pinned = Some("z.com::new_cookie".to_string());
    let r = visible_cookies(&cookies, "", &CookieFilters::default(), "domain_alpha", &pinned);
    assert_eq!(names(&r), vec!["new_cookie", "a", "b"]);
    assert_eq!(cookies[1].list_key(), "z.com::new_cookie");
    let r = visible_cookies(&cookies, "", &CookieFilters::default(), "domain_alpha", &Some("x::y".into()));
    assert_eq!(names(&r), vec!["a", "b", "new_cookie"]);
}

#[test]
fn string_order_is_code_point_order() {
    let cookies = vec![
        c("é", "d", "", None),
        c("z", "d", "", None),
        c("Z", "d", "", None),
        c("ab", "d", "", None),
        c("a", "d", "", None),
    ];
    let r = visible_cookies(&cookies, "", &CookieFilters::default(), "name_alpha", &None);
    let mut expected = names(&cookies);
    expected.sort();
    assert_eq!(names(&r), expected);
}

#[test]
fn panel_sorting() {
    let mut cookies = vec![
        c("b", "y.com", "", Some(10)),
        c("a", "x.com", "", None),
        c("c", "x.com", "", Some(5)),
    ];
    cookies[0].path = Some("/b".into());
    cookies[2].path = Some("/a".into());
    assert_eq!(names(&panel_cookies(&cookies, "domain", false)), vec!["a", "c", "b"]);
    assert_eq!(names(&panel_cookies(&cookies, "domain", true)), vec!["b", "a", "c"]);
    assert_eq!(names(&panel_cookies(&cookies, "name", true)), vec!["c", "b", "a"]);
    assert_eq!(names(&panel_cookies(&cookies, "path", false)), vec!["a", "c", "b"]);
    assert_eq!(names(&panel_cookies(&cookies, "expiration", false)), vec!["a", "c", "b"]);
    assert_eq!(names(&panel_cookies(&cookies, "expiration", true)), vec!["b", "c", "a"]);
    assert_eq!(names(&panel_cookies(&cookies, "other", true)), vec!["b", "a", "c"]);
}

#[test]
fn search_and_filters_combine_with_sort() {
    let mut s1 = c("token", "b.com", "", None);
    s1.secure = true;
    let mut s2 = c("token2", "a.com", "", None);
    s2.secure = true;
    let cookies = vec![s1, c("tok", "c.com", "", None), s2];
    let f = CookieFilters { secure: true, ..CookieFilters::default() };
    let r = visible_cookies(&cookies, "TOK", &f, "domain_alpha", &None);
    assert_eq!(names(&r), vec!["token2", "token"]);
}
