use edit_cookie_malaccamax::background::{
    opens_editor, opens_welcome_page, plan_cookie_change, MonitorAction, MENU_ITEM_ID,
};
use edit_cookie_malaccamax::rules::add_filter;
use edit_cookie_malaccamax::types::{Cookie, Preferences, ReadOnlyCookie};

fn cookie(exp: Option<i64>) -> Cookie {
    Cookie {
        name: "sid".into(),
        value: "1".into(),
        domain: "a.com".into(),
        path: None,
        expiration_date: exp,
        http_only: false,
        secure: false,
        same_site: None,
        store_id: None,
    }
}

#[test]
fn removed_protected_cookie_is_restored() {
    let ro = vec![ReadOnlyCookie { name: "sid".into(), domain: "a.com".into() }];
    let prefs = Preferences::default();
    let plan = plan_cookie_change(&cookie(None), true, &Vec::new(), &ro, &prefs, 0);
    assert_eq!(plan.len(), 1);
    assert!(matches!(&plan[0], MonitorAction::Restore(c) if c.name == "sid"));
    let plan = plan_cookie_change(&cookie(None), true, &Vec::new(), &Vec::new(), &prefs, 0);
    assert!(plan.is_empty());
}

#[test]
fn blocked_cookie_is_removed_and_not_rewritten() {
    let mut filters = Vec::new();
    add_filter(&mut filters, "a.com".into(), Some("sid".into())).unwrap();
    let mut prefs = Preferences::default();
    prefs.use_max_cookie_age = true;
    prefs.max_cookie_age = 1;
    let plan = plan_cookie_change(&cookie(Some(1_000_000)), false, &filters, &Vec::new(), &prefs, 100);
    assert_eq!(plan.len(), 1);
    assert!(matches!(&plan[0], MonitorAction::Remove(c) if c.expiration_date == Some(1_000_000)));
}

#[test]
fn unblocked_cookie_over_the_age_limit_is_shortened() {
    let mut prefs = Preferences::default();
    prefs.use_max_cookie_age = true;
    prefs.max_cookie_age = 1;
    let plan = plan_cookie_change(&cookie(Some(1_000_000)), false, &Vec::new(), &Vec::new(), &prefs, 100);
    assert_eq!(plan.len(), 1);
    assert!(matches!(&plan[0], MonitorAction::Shorten(c) if c.expiration_date == Some(100 + 86_400)));
    let plan = plan_cookie_change(&cookie(Some(1_000)), false, &Vec::new(), &Vec::new(), &prefs, 100);
    assert!(plan.is_empty());
}

#[test]
fn written_protected_cookie_is_not_restored() {
    let ro = vec![ReadOnlyCookie { name: "sid".into(), domain: "a.com".into() }];
    let plan = plan_cookie_change(&cookie(None), false, &Vec::new(), &ro, &Preferences::default(), 0);
    assert!(plan.is_empty());
}

#[test]
fn menu_and_install_decisions() {
    assert!(opens_editor(MENU_ITEM_ID));
    assert!(opens_editor("edit_cookie_open_popup"));
    assert!(!opens_editor("other"));
    assert!(opens_welcome_page(&Some("install".into())));
    assert!(!opens_welcome_page(&Some("update".into())));
    assert!(!opens_welcome_page(&None));
}
