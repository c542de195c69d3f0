use edit_cookie_malaccamax::popup::{
    delete_prompt, description_to_save, is_http_page, new_cookie_for_url, reset_available,
};
use edit_cookie_malaccamax::storage::CustomDescriptions;

#[test]
fn http_pages() {
    assert!(is_http_page("http://a.com/"));
    assert!(is_http_page("https://a.com"));
    assert!(!is_http_page("chrome://extensions"));
    assert!(!is_http_page("HTTP://a.com"));
    assert!(!is_http_page("ftp://a.com"));
}

#[test]
fn new_cookie_for_https_page() {
    let c = new_cookie_for_url("https://www.example.com/path?q=1").unwrap();
    assert_eq!(c.name, "new_cookie");
    assert_eq!(c.value, "");
    assert_eq!(c.domain, ".example.com");
    assert_eq!(c.path.as_deref(), Some("/"));
    assert!(c.secure);
    assert!(!c.http_only);
    assert_eq!(c.expiration_date, None);
    assert_eq!(c.same_site.as_deref(), Some("no_restriction"));
    assert_eq!(c.store_id, None);
    assert_eq!(c.list_key(), ".example.com::new_cookie");
}

#[test]
fn new_cookie_for_http_page() {
    let c = new_cookie_for_url("http://localhost:8080").unwrap();
    assert_eq!(c.domain, ".localhost:8080");
    assert!(!c.secure);
    assert_eq!(c.same_site.as_deref(), Some("lax"));
    let c = new_cookie_for_url("http://a:b://c/d").unwrap();
    assert_eq!(c.domain, ".a:b");
    let c = new_cookie_for_url("http://www.").unwrap();
    assert_eq!(c.domain, ".");
}

#[test]
fn no_cookie_without_host() {
    assert!(new_cookie_for_url("http:///x").is_none());
    assert!(new_cookie_for_url("https://").is_none());
    assert!(new_cookie_for_url("file:///tmp/a").is_none());
}

#[test]
fn saved_descriptions() {
    assert_eq!(description_to_save("  hello world \n").as_deref(), Some("hello world"));
    assert_eq!(description_to_save("   "), None);
    assert_eq!(description_to_save(""), None);
    assert_eq!(description_to_save("\u{3000}x\u{a0}").as_deref(), Some("x"));
    let long = "é".repeat(600);
    assert_eq!(description_to_save(&long), Some("é".repeat(500)));
    assert_eq!(description_to_save(" a b ").unwrap(), " a b ".trim());
}

#[test]
fn prompts_and_reset() {
    assert_eq!(delete_prompt("sid"), "Delete cookie \"sid\"?");
    let mut d = CustomDescriptions::new();
    assert!(!reset_available(&d, "_ga"));
    d.insert("_ga".into(), "mine".into());
    d.insert("custom_only".into(), "mine".into());
    assert!(reset_available(&d, "_ga"));
    assert!(!reset_available(&d, "custom_only"));
}
