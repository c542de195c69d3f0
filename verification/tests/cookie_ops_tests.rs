use edit_cookie_malaccamax::cookie_ops::{
    build_cookie_url, remove_by_name_details, remove_details, set_details, validate_cookie_fields,
    CookieDetails, CookieFieldError, FieldValue,
};
use edit_cookie_malaccamax::types::Cookie;

fn sample() -> Cookie {
    Cookie {
        name: "sid".into(),
        value: "1".into(),
        domain: ".example.com".into(),
        path: Some("/app".into()),
        expiration_date: Some(1700000000),
        http_only: true,
        secure: true,
        same_site: Some("lax".into()),
        store_id: Some("0".into()),
    }
}

fn keys(fields: &[(&'static str, FieldValue)]) -> Vec<&'static str> {
    fields.iter().map(|f| f.0).collect()
}

#[test]
fn cookie_urls() {
    assert_eq!(build_cookie_url(&sample()), "https://example.com/app");
    let mut c = sample();
    c.secure = false;
    c.path = None;
    c.domain = "..x.org".into();
    assert_eq!(build_cookie_url(&c), "http://.x.org/");
}

#[test]
fn field_limits() {
    assert_eq!(validate_cookie_fields(&sample()), Ok(()));
    let mut c = sample();
    c.name = "n".repeat(4097);
    assert_eq!(validate_cookie_fields(&c), Err(CookieFieldError::NameTooLong { len: 4097 }));
    c.name = "n".repeat(4096);
    c.value = "v".repeat(5000);
    assert_eq!(validate_cookie_fields(&c), Err(CookieFieldError::ValueTooLong { len: 5000 }));
    c.value = String::new();
    c.domain = "d".repeat(254);
    assert_eq!(validate_cookie_fields(&c), Err(CookieFieldError::DomainTooLong { len: 254 }));
    c.domain = "d".repeat(253);
    c.path = Some("/".repeat(1025));
    assert_eq!(validate_cookie_fields(&c), Err(CookieFieldError::PathTooLong { len: 1025 }));
    c.path = None;
    assert_eq!(validate_cookie_fields(&c), Ok(()));
    assert_eq!(
        CookieFieldError::NameTooLong { len: 4097 }.message(),
        "Cookie name too long (4097 bytes, max 4096)"
    );
    assert_eq!(
        CookieFieldError::ValueTooLong { len: 5000 }.message(),
        "Cookie value too long (5000 bytes, max 4096)"
    );
    assert_eq!(
        CookieFieldError::DomainTooLong { len: 254 }.message(),
        "Cookie domain too long (254 chars, max 253)"
    );
    assert_eq!(
        CookieFieldError::PathTooLong { len: 1025 }.message(),
        "Cookie path too long (1025 chars, max 1024)"
    );
}

#[test]
fn set_request_fields() {
    let d = set_details(&sample()).unwrap();
    assert_eq!(d.url, "https://example.com/app");
    let f = d.fields();
    assert_eq!(
        keys(&f),
        vec!["url", "name", "value", "domain", "path", "secure", "httpOnly", "expirationDate", "sameSite", "storeId"]
    );
    match &f[7].1 {
        FieldValue::Number(n) => assert_eq!(*n, 1700000000),
        _ => panic!("expiration is a number"),
    }
    let mut c = sample();
    c.domain = "example.com".into();
    c.same_site = Some("bogus".into());
    c.expiration_date = None;
    c.store_id = None;
    c.path = None;
    let f = set_details(&c).unwrap().fields();
    assert_eq!(keys(&f), vec!["url", "name", "value", "secure", "httpOnly"]);
    c.name = "x".repeat(5000);
    assert!(set_details(&c).is_err());
}

#[test]
fn query_and_remove_fields() {
    let q = CookieDetails::for_url("https://a.com/");
    assert_eq!(keys(&q.fields()), vec!["url"]);
    assert!(CookieDetails::default().fields().is_empty());
    let r = remove_details(&sample());
    assert_eq!(r.url, "https://example.com/app");
    assert_eq!(keys(&r.fields()), vec!["url", "name", "storeId"]);
    let r = remove_by_name_details("http://a.com/", "x");
    assert_eq!(r.url, "http://a.com/");
    assert_eq!(keys(&r.fields()), vec!["url", "name"]);
}
