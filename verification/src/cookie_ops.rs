//! Requests to the browser's cookie store: the URL a cookie belongs to, the
//! limits on its fields, and the fields of the `get`, `set` and `remove`
//! requests.

use vstd::prelude::*;
use crate::rules::byte_len;
use crate::text::{chars_of, decimal, push_char, push_decimal, push_str, str_eq};
use crate::types::{Cookie, CookieView, clone_opt, is_host_only_domain, opt_view, starts_with_dot};

verus! {

/// The URL of a cookie: `https` for a secure cookie, `http` otherwise, the
/// domain without one leading dot, and the path (`/` where it has none).
pub open spec fn cookie_url(c: CookieView) -> Seq<char> {
    (if c.secure { "https"@ } else { "http"@ }) + "://"@ + (if c.domain.len() > 0 && c.domain[0] == '.' {
        c.domain.drop_first()
    } else {
        c.domain
    }) + (match c.path { Some(p) => p, None => "/"@ })
}

/// The URL of the cookie.
pub fn build_cookie_url(cookie: &Cookie) -> (r: String)
    ensures
        r@ == cookie_url(cookie@),
{
    let mut r = String::new();
    if cookie.secure {
        push_str(&mut r, "https");
    } else {
        push_str(&mut r, "http");
    }
    push_str(&mut r, "://");
    let d = chars_of(cookie.domain.as_str());
    let mut i: usize = if starts_with_dot(d.as_slice()) {
        1
    } else {
        0
    };
    let ghost start = i;
    let ghost head = r@;
    while i < d.len()
        invariant
            start <= i <= d.len(),
            d@ == cookie.domain@,
            r@ == head + d@.subrange(start as int, i as int),
        decreases d.len() - i,
    {
        push_char(&mut r, d[i]);
        assert(d@.subrange(start as int, i + 1) =~= d@.subrange(start as int, i as int).push(d@[i as int]));
        i = i + 1;
    }
    match &cookie.path {
        Some(p) => push_str(&mut r, p.as_str()),
        None => push_str(&mut r, "/"),
    }
    assert(r@ =~= cookie_url(cookie@));
    r
}

/// The longest cookie name, in bytes.
pub const MAX_COOKIE_NAME_LEN: usize = 4096;
/// The longest cookie value, in bytes.
pub const MAX_COOKIE_VALUE_LEN: usize = 4096;
/// The longest cookie domain, in bytes.
pub const MAX_COOKIE_DOMAIN_LEN: usize = 253;
/// The longest cookie path, in bytes.
pub const MAX_COOKIE_PATH_LEN: usize = 1024;

/// A field of a cookie that is too long to be written.
#[derive(Clone, Copy, Debug, PartialEq, Eq, Structural)]
pub enum CookieFieldError {
    NameTooLong { len: usize },
    ValueTooLong { len: usize },
    DomainTooLong { len: usize },
    PathTooLong { len: usize },
}

/// The first field of the cookie, in the order name, value, domain, path,
/// that is over its limit.
pub open spec fn field_error(c: CookieView) -> Option<CookieFieldError> {
    if byte_len(c.name) > MAX_COOKIE_NAME_LEN {
        Some(CookieFieldError::NameTooLong { len: byte_len(c.name) })
    } else if byte_len(c.value) > MAX_COOKIE_VALUE_LEN {
        Some(CookieFieldError::ValueTooLong { len: byte_len(c.value) })
    } else if byte_len(c.domain) > MAX_COOKIE_DOMAIN_LEN {
        Some(CookieFieldError::DomainTooLong { len: byte_len(c.domain) })
    } else if c.path matches Some(p) && byte_len(p) > MAX_COOKIE_PATH_LEN {
        Some(CookieFieldError::PathTooLong { len: byte_len(c.path->0) })
    } else {
        None
    }
}

/// Checks the lengths of the cookie's fields.
pub fn validate_cookie_fields(cookie: &Cookie) -> (r: Result<(), CookieFieldError>)
    ensures
        match field_error(cookie@) {
            Some(e) => r == Err::<(), CookieFieldError>(e),
            None => r is Ok,
        },
{
    let n = cookie.name.as_str().len();
    if n > MAX_COOKIE_NAME_LEN {
        return Err(CookieFieldError::NameTooLong { len: n });
    }
    let v = cookie.value.as_str().len();
    if v > MAX_COOKIE_VALUE_LEN {
        return Err(CookieFieldError::ValueTooLong { len: v });
    }
    let d = cookie.domain.as_str().len();
    if d > MAX_COOKIE_DOMAIN_LEN {
        return Err(CookieFieldError::DomainTooLong { len: d });
    }
    match &cookie.path {
        Some(p) => {
            let l = p.as_str().len();
            if l > MAX_COOKIE_PATH_LEN {
                return Err(CookieFieldError::PathTooLong { len: l });
            }
        },
        None => {},
    }
    Ok(())
}

/// The message of an error: what is too long, its length, and the limit.
pub open spec fn field_error_message(e: CookieFieldError) -> Seq<char> {
    match e {
        CookieFieldError::NameTooLong { len } => "Cookie name too long ("@ + decimal(len as nat)
            + " bytes, max "@ + decimal(MAX_COOKIE_NAME_LEN as nat) + ")"@,
        CookieFieldError::ValueTooLong { len } => "Cookie value too long ("@ + decimal(len as nat)
            + " bytes, max "@ + decimal(MAX_COOKIE_VALUE_LEN as nat) + ")"@,
        CookieFieldError::DomainTooLong { len } => "Cookie domain too long ("@ + decimal(len as nat)
            + " chars, max "@ + decimal(MAX_COOKIE_DOMAIN_LEN as nat) + ")"@,
        CookieFieldError::PathTooLong { len } => "Cookie path too long ("@ + decimal(len as nat)
            + " chars, max "@ + decimal(MAX_COOKIE_PATH_LEN as nat) + ")"@,
    }
}

impl CookieFieldError {
    /// The error's message.
    pub fn message(&self) -> (r: String)
        ensures
            r@ == field_error_message(*self),
    {
        let mut r = String::new();
        let (what, len, unit, max): (&str, usize, &str, usize) = match self {
            CookieFieldError::NameTooLong { len } => ("Cookie name too long (", *len, " bytes, max ", MAX_COOKIE_NAME_LEN),
            CookieFieldError::ValueTooLong { len } => ("Cookie value too long (", *len, " bytes, max ", MAX_COOKIE_VALUE_LEN),
            CookieFieldError::DomainTooLong { len } => ("Cookie domain too long (", *len, " chars, max ", MAX_COOKIE_DOMAIN_LEN),
            CookieFieldError::PathTooLong { len } => ("Cookie path too long (", *len, " chars, max ", MAX_COOKIE_PATH_LEN),
        };
        push_str(&mut r, what);
        push_decimal(&mut r, len as u64);
        push_str(&mut r, unit);
        push_decimal(&mut r, max as u64);
        push_str(&mut r, ")");
        assert(r@ =~= field_error_message(*self));
        r
    }
}

/// A value of a request field.
#[derive(Clone, Debug)]
pub enum FieldValue {
    Text(String),
    Flag(bool),
    Number(i64),
}

/// The contents of a [`FieldValue`].
pub enum FieldValueView {
    Text(Seq<char>),
    Flag(bool),
    Number(i64),
}

impl View for FieldValue {
    type V = FieldValueView;

    open spec fn view(&self) -> FieldValueView {
        match self {
            FieldValue::Text(s) => FieldValueView::Text(s@),
            FieldValue::Flag(b) => FieldValueView::Flag(*b),
            FieldValue::Number(n) => FieldValueView::Number(*n),
        }
    }
}

/// The (key, value) fields of a request.
pub open spec fn fields_view(v: Seq<(&'static str, FieldValue)>) -> Seq<(Seq<char>, FieldValueView)> {
    v.map_values(|f: (&'static str, FieldValue)| (f.0@, f.1@))
}

/// The field `key` with a text value, where there is one.
pub open spec fn opt_text_field(key: Seq<char>, o: Option<Seq<char>>) -> Seq<(Seq<char>, FieldValueView)> {
    match o {
        Some(s) => seq![(key, FieldValueView::Text(s))],
        None => Seq::empty(),
    }
}

/// The field `key` with a flag value, where there is one.
pub open spec fn opt_flag_field(key: Seq<char>, o: Option<bool>) -> Seq<(Seq<char>, FieldValueView)> {
    match o {
        Some(b) => seq![(key, FieldValueView::Flag(b))],
        None => Seq::empty(),
    }
}

fn push_text(out: &mut Vec<(&'static str, FieldValue)>, key: &'static str, o: &Option<String>)
    ensures
        fields_view(final(out)@) == fields_view(old(out)@) + opt_text_field(key@, opt_view(*o)),
{
    match o {
        Some(s) => {
            out.push((key, FieldValue::Text(s.clone())));
        },
        None => {},
    }
    assert(fields_view(out@) =~= fields_view(old(out)@) + opt_text_field(key@, opt_view(*o)));
}

fn push_flag(out: &mut Vec<(&'static str, FieldValue)>, key: &'static str, o: Option<bool>)
    ensures
        fields_view(final(out)@) == fields_view(old(out)@) + opt_flag_field(key@, o),
{
    match o {
        Some(b) => {
            out.push((key, FieldValue::Flag(b)));
        },
        None => {},
    }
    assert(fields_view(out@) =~= fields_view(old(out)@) + opt_flag_field(key@, o));
}

/// A query of the cookie store: only the fields that are set are sent.
#[derive(Clone, Debug)]
pub struct CookieDetails {
    pub url: Option<String>,
    pub name: Option<String>,
    pub domain: Option<String>,
    pub path: Option<String>,
    pub secure: Option<bool>,
    pub session: Option<bool>,
    pub store_id: Option<String>,
}

impl Default for CookieDetails {
    fn default() -> (r: CookieDetails)
        ensures
            r.url is None && r.name is None && r.domain is None && r.path is None && r.secure is None
                && r.session is None && r.store_id is None,
    {
        CookieDetails { url: None, name: None, domain: None, path: None, secure: None, session: None, store_id: None }
    }
}

impl CookieDetails {
    /// The query of all cookies of the page at `url`.
    pub fn for_url(url: &str) -> (r: CookieDetails)
        ensures
            opt_view(r.url) == Some(url@),
            r.name is None && r.domain is None && r.path is None && r.secure is None && r.session is None
                && r.store_id is None,
    {
        CookieDetails { url: Some(String::from_str(url)), ..CookieDetails::default() }
    }

    /// The fields of the query object, in the order `url`, `name`, `domain`,
    /// `path`, `secure`, `session`, `storeId`, each one that is set.
    pub fn fields(&self) -> (r: Vec<(&'static str, FieldValue)>)
        ensures
            fields_view(r@) == opt_text_field("url"@, opt_view(self.url)) + opt_text_field("name"@, opt_view(self.name))
                + opt_text_field("domain"@, opt_view(self.domain)) + opt_text_field("path"@, opt_view(self.path))
                + opt_flag_field("secure"@, self.secure) + opt_flag_field("session"@, self.session)
                + opt_text_field("storeId"@, opt_view(self.store_id)),
    {
        let mut r: Vec<(&'static str, FieldValue)> = Vec::new();
        assert(fields_view(r@) =~= Seq::<(Seq<char>, FieldValueView)>::empty());
        push_text(&mut r, "url", &self.url);
        push_text(&mut r, "name", &self.name);
        push_text(&mut r, "domain", &self.domain);
        push_text(&mut r, "path", &self.path);
        push_flag(&mut r, "secure", self.secure);
        push_flag(&mut r, "session", self.session);
        push_text(&mut r, "storeId", &self.store_id);
        r
    }
}

/// The `sameSite` values that the cookie store accepts.
pub open spec fn valid_same_site(s: Seq<char>) -> bool {
    s == "no_restriction"@ || s == "lax"@ || s == "strict"@ || s == "unspecified"@
}

/// A request to write a cookie.
#[derive(Clone, Debug)]
pub struct SetCookieDetails {
    pub url: String,
    pub name: String,
    pub value: String,
    pub domain: Option<String>,
    pub path: Option<String>,
    pub secure: Option<bool>,
    pub http_only: Option<bool>,
    pub expiration_date: Option<i64>,
    pub same_site: Option<String>,
    pub store_id: Option<String>,
}

/// The domain field of a write: only a domain that starts with a dot is sent;
/// for a host-only cookie the store takes the host from the URL.
pub open spec fn sent_domain(d: Option<Seq<char>>) -> Option<Seq<char>> {
    match d {
        Some(s) => if !is_host_only_domain(s) { Some(s) } else { None },
        None => None,
    }
}

/// The `sameSite` field of a write: only an accepted value is sent.
pub open spec fn sent_same_site(s: Option<Seq<char>>) -> Option<Seq<char>> {
    match s {
        Some(v) => if valid_same_site(v) { Some(v) } else { None },
        None => None,
    }
}

/// The field `expirationDate`, where there is one.
pub open spec fn opt_number_field(key: Seq<char>, o: Option<i64>) -> Seq<(Seq<char>, FieldValueView)> {
    match o {
        Some(n) => seq![(key, FieldValueView::Number(n))],
        None => Seq::empty(),
    }
}

impl SetCookieDetails {
    /// The fields of the write request, in the order `url`, `name`, `value`,
    /// `domain`, `path`, `secure`, `httpOnly`, `expirationDate`, `sameSite`,
    /// `storeId`; a host-only domain and an unknown `sameSite` are left out.
    pub fn fields(&self) -> (r: Vec<(&'static str, FieldValue)>)
        ensures
            fields_view(r@) == seq![
                ("url"@, FieldValueView::Text(self.url@)),
                ("name"@, FieldValueView::Text(self.name@)),
                ("value"@, FieldValueView::Text(self.value@)),
            ] + opt_text_field("domain"@, sent_domain(opt_view(self.domain))) + opt_text_field(
                "path"@,
                opt_view(self.path),
            ) + opt_flag_field("secure"@, self.secure) + opt_flag_field("httpOnly"@, self.http_only)
                + opt_number_field("expirationDate"@, self.expiration_date) + opt_text_field(
                "sameSite"@,
                sent_same_site(opt_view(self.same_site)),
            ) + opt_text_field("storeId"@, opt_view(self.store_id)),
    {
        let mut r: Vec<(&'static str, FieldValue)> = Vec::new();
        r.push(("url", FieldValue::Text(self.url.clone())));
        r.push(("name", FieldValue::Text(self.name.clone())));
        r.push(("value", FieldValue::Text(self.value.clone())));
        let ghost head = fields_view(r@);
        assert(head =~= seq![
            ("url"@, FieldValueView::Text(self.url@)),
            ("name"@, FieldValueView::Text(self.name@)),
            ("value"@, FieldValueView::Text(self.value@)),
        ]);
        let domain = match &self.domain {
            Some(d) => {
                let c = chars_of(d.as_str());
                if starts_with_dot(c.as_slice()) {
                    Some(d.clone())
                } else {
                    None
                }
            },
            None => None,
        };
        push_text(&mut r, "domain", &domain);
        push_text(&mut r, "path", &self.path);
        push_flag(&mut r, "secure", self.secure);
        push_flag(&mut r, "httpOnly", self.http_only);
        match self.expiration_date {
            Some(e) => {
                r.push(("expirationDate", FieldValue::Number(e)));
            },
            None => {},
        }
        let same_site = match &self.same_site {
            Some(s) => {
                if str_eq(s.as_str(), "no_restriction") || str_eq(s.as_str(), "lax") || str_eq(s.as_str(), "strict")
                    || str_eq(s.as_str(), "unspecified") {
                    Some(s.clone())
                } else {
                    None
                }
            },
            None => None,
        };
        push_text(&mut r, "sameSite", &same_site);
        push_text(&mut r, "storeId", &self.store_id);
        r
    }
}

/// The request that writes `cookie`, where its fields are within their
/// limits: the cookie's URL, and every field of the cookie.
pub fn set_details(cookie: &Cookie) -> (r: Result<SetCookieDetails, CookieFieldError>)
    ensures
        match field_error(cookie@) {
            Some(e) => r == Err::<SetCookieDetails, CookieFieldError>(e),
            None => r matches Ok(d) && d.url@ == cookie_url(cookie@) && d.name@ == cookie.name@
                && d.value@ == cookie.value@ && opt_view(d.domain) == Some(cookie.domain@)
                && opt_view(d.path) == opt_view(cookie.path) && d.secure == Some(cookie.secure)
                && d.http_only == Some(cookie.http_only) && d.expiration_date == cookie.expiration_date
                && opt_view(d.same_site) == opt_view(cookie.same_site) && opt_view(d.store_id) == opt_view(
                cookie.store_id,
            ),
        },
{
    match validate_cookie_fields(cookie) {
        Err(e) => Err(e),
        Ok(()) => Ok(
            SetCookieDetails {
                url: build_cookie_url(cookie),
                name: cookie.name.clone(),
                value: cookie.value.clone(),
                domain: Some(cookie.domain.clone()),
                path: clone_opt(&cookie.path),
                secure: Some(cookie.secure),
                http_only: Some(cookie.http_only),
                expiration_date: cookie.expiration_date,
                same_site: clone_opt(&cookie.same_site),
                store_id: clone_opt(&cookie.store_id),
            },
        ),
    }
}

/// A request to remove a cookie.
#[derive(Clone, Debug)]
pub struct RemoveCookieDetails {
    pub url: String,
    pub name: String,
    pub store_id: Option<String>,
}

impl RemoveCookieDetails {
    /// The fields of the removal request: `url`, `name`, and `storeId` where
    /// it is set.
    pub fn fields(&self) -> (r: Vec<(&'static str, FieldValue)>)
        ensures
            fields_view(r@) == seq![
                ("url"@, FieldValueView::Text(self.url@)),
                ("name"@, FieldValueView::Text(self.name@)),
            ] + opt_text_field("storeId"@, opt_view(self.store_id)),
    {
        let mut r: Vec<(&'static str, FieldValue)> = Vec::new();
        r.push(("url", FieldValue::Text(self.url.clone())));
        r.push(("name", FieldValue::Text(self.name.clone())));
        assert(fields_view(r@) =~= seq![
            ("url"@, FieldValueView::Text(self.url@)),
            ("name"@, FieldValueView::Text(self.name@)),
        ]);
        push_text(&mut r, "storeId", &self.store_id);
        r
    }
}

/// The request that removes `cookie`: its URL, name and store.
pub fn remove_details(cookie: &Cookie) -> (r: RemoveCookieDetails)
    ensures
        r.url@ == cookie_url(cookie@),
        r.name@ == cookie.name@,
        opt_view(r.store_id) == opt_view(cookie.store_id),
{
    RemoveCookieDetails { url: build_cookie_url(cookie), name: cookie.name.clone(), store_id: clone_opt(&cookie.store_id) }
}

/// The request that removes the cookie named `name` from the page at `url`.
pub fn remove_by_name_details(url: &str, name: &str) -> (r: RemoveCookieDetails)
    ensures
        r.url@ == url@,
        r.name@ == name@,
        r.store_id is None,
{
    RemoveCookieDetails { url: String::from_str(url), name: String::from_str(name), store_id: None }
}

} // verus!
