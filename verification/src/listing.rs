//! The cookie list of the popup and of the DevTools panel: which cookies are
//! shown for a search and a set of attribute filters, and in what order.

use vstd::prelude::*;
use crate::ordering::{is_listing_order, key_view, keys_view, listing_order};
use crate::text::{chars_contain, chars_of, occurs_in, str_eq};
use crate::types::{Cookie, CookieView, cookies_view, is_host_only_domain, opt_view};
use crate::text::push_str;

verus! {

/// The lowercase form of a string, as `str::to_lowercase` gives it (by the
/// Unicode lowercase mapping).
pub uninterp spec fn lowercase(s: Seq<char>) -> Seq<char>;

/// `str::to_lowercase`: the lowercase form of `s`.
#[verifier::external_body]
fn to_lowercase(s: &str) -> (r: String)
    ensures
        r@ == lowercase(s@),
{
    s.to_lowercase()
}

/// The attribute filters of the popup's filter bar. Of each pair (host-only
/// and domain; session and persistent) one alone narrows the list, both or
/// neither leave it as it is.
#[derive(Clone, Copy, Debug, PartialEq, Eq, Structural)]
pub struct CookieFilters {
    pub host_only: bool,
    pub domain: bool,
    pub secure: bool,
    pub http_only: bool,
    pub session: bool,
    pub persistent: bool,
}

impl Default for CookieFilters {
    fn default() -> (r: CookieFilters)
        ensures
            r == (CookieFilters {
                host_only: false,
                domain: false,
                secure: false,
                http_only: false,
                session: false,
                persistent: false,
            }),
    {
        CookieFilters {
            host_only: false,
            domain: false,
            secure: false,
            http_only: false,
            session: false,
            persistent: false,
        }
    }
}

/// The cookie passes the attribute filters.
pub open spec fn passes_attributes(f: CookieFilters, c: CookieView) -> bool {
    &&& (f.host_only && !f.domain ==> is_host_only_domain(c.domain))
    &&& (!f.host_only && f.domain ==> !is_host_only_domain(c.domain))
    &&& (f.secure ==> c.secure)
    &&& (f.http_only ==> c.http_only)
    &&& (f.session && !f.persistent ==> c.expiration_date is None)
    &&& (!f.session && f.persistent ==> c.expiration_date is Some)
}

/// The cookie matches a search whose lowercase form is `term`: the term is
/// empty, or occurs in the lowercase form of the name, domain or value.
pub open spec fn matches_search(c: CookieView, term: Seq<char>) -> bool {
    term.len() == 0 || occurs_in(lowercase(c.name), term) || occurs_in(lowercase(c.domain), term)
        || occurs_in(lowercase(c.value), term)
}

/// The cookie is shown for the search `search` and the attribute filters `f`.
pub open spec fn is_shown(search: Seq<char>, f: CookieFilters) -> spec_fn(CookieView) -> bool {
    |c: CookieView| matches_search(c, lowercase(search)) && passes_attributes(f, c)
}

/// Whether the cookie passes the attribute filters.
pub fn cookie_passes_attributes(f: &CookieFilters, c: &Cookie) -> (r: bool)
    ensures
        r == passes_attributes(*f, c@),
{
    let host_only = c.is_host_only();
    if f.host_only && !f.domain && !host_only {
        return false;
    }
    if !f.host_only && f.domain && host_only {
        return false;
    }
    if f.secure && !c.secure {
        return false;
    }
    if f.http_only && !c.http_only {
        return false;
    }
    if f.session && !f.persistent && c.expiration_date.is_some() {
        return false;
    }
    if !f.session && f.persistent && c.expiration_date.is_none() {
        return false;
    }
    true
}

/// Whether a cookie whose name, domain and value have the lowercase forms
/// given matches a search whose lowercase form is `term`.
pub fn lowered_matches_search(name_lower: &str, domain_lower: &str, value_lower: &str, term: &str) -> (r: bool)
    ensures
        r == (term@.len() == 0 || occurs_in(name_lower@, term@) || occurs_in(domain_lower@, term@)
            || occurs_in(value_lower@, term@)),
{
    let t = chars_of(term);
    if t.len() == 0 {
        return true;
    }
    let n = chars_of(name_lower);
    let d = chars_of(domain_lower);
    let v = chars_of(value_lower);
    chars_contain(n.as_slice(), t.as_slice()) || chars_contain(d.as_slice(), t.as_slice())
        || chars_contain(v.as_slice(), t.as_slice())
}

/// Whether the cookie matches a search whose lowercase form is `term`.
pub fn cookie_matches_search(c: &Cookie, term: &str) -> (r: bool)
    ensures
        r == matches_search(c@, term@),
{
    let n = to_lowercase(c.name.as_str());
    let d = to_lowercase(c.domain.as_str());
    let v = to_lowercase(c.value.as_str());
    lowered_matches_search(n.as_str(), d.as_str(), v.as_str(), term)
}

/// The cookies that the popup shows for the search `search` and the filters
/// `filters`, in the order of the input.
pub fn shown_cookies(cookies: &Vec<Cookie>, search: &str, filters: &CookieFilters) -> (r: Vec<Cookie>)
    ensures
        cookies_view(r@) == cookies_view(cookies@).filter(is_shown(search@, *filters)),
{
    let term = to_lowercase(search);
    let ghost pred = is_shown(search@, *filters);
    let ghost s = cookies_view(cookies@);
    let mut kept: Vec<Cookie> = Vec::new();
    let mut i: usize = 0;
    proof {
        reveal_with_fuel(Seq::filter, 1);
        assert(s.take(0) =~= Seq::<CookieView>::empty());
        assert(cookies_view(kept@) =~= Seq::<CookieView>::empty());
    }
    while i < cookies.len()
        invariant
            i <= cookies.len(),
            s == cookies_view(cookies@),
            pred == is_shown(search@, *filters),
            term@ == lowercase(search@),
            cookies_view(kept@) == s.take(i as int).filter(pred),
        decreases cookies.len() - i,
    {
        proof {
            assert(s.take(i + 1) =~= s.take(i as int).push(s[i as int]));
            s.take(i as int).lemma_filter_push(s[i as int], pred);
        }
        let c = &cookies[i];
        if cookie_matches_search(c, term.as_str()) && cookie_passes_attributes(filters, c) {
            let ghost before = kept@;
            kept.push(c.copy());
            assert(cookies_view(kept@) =~= cookies_view(before).push(s[i as int]));
        }
        i = i + 1;
    }
    assert(s.take(i as int) =~= s);
    kept
}

/// A string as a sort component: its characters' code points, compared
/// lexicographically (the order in which Rust compares strings).
pub open spec fn text_key(s: Seq<char>) -> Seq<i64> {
    s.map_values(|c: char| (c as u32) as i64)
}

/// An optional string as a sort component: none first.
pub open spec fn opt_text_key(o: Option<Seq<char>>) -> Seq<i64> {
    match o {
        None => seq![0i64],
        Some(s) => seq![1i64] + text_key(s),
    }
}

/// An expiration date as a sort component: session cookies first, then by date.
pub open spec fn expiry_key(e: Option<i64>) -> Seq<i64> {
    match e {
        None => seq![0i64],
        Some(x) => seq![1i64, x],
    }
}

/// The text that identifies a cookie in the list: its domain, `::`, its name.
pub open spec fn list_key_text(c: CookieView) -> Seq<char> {
    c.domain + seq![':', ':'] + c.name
}

/// The cookie is the one pinned to the top of the list.
pub open spec fn is_pinned(pinned: Option<Seq<char>>, c: CookieView) -> bool {
    pinned matches Some(k) && list_key_text(c) == k
}

/// The popup's sort key of a cookie: the pinned cookie first, then by name
/// (`"name_alpha"`), by expiration (`"expiration"`), or by domain and then
/// name (any other sort type).
pub open spec fn popup_key(sort_type: Seq<char>, pinned: Option<Seq<char>>, c: CookieView) -> Seq<Seq<i64>> {
    let pin: Seq<i64> = if is_pinned(pinned, c) {
        seq![0i64]
    } else {
        seq![1i64]
    };
    if sort_type == "name_alpha"@ {
        seq![pin, text_key(c.name)]
    } else if sort_type == "expiration"@ {
        seq![pin, expiry_key(c.expiration_date)]
    } else {
        seq![pin, text_key(c.domain), text_key(c.name)]
    }
}

/// The DevTools panel's sort key of a cookie for the sort field `field`;
/// an unknown field gives every cookie the same key.
pub open spec fn panel_key(field: Seq<char>, c: CookieView) -> Seq<Seq<i64>> {
    if field == "domain"@ {
        seq![text_key(c.domain)]
    } else if field == "name"@ {
        seq![text_key(c.name)]
    } else if field == "path"@ {
        seq![opt_text_key(c.path)]
    } else if field == "expiration"@ {
        seq![expiry_key(c.expiration_date)]
    } else {
        Seq::empty()
    }
}

/// `r` lists `items` in an order that [`is_listing_order`] allows for `keys`.
pub open spec fn arranged(items: Seq<CookieView>, keys: Seq<Seq<Seq<i64>>>, descending: bool, r: Seq<CookieView>) -> bool {
    keys.len() == items.len() && exists|order: Seq<usize>|
        #[trigger] is_listing_order(keys, descending, order) && r.len() == order.len() && forall|k: int|
            0 <= k < order.len() ==> r[k] == items[#[trigger] order[k] as int]
}

fn text_key_of(s: &str) -> (r: Vec<i64>)
    ensures
        r@ == text_key(s@),
{
    let v = chars_of(s);
    let mut r: Vec<i64> = Vec::new();
    let mut i: usize = 0;
    while i < v.len()
        invariant
            i <= v.len(),
            r@ == text_key(v@.take(i as int)),
        decreases v.len() - i,
    {
        r.push(v[i] as u32 as i64);
        assert(text_key(v@.take(i + 1)) =~= text_key(v@.take(i as int)).push((v@[i as int] as u32) as i64));
        i = i + 1;
    }
    assert(v@.take(i as int) =~= v@);
    r
}

fn opt_text_key_of(o: &Option<String>) -> (r: Vec<i64>)
    ensures
        r@ == opt_text_key(opt_view(*o)),
{
    match o {
        None => {
            let r = vec![0i64];
            assert(r@ =~= seq![0i64]);
            r
        },
        Some(s) => {
            let t = text_key_of(s.as_str());
            let mut r = vec![1i64];
            let mut i: usize = 0;
            while i < t.len()
                invariant
                    i <= t.len(),
                    r@ == seq![1i64] + t@.take(i as int),
                decreases t.len() - i,
            {
                r.push(t[i]);
                assert(t@.take(i + 1) =~= t@.take(i as int).push(t@[i as int]));
                i = i + 1;
            }
            assert(t@.take(i as int) =~= t@);
            r
        },
    }
}

fn expiry_key_of(e: Option<i64>) -> (r: Vec<i64>)
    ensures
        r@ == expiry_key(e),
{
    match e {
        None => {
            let r = vec![0i64];
            assert(r@ =~= seq![0i64]);
            r
        },
        Some(x) => {
            let r = vec![1i64, x];
            assert(r@ =~= seq![1i64, x]);
            r
        },
    }
}

impl Cookie {
    /// The text that identifies the cookie in the list: domain, `::`, name.
    pub fn list_key(&self) -> (r: String)
        ensures
            r@ == list_key_text(self@),
    {
        let mut r = self.domain.clone();
        let mut sep = String::new();
        proof {
            reveal_strlit("::");
        }
        push_str(&mut sep, "::");
        push_str(&mut r, sep.as_str());
        push_str(&mut r, self.name.as_str());
        assert(r@ =~= list_key_text(self@));
        r
    }
}

fn popup_key_of(sort_type: &str, pinned: &Option<String>, c: &Cookie) -> (r: Vec<Vec<i64>>)
    ensures
        key_view(r) == popup_key(sort_type@, opt_view(*pinned), c@),
{
    let is_pin = match pinned {
        Some(k) => {
            let lk = c.list_key();
            str_eq(lk.as_str(), k.as_str())
        },
        None => false,
    };
    let pin = if is_pin {
        vec![0i64]
    } else {
        vec![1i64]
    };
    let ghost pv = pin@;
    assert(pv =~= (if is_pinned(opt_view(*pinned), c@) { seq![0i64] } else { seq![1i64] }));
    let r = if str_eq(sort_type, "name_alpha") {
        vec![pin, text_key_of(c.name.as_str())]
    } else if str_eq(sort_type, "expiration") {
        vec![pin, expiry_key_of(c.expiration_date)]
    } else {
        vec![pin, text_key_of(c.domain.as_str()), text_key_of(c.name.as_str())]
    };
    assert(key_view(r) =~= popup_key(sort_type@, opt_view(*pinned), c@));
    r
}

fn panel_key_of(field: &str, c: &Cookie) -> (r: Vec<Vec<i64>>)
    ensures
        key_view(r) == panel_key(field@, c@),
{
    let r = if str_eq(field, "domain") {
        vec![text_key_of(c.domain.as_str())]
    } else if str_eq(field, "name") {
        vec![text_key_of(c.name.as_str())]
    } else if str_eq(field, "path") {
        vec![opt_text_key_of(&c.path)]
    } else if str_eq(field, "expiration") {
        vec![expiry_key_of(c.expiration_date)]
    } else {
        Vec::new()
    };
    assert(key_view(r) =~= panel_key(field@, c@));
    r
}

/// The cookies of `items` in the order that `keys` gives them.
fn arrange(items: &Vec<Cookie>, keys: &Vec<Vec<Vec<i64>>>, descending: bool) -> (r: Vec<Cookie>)
    requires
        keys.len() == items.len(),
    ensures
        arranged(cookies_view(items@), keys_view(keys@), descending, cookies_view(r@)),
{
    let order = listing_order(keys, descending);
    let mut r: Vec<Cookie> = Vec::new();
    let mut k: usize = 0;
    while k < order.len()
        invariant
            k <= order.len(),
            is_listing_order(keys_view(keys@), descending, order@),
            keys.len() == items.len(),
            r@.len() == k,
            forall|j: int| 0 <= j < k ==> cookies_view(r@)[j] == cookies_view(items@)[#[trigger] order@[j] as int],
        decreases order.len() - k,
    {
        let o = order[k];
        assert(o < keys_view(keys@).len());
        let ghost before = r@;
        r.push(items[o].copy());
        proof {
            assert forall|j: int| 0 <= j < k + 1 implies cookies_view(r@)[j] == cookies_view(items@)[#[trigger] order@[j] as int] by {
                if j < k {
                    assert(r@[j] == before[j]);
                }
            }
        }
        k = k + 1;
    }
    assert(keys_view(keys@).len() == cookies_view(items@).len());
    assert(is_listing_order(keys_view(keys@), descending, order@) && cookies_view(r@).len() == order@.len() && forall|j: int|
        0 <= j < order@.len() ==> cookies_view(r@)[j] == cookies_view(items@)[#[trigger] order@[j] as int]);
    r
}

/// The popup's sort keys of a list of cookies.
pub open spec fn popup_keys(cs: Seq<CookieView>, sort_type: Seq<char>, pinned: Option<Seq<char>>) -> Seq<Seq<Seq<i64>>> {
    cs.map_values(|c: CookieView| popup_key(sort_type, pinned, c))
}

/// The DevTools panel's sort keys of a list of cookies.
pub open spec fn panel_keys(cs: Seq<CookieView>, field: Seq<char>) -> Seq<Seq<Seq<i64>>> {
    cs.map_values(|c: CookieView| panel_key(field, c))
}

/// The popup's list: the cookies shown for the search `search` and the
/// attribute filters, the cookie whose [`Cookie::list_key`] is `pinned` first,
/// then in the order `sort_type` names; cookies that compare equal keep the
/// order of `cookies`.
pub fn visible_cookies(cookies: &Vec<Cookie>, search: &str, filters: &CookieFilters, sort_type: &str, pinned: &Option<String>) -> (r: Vec<Cookie>)
    ensures
        ({
            let kept = cookies_view(cookies@).filter(is_shown(search@, *filters));
            arranged(kept, popup_keys(kept, sort_type@, opt_view(*pinned)), false, cookies_view(r@))
        }),
{
    let kept = shown_cookies(cookies, search, filters);
    let mut keys: Vec<Vec<Vec<i64>>> = Vec::new();
    let mut i: usize = 0;
    while i < kept.len()
        invariant
            i <= kept.len(),
            keys_view(keys@) == popup_keys(cookies_view(kept@), sort_type@, opt_view(*pinned)).take(i as int),
        decreases kept.len() - i,
    {
        let k = popup_key_of(sort_type, pinned, &kept[i]);
        let ghost before = keys@;
        keys.push(k);
        assert(keys_view(keys@) =~= keys_view(before).push(key_view(k)));
        assert(popup_keys(cookies_view(kept@), sort_type@, opt_view(*pinned)).take(i + 1) =~= popup_keys(
            cookies_view(kept@),
            sort_type@,
            opt_view(*pinned),
        ).take(i as int).push(popup_key(sort_type@, opt_view(*pinned), kept@[i as int]@)));
        i = i + 1;
    }
    assert(popup_keys(cookies_view(kept@), sort_type@, opt_view(*pinned)).take(i as int) =~= popup_keys(
        cookies_view(kept@),
        sort_type@,
        opt_view(*pinned),
    ));
    arrange(&kept, &keys, false)
}

/// The DevTools panel's table: all cookies sorted by the field `field`
/// (`"domain"`, `"name"`, `"path"` or `"expiration"`), in descending order
/// where `descending` holds; cookies that compare equal keep their order.
pub fn panel_cookies(cookies: &Vec<Cookie>, field: &str, descending: bool) -> (r: Vec<Cookie>)
    ensures
        arranged(cookies_view(cookies@), panel_keys(cookies_view(cookies@), field@), descending, cookies_view(r@)),
{
    let mut keys: Vec<Vec<Vec<i64>>> = Vec::new();
    let mut i: usize = 0;
    while i < cookies.len()
        invariant
            i <= cookies.len(),
            keys_view(keys@) == panel_keys(cookies_view(cookies@), field@).take(i as int),
        decreases cookies.len() - i,
    {
        let k = panel_key_of(field, &cookies[i]);
        let ghost before = keys@;
        keys.push(k);
        assert(keys_view(keys@) =~= keys_view(before).push(key_view(k)));
        assert(panel_keys(cookies_view(cookies@), field@).take(i + 1) =~= panel_keys(
            cookies_view(cookies@),
            field@,
        ).take(i as int).push(panel_key(field@, cookies@[i as int]@)));
        i = i + 1;
    }
    assert(panel_keys(cookies_view(cookies@), field@).take(i as int) =~= panel_keys(cookies_view(cookies@), field@));
    arrange(cookies, &keys, descending)
}

} // verus!
