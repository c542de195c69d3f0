//! Properties that hold across the operations of the library.

use vstd::prelude::*;
use crate::background::{MonitorActionView, planned_actions};
use crate::cookie_ops::cookie_url;
use crate::export::{
    netscape_line,
    copy_suffix, duplicate_candidate, duplicate_name_of, without_copy_suffixes,
    MAX_DUPLICATE_NAME_LEN,
};
use crate::known_cookies::{known_description, prefix_description};
use crate::listing::{arranged, is_shown, popup_keys};
use crate::rules::{blocked_by, first_with_id, id_differs, lemma_first_with_id, lemma_max_filter_id, max_filter_id, shortened_expiry};
use crate::storage::{
    locale_can_be_cut, resolved_description, sanitized_preferences, valid_copy_type, valid_sort_type,
    valid_theme, MAX_COOKIE_AGE, MAX_LOCALE_LEN,
};
use crate::text::{has_prefix, lemma_no_new_prefix, lemma_not_prefix_at, lemma_prefix_of_extension, has_suffix, lemma_byte_prefix, truncated, utf8_len, is_boundary};
use crate::theme::toggled_theme;
use crate::types::{
    CookieView, FilterView, Preferences, PreferencesView, ReadOnlyCookieView, default_preferences,
    differs_from, names_cookie, without_entry,
};

verus! {

/// A description the user sets for a cookie is the one shown for it, whatever
/// the built-in dictionary says.
pub proof fn law_custom_description_shown(custom: Map<Seq<char>, Seq<char>>, name: Seq<char>, desc: Seq<char>)
    ensures
        resolved_description(custom.insert(name, desc), name) == Some(desc),
{
}

/// Resetting a cookie's description brings back the built-in one (or none).
pub proof fn law_reset_description(custom: Map<Seq<char>, Seq<char>>, name: Seq<char>)
    ensures
        resolved_description(custom.remove(name), name) == known_description(name),
{
}

/// Setting or resetting one cookie's description leaves every other cookie's
/// description as it was.
pub proof fn law_description_change_is_local(
    custom: Map<Seq<char>, Seq<char>>,
    name: Seq<char>,
    desc: Option<Seq<char>>,
    other: Seq<char>,
)
    requires
        other != name,
    ensures
        resolved_description(
            match desc {
                Some(d) => custom.insert(name, d),
                None => custom.remove(name),
            },
            other,
        ) == resolved_description(custom, other),
{
}

/// What is stored of the preferences passes the checks on the way in: a known
/// theme, copy format and sort order, a locale of at most ten bytes, and a
/// maximum age within the cap.
pub proof fn law_stored_preferences_are_valid(p: PreferencesView)
    requires
        locale_can_be_cut(p.custom_locale),
    ensures
        valid_theme(sanitized_preferences(p).theme),
        valid_copy_type(sanitized_preferences(p).copy_cookies_type),
        valid_sort_type(sanitized_preferences(p).sort_cookies_type),
        utf8_len(sanitized_preferences(p).custom_locale) <= MAX_LOCALE_LEN,
        sanitized_preferences(p).max_cookie_age <= MAX_COOKIE_AGE,
{
    lemma_truncated_len(p.custom_locale, MAX_LOCALE_LEN as int);
}

/// A string cut at a character boundary fits the limit.
proof fn lemma_truncated_len(s: Seq<char>, n: int)
    requires
        0 <= n,
        utf8_len(s) <= n || is_boundary(s, n),
    ensures
        utf8_len(truncated(s, n)) <= n,
{
    if utf8_len(s) > n {
        let k = choose|k: int| 0 <= k <= s.len() && #[trigger] utf8_len(s.take(k)) == n;
        lemma_byte_prefix(s, n, k);
    }
}

/// Storing preferences keeps every setting that is already acceptable: a
/// light or dark theme, a JSON, Netscape or semicolon copy format, a domain,
/// name or expiration sort order, a locale of at most ten bytes, a maximum
/// age within the cap, and every other setting as it is.
pub proof fn law_stored_preferences_keep_valid_settings(p: PreferencesView)
    requires
        locale_can_be_cut(p.custom_locale),
    ensures
        p.theme == "light"@ || p.theme == "dark"@ ==> sanitized_preferences(p).theme == p.theme,
        p.copy_cookies_type == "json"@ || p.copy_cookies_type == "netscape"@ || p.copy_cookies_type
            == "semicolon"@ ==> sanitized_preferences(p).copy_cookies_type == p.copy_cookies_type,
        p.sort_cookies_type == "domain_alpha"@ || p.sort_cookies_type == "name_alpha"@
            || p.sort_cookies_type == "expiration"@ ==> sanitized_preferences(p).sort_cookies_type
            == p.sort_cookies_type,
        utf8_len(p.custom_locale) <= MAX_LOCALE_LEN ==> sanitized_preferences(p).custom_locale
            == p.custom_locale,
        p.max_cookie_age <= MAX_COOKIE_AGE ==> sanitized_preferences(p).max_cookie_age == p.max_cookie_age,
        sanitized_preferences(p).show_alerts == p.show_alerts,
        sanitized_preferences(p).show_commands_labels == p.show_commands_labels,
        sanitized_preferences(p).show_domain == p.show_domain,
        sanitized_preferences(p).show_domain_before_name == p.show_domain_before_name,
        sanitized_preferences(p).show_flag_and_delete_all == p.show_flag_and_delete_all,
        sanitized_preferences(p).show_context_menu == p.show_context_menu,
        sanitized_preferences(p).refresh_after_submit == p.refresh_after_submit,
        sanitized_preferences(p).skip_cache_refresh == p.skip_cache_refresh,
        sanitized_preferences(p).use_max_cookie_age == p.use_max_cookie_age,
        sanitized_preferences(p).max_cookie_age_type == p.max_cookie_age_type,
        sanitized_preferences(p).use_custom_locale == p.use_custom_locale,
        sanitized_preferences(p).protected_cookies == p.protected_cookies,
{
}

/// Storing preferences that were stored already changes nothing.
pub proof fn law_sanitize_idempotent(p: PreferencesView)
    requires
        locale_can_be_cut(p.custom_locale),
    ensures
        locale_can_be_cut(sanitized_preferences(p).custom_locale),
        sanitized_preferences(sanitized_preferences(p)) == sanitized_preferences(p),
{
    lemma_truncated_len(p.custom_locale, MAX_LOCALE_LEN as int);
    let s = sanitized_preferences(p);
    assert(sanitized_preferences(s) =~= s);
}

/// The preferences of a new installation are stored as they are.
pub proof fn law_default_preferences_stored_unchanged()
    ensures
        locale_can_be_cut(default_preferences().custom_locale),
        sanitized_preferences(default_preferences()) == default_preferences(),
{
    reveal_strlit("en");
    let en = "en"@;
    assert(en =~= seq!['e', 'n']);
    reveal_with_fuel(vstd::utf8::encode_utf8, 3);
    assert(en.drop_first().drop_first() =~= Seq::<char>::empty());
    assert(utf8_len(en) == 2);
    assert(sanitized_preferences(default_preferences()) =~= default_preferences());
}

/// Protecting a cookie that was not protected, then unprotecting it, leaves
/// the protected list as it was.
pub proof fn law_protect_then_unprotect(list: Seq<ReadOnlyCookieView>, name: Seq<char>, domain: Seq<char>)
    requires
        !names_cookie(list, name, domain),
    ensures
        names_cookie(list.push(ReadOnlyCookieView { name, domain }), name, domain),
        without_entry(list.push(ReadOnlyCookieView { name, domain }), ReadOnlyCookieView { name, domain })
            == list,
{
    let e = ReadOnlyCookieView { name, domain };
    assert(list.push(e)[list.len() as int] == e);
    list.lemma_filter_push(e, differs_from(e));
    lemma_filter_keeps_all(list, e);
}

/// Filtering out an entry that the list does not hold keeps the list.
proof fn lemma_filter_keeps_all(list: Seq<ReadOnlyCookieView>, e: ReadOnlyCookieView)
    requires
        !names_cookie(list, e.name, e.domain),
    ensures
        list.filter(differs_from(e)) == list,
    decreases list.len(),
{
    reveal_with_fuel(Seq::filter, 1);
    if list.len() > 0 {
        let t = list.drop_last();
        assert(!names_cookie(t, e.name, e.domain)) by {
            if names_cookie(t, e.name, e.domain) {
                let i = choose|i: int| 0 <= i < t.len() && #[trigger] t[i] == (ReadOnlyCookieView { name: e.name, domain: e.domain });
                assert(list[i] == t[i]);
            }
        }
        lemma_filter_keeps_all(t, e);
        assert(list.last() != e) by {
            if list.last() == e {
                assert(list[list.len() - 1] == (ReadOnlyCookieView { name: e.name, domain: e.domain }));
            }
        }
        assert(t.push(list.last()) =~= list);
    }
}

/// Unprotecting a cookie leaves no entry naming it.
pub proof fn law_unprotect_removes_every_entry(list: Seq<ReadOnlyCookieView>, name: Seq<char>, domain: Seq<char>)
    ensures
        !names_cookie(without_entry(list, ReadOnlyCookieView { name, domain }), name, domain),
{
    let e = ReadOnlyCookieView { name, domain };
    let f = without_entry(list, e);
    broadcast use vstd::seq_lib::group_filter_ensures;
    if names_cookie(f, name, domain) {
        let i = choose|i: int| 0 <= i < f.len() && #[trigger] f[i] == (ReadOnlyCookieView { name, domain });
        list.lemma_filter_pred(differs_from(e), i);
    }
}

/// A duplicate of a duplicate has the same name as the duplicate, where the
/// name needs no cutting.
pub proof fn law_duplicate_of_duplicate(name: Seq<char>)
    requires
        duplicate_candidate(name).len() <= MAX_DUPLICATE_NAME_LEN,
    ensures
        duplicate_name_of(duplicate_name_of(name)) == duplicate_name_of(name),
{
    let d = duplicate_name_of(name);
    let b = without_copy_suffixes(name);
    assert(d == b + copy_suffix());
    assert(has_suffix(d, copy_suffix())) by {
        assert(d.skip(d.len() - 5) =~= copy_suffix());
    }
    assert(d.take(d.len() - 5) =~= b);
    lemma_stripped_has_no_suffix(name);
    assert(without_copy_suffixes(b) == b);
    assert(without_copy_suffixes(d) == b);
}

/// Nothing is left to strip after the `_copy` suffixes are stripped.
proof fn lemma_stripped_has_no_suffix(s: Seq<char>)
    ensures
        !has_suffix(without_copy_suffixes(s), copy_suffix()),
    decreases s.len(),
{
    if has_suffix(s, copy_suffix()) {
        lemma_stripped_has_no_suffix(s.take(s.len() - 5));
    }
}

/// Once a cookie is on the read-only list, protecting it again finds it
/// there: nothing more is added and the protected counter is not raised again.
pub proof fn law_protect_counts_once(list: Seq<ReadOnlyCookieView>, name: Seq<char>, domain: Seq<char>)
    ensures
        names_cookie(list.push(ReadOnlyCookieView { name, domain }), name, domain),
{
    let l = list.push(ReadOnlyCookieView { name, domain });
    assert(l[list.len() as int] == ReadOnlyCookieView { name, domain });
}

/// The URL of a cookie whose domain does not start with a dot is the scheme
/// (`https` for a secure cookie, else `http`), `://`, the domain itself and
/// the path (`/` where there is none).
pub proof fn law_host_only_cookie_url(c: CookieView)
    requires
        !(c.domain.len() > 0 && c.domain[0] == '.'),
    ensures
        cookie_url(c) == (if c.secure { seq!['h', 't', 't', 'p', 's'] } else { seq!['h', 't', 't', 'p'] })
            + seq![':', '/', '/'] + c.domain + (match c.path {
            Some(p) => p,
            None => seq!['/'],
        }),
{
    reveal_strlit("https");
    reveal_strlit("http");
    reveal_strlit("://");
    reveal_strlit("/");
    assert("https"@ =~= seq!['h', 't', 't', 'p', 's']);
    assert("http"@ =~= seq!['h', 't', 't', 'p']);
    assert("://"@ =~= seq![':', '/', '/']);
    assert("/"@ =~= seq!['/']);
}

/// Only one leading dot is taken from a domain for its URL: a cookie on
/// `.d` has the URL of the same cookie on `d`, where `d` itself does not
/// start with a dot.
pub proof fn law_leading_dot_dropped_from_url(c: CookieView)
    requires
        c.domain.len() > 0,
        c.domain[0] == '.',
        !(c.domain.len() > 1 && c.domain[1] == '.'),
    ensures
        cookie_url(c) == cookie_url(CookieView { domain: c.domain.drop_first(), ..c }),
{
}

/// The third tab-separated field of a cookie's Netscape line is its path
/// (`/` where it has none): the line is the domain, a tab, `TRUE` for a
/// domain cookie (a leading dot) or `FALSE` for a host-only one, a tab, the
/// path, and a tab before the remaining fields.
pub proof fn law_netscape_third_field_is_path(c: CookieView)
    ensures
        ({
            let tab = seq!['\t'];
            let flag = if c.domain.len() > 0 && c.domain[0] == '.' {
                seq!['T', 'R', 'U', 'E']
            } else {
                seq!['F', 'A', 'L', 'S', 'E']
            };
            let path = match c.path {
                Some(p) => p,
                None => seq!['/'],
            };
            let head = c.domain + tab + flag + tab + path + tab;
            netscape_line(c) == head + netscape_line(c).skip(head.len() as int)
        }),
{
    reveal_strlit("\t");
    reveal_strlit("TRUE");
    reveal_strlit("FALSE");
    reveal_strlit("/");
    assert("\t"@ =~= seq!['\t']);
    assert("TRUE"@ =~= seq!['T', 'R', 'U', 'E']);
    assert("FALSE"@ =~= seq!['F', 'A', 'L', 'S', 'E']);
    assert("/"@ =~= seq!['/']);
    let tab = seq!['\t'];
    let flag = if c.domain.len() > 0 && c.domain[0] == '.' {
        seq!['T', 'R', 'U', 'E']
    } else {
        seq!['F', 'A', 'L', 'S', 'E']
    };
    let path = match c.path {
        Some(p) => p,
        None => seq!['/'],
    };
    let head = c.domain + tab + flag + tab + path + tab;
    let line = netscape_line(c);
    let rest = (match c.expiration_date {
        Some(e) => crate::text::signed_decimal(e as int),
        None => "0"@,
    });
    assert(line =~= head + ((if c.secure { "TRUE"@ } else { "FALSE"@ }) + "\t"@ + rest + "\t"@ + c.name + "\t"@ + c.value));
    assert(line.skip(head.len() as int) =~= (if c.secure { "TRUE"@ } else { "FALSE"@ }) + "\t"@ + rest + "\t"@ + c.name + "\t"@ + c.value);
}

/// After a filter is removed, no filter has its id.
pub proof fn law_removed_filter_is_gone(filters: Seq<FilterView>, id: u64)
    ensures
        forall|i: int| 0 <= i < filters.filter(id_differs(id)).len() ==> #[trigger] filters.filter(id_differs(id))[i].id != id,
{
    broadcast use vstd::seq_lib::group_filter_ensures;
    assert forall|i: int| 0 <= i < filters.filter(id_differs(id)).len() implies #[trigger] filters.filter(id_differs(id))[i].id != id by {
        filters.lemma_filter_pred(id_differs(id), i);
    }
}

/// A new filter gets an id that no filter has: one above every id in use.
pub proof fn law_new_filter_id_is_fresh(filters: Seq<FilterView>)
    requires
        max_filter_id(filters) < u64::MAX,
    ensures
        forall|i: int| 0 <= i < filters.len() ==> #[trigger] filters[i].id < max_filter_id(filters) + 1,
{
    assert forall|i: int| 0 <= i < filters.len() implies #[trigger] filters[i].id < max_filter_id(filters) + 1 by {
        lemma_max_filter_id(filters, i);
    }
}

/// Switching a filter twice leaves the filters as they were.
pub proof fn law_toggle_filter_twice(filters: Seq<FilterView>, id: u64)
    ensures
        ({
            let once = match first_with_id(filters, id) {
                Some(i) => filters.update(i, FilterView { enabled: !filters[i].enabled, ..filters[i] }),
                None => filters,
            };
            let twice = match first_with_id(once, id) {
                Some(i) => once.update(i, FilterView { enabled: !once[i].enabled, ..once[i] }),
                None => once,
            };
            twice == filters
        }),
{
    match first_with_id(filters, id) {
        Some(i) => {
            let k0 = choose|k: int| 0 <= k < filters.len() && #[trigger] filters[k].id == id;
            lemma_first_with_id(filters, id, k0);
            let once = filters.update(i, FilterView { enabled: !filters[i].enabled, ..filters[i] });
            assert(once[i].id == id);
            lemma_first_with_id(once, id, i);
            let j = first_with_id(once, id)->0;
            if j < i {
                assert(filters[j].id == once[j].id);
            }
            assert(j == i);
            assert(once.update(i, FilterView { enabled: !once[i].enabled, ..once[i] }) =~= filters);
        },
        None => {
            if exists|k: int| 0 <= k < filters.len() && #[trigger] filters[k].id == id {
            }
        },
    }
}

/// The age limit only ever brings an expiration forward.
pub proof fn law_shortening_never_extends(c: CookieView, p: Preferences, now: i64)
    ensures
        shortened_expiry(c, p, now) matches Some(e) ==> c.expiration_date matches Some(x) && e < x,
{
}

/// A protected cookie that is removed is written back, and nothing else is done.
pub proof fn law_removed_protected_cookie_restored(
    c: CookieView,
    filters: Seq<FilterView>,
    read_only: Seq<ReadOnlyCookieView>,
    p: Preferences,
    now: i64,
)
    requires
        names_cookie(read_only, c.name, c.domain),
    ensures
        planned_actions(c, true, filters, read_only, p, now) == seq![MonitorActionView::Restore(c)],
{
}

/// A written cookie that an enabled filter blocks is removed, and nothing
/// else is done to it: it is not written back, shortened or not.
pub proof fn law_blocked_cookie_stays_removed(
    c: CookieView,
    filters: Seq<FilterView>,
    read_only: Seq<ReadOnlyCookieView>,
    p: Preferences,
    now: i64,
)
    requires
        blocked_by(filters, c),
    ensures
        planned_actions(c, false, filters, read_only, p, now) == seq![MonitorActionView::Remove(c)],
{
}

/// A removed cookie that is not protected is left alone.
pub proof fn law_removed_unprotected_cookie_left_alone(
    c: CookieView,
    filters: Seq<FilterView>,
    read_only: Seq<ReadOnlyCookieView>,
    p: Preferences,
    now: i64,
)
    requires
        !names_cookie(read_only, c.name, c.domain),
        !names_cookie(crate::types::read_only_view(p.protected_cookies@), c.name, c.domain),
    ensures
        planned_actions(c, true, filters, read_only, p, now).len() == 0,
{
}

/// Every cookie that the popup lists is one that the search and the filters
/// show, and the list is no longer than the cookies given.
pub proof fn law_listed_cookies_are_shown(
    cookies: Seq<CookieView>,
    search: Seq<char>,
    filters: crate::listing::CookieFilters,
    keys: Seq<Seq<Seq<i64>>>,
    listed: Seq<CookieView>,
)
    requires
        arranged(cookies.filter(is_shown(search, filters)), keys, false, listed),
    ensures
        listed.len() <= cookies.len(),
        forall|k: int| 0 <= k < listed.len() ==> (is_shown(search, filters))(#[trigger] listed[k]),
{
    broadcast use vstd::seq_lib::group_filter_ensures;
    let kept = cookies.filter(is_shown(search, filters));
    cookies.lemma_filter_len(is_shown(search, filters));
    let order = choose|order: Seq<usize>|
        #[trigger] crate::ordering::is_listing_order(keys, false, order) && listed.len() == order.len() && forall|k: int|
            0 <= k < order.len() ==> listed[k] == kept[#[trigger] order[k] as int];
    assert forall|k: int| 0 <= k < listed.len() implies (is_shown(search, filters))(#[trigger] listed[k]) by {
        assert(listed[k] == kept[order[k] as int]);
        cookies.lemma_filter_pred(is_shown(search, filters), order[k] as int);
    }
}

/// Whatever the sort, the cookie pinned to the top of the popup's list (the
/// one whose domain, `::` and name spell the pinned key) is listed first,
/// where the search and the filters show it.
pub proof fn law_pinned_cookie_comes_first(
    cookies: Seq<CookieView>,
    search: Seq<char>,
    filters: crate::listing::CookieFilters,
    sort_type: Seq<char>,
    key: Seq<char>,
    listed: Seq<CookieView>,
    j: int,
)
    requires
        arranged(
            cookies.filter(is_shown(search, filters)),
            popup_keys(cookies.filter(is_shown(search, filters)), sort_type, Some(key)),
            false,
            listed,
        ),
        0 <= j < cookies.filter(is_shown(search, filters)).len(),
        cookies.filter(is_shown(search, filters))[j].domain + seq![':', ':'] + cookies.filter(
            is_shown(search, filters),
        )[j].name == key,
    ensures
        listed.len() > 0,
        listed[0].domain + seq![':', ':'] + listed[0].name == key,
{
    let kept = cookies.filter(is_shown(search, filters));
    let keys = popup_keys(kept, sort_type, Some(key));
    let order = choose|order: Seq<usize>|
        #[trigger] crate::ordering::is_listing_order(keys, false, order) && listed.len() == order.len() && forall|k: int|
            0 <= k < order.len() ==> listed[k] == kept[#[trigger] order[k] as int];
    crate::ordering::lemma_listing_order_covers(keys, false, order, j);
    let a = choose|a: int| 0 <= a < order.len() && #[trigger] order[a] == j;
    let i = order[0] as int;
    assert(listed[0] == kept[i]);
    if a > 0 && kept[i].domain + seq![':', ':'] + kept[i].name != key {
        assert(crate::ordering::listed_before(keys, false, order[0] as int, order[a] as int));
        let ki = keys[i];
        let kj = keys[j];
        assert(ki == crate::listing::popup_key(sort_type, Some(key), kept[i]));
        assert(kj == crate::listing::popup_key(sort_type, Some(key), kept[j]));
        assert(ki[0] == seq![1i64]);
        assert(kj[0] == seq![0i64]);
        assert(ki[0] != kj[0]) by {
            assert(ki[0][0] != kj[0][0]);
        }
        assert(!crate::ordering::ints_lt(ki[0], kj[0]));
        assert(!crate::ordering::key_lt(ki, kj));
        assert(false);
    }
}

/// The popup's list and the DevTools table are determined by what they are
/// given: one list meets the contract of each listing.
pub proof fn law_listing_is_deterministic(
    items: Seq<CookieView>,
    keys: Seq<Seq<Seq<i64>>>,
    descending: bool,
    r1: Seq<CookieView>,
    r2: Seq<CookieView>,
)
    requires
        arranged(items, keys, descending, r1),
        arranged(items, keys, descending, r2),
    ensures
        r1 == r2,
{
    let o1 = choose|order: Seq<usize>|
        #[trigger] crate::ordering::is_listing_order(keys, descending, order) && r1.len() == order.len() && forall|k: int|
            0 <= k < order.len() ==> r1[k] == items[#[trigger] order[k] as int];
    let o2 = choose|order: Seq<usize>|
        #[trigger] crate::ordering::is_listing_order(keys, descending, order) && r2.len() == order.len() && forall|k: int|
            0 <= k < order.len() ==> r2[k] == items[#[trigger] order[k] as int];
    crate::ordering::lemma_listing_order_unique(keys, descending, o1, o2);
    assert forall|k: int| 0 <= k < r1.len() implies r1[k] == r2[k] by {
        assert(r1[k] == items[o1[k] as int]);
        assert(r2[k] == items[o2[k] as int]);
    }
    assert(r1 =~= r2);
}

/// With a blank search (one whose lowercase form is empty) and no attribute
/// filter, the popup shows every cookie.
pub proof fn law_empty_search_shows_all(cookies: Seq<CookieView>, search: Seq<char>)
    requires
        crate::listing::lowercase(search).len() == 0,
    ensures
        cookies.filter(is_shown(search, crate::listing::CookieFilters {
            host_only: false,
            domain: false,
            secure: false,
            http_only: false,
            session: false,
            persistent: false,
        })) == cookies,
    decreases cookies.len(),
{
    let f = crate::listing::CookieFilters {
        host_only: false,
        domain: false,
        secure: false,
        http_only: false,
        session: false,
        persistent: false,
    };
    reveal_with_fuel(Seq::filter, 1);
    if cookies.len() > 0 {
        law_empty_search_shows_all(cookies.drop_last(), search);
        assert((is_shown(search, f))(cookies.last()));
        assert(cookies.drop_last().push(cookies.last()) =~= cookies);
    }
}

/// The theme toggle switches between light and dark.
pub proof fn law_theme_toggle_round_trip(theme: Seq<char>)
    requires
        valid_theme(theme),
    ensures
        toggled_theme(toggled_theme(theme)) == theme,
        toggled_theme(theme) != theme,
{
    reveal_strlit("light");
    reveal_strlit("dark");
    assert("light"@.len() != "dark"@.len());
}

/// Extending a cookie name never changes which family prefix it matches: no
/// family prefix is a prefix of one listed before it.
pub proof fn law_prefix_match_survives_extension(name: Seq<char>, suffix: Seq<char>)
    requires
        prefix_description(name) is Some,
    ensures
        prefix_description(name + suffix) == prefix_description(name),
{
    if has_prefix(name, "__Secure-"@) {
            reveal_strlit("__Secure-");
            lemma_prefix_of_extension(name, suffix, "__Secure-"@);
    } else if has_prefix(name, "_ga_"@) {
            reveal_strlit("_ga_");
            lemma_prefix_of_extension(name, suffix, "_ga_"@);
            reveal_strlit("__Secure-");
            lemma_not_prefix_at("__Secure-"@, "_ga_"@, 1);
            lemma_no_new_prefix(name, suffix, "_ga_"@, "__Secure-"@);
    } else if has_prefix(name, "SAP_SESSIONID_"@) {
            reveal_strlit("SAP_SESSIONID_");
            lemma_prefix_of_extension(name, suffix, "SAP_SESSIONID_"@);
            reveal_strlit("__Secure-");
            lemma_not_prefix_at("__Secure-"@, "SAP_SESSIONID_"@, 0);
            lemma_no_new_prefix(name, suffix, "SAP_SESSIONID_"@, "__Secure-"@);
            reveal_strlit("_ga_");
            lemma_not_prefix_at("_ga_"@, "SAP_SESSIONID_"@, 0);
            lemma_no_new_prefix(name, suffix, "SAP_SESSIONID_"@, "_ga_"@);
    } else if has_prefix(name, "ORA_"@) {
            reveal_strlit("ORA_");
            lemma_prefix_of_extension(name, suffix, "ORA_"@);
            reveal_strlit("__Secure-");
            lemma_not_prefix_at("__Secure-"@, "ORA_"@, 0);
            lemma_no_new_prefix(name, suffix, "ORA_"@, "__Secure-"@);
            reveal_strlit("_ga_");
            lemma_not_prefix_at("_ga_"@, "ORA_"@, 0);
            lemma_no_new_prefix(name, suffix, "ORA_"@, "_ga_"@);
            reveal_strlit("SAP_SESSIONID_");
            lemma_not_prefix_at("SAP_SESSIONID_"@, "ORA_"@, 0);
            lemma_no_new_prefix(name, suffix, "ORA_"@, "SAP_SESSIONID_"@);
    } else if has_prefix(name, "BIGipServer"@) {
            reveal_strlit("BIGipServer");
            lemma_prefix_of_extension(name, suffix, "BIGipServer"@);
            reveal_strlit("__Secure-");
            lemma_not_prefix_at("__Secure-"@, "BIGipServer"@, 0);
            lemma_no_new_prefix(name, suffix, "BIGipServer"@, "__Secure-"@);
            reveal_strlit("_ga_");
            lemma_not_prefix_at("_ga_"@, "BIGipServer"@, 0);
            lemma_no_new_prefix(name, suffix, "BIGipServer"@, "_ga_"@);
            reveal_strlit("SAP_SESSIONID_");
            lemma_not_prefix_at("SAP_SESSIONID_"@, "BIGipServer"@, 0);
            lemma_no_new_prefix(name, suffix, "BIGipServer"@, "SAP_SESSIONID_"@);
            reveal_strlit("ORA_");
            lemma_not_prefix_at("ORA_"@, "BIGipServer"@, 0);
            lemma_no_new_prefix(name, suffix, "BIGipServer"@, "ORA_"@);
    } else if has_prefix(name, "_hjSessionUser_"@) {
            reveal_strlit("_hjSessionUser_");
            lemma_prefix_of_extension(name, suffix, "_hjSessionUser_"@);
            reveal_strlit("__Secure-");
            lemma_not_prefix_at("__Secure-"@, "_hjSessionUser_"@, 1);
            lemma_no_new_prefix(name, suffix, "_hjSessionUser_"@, "__Secure-"@);
            reveal_strlit("_ga_");
            lemma_not_prefix_at("_ga_"@, "_hjSessionUser_"@, 1);
            lemma_no_new_prefix(name, suffix, "_hjSessionUser_"@, "_ga_"@);
            reveal_strlit("SAP_SESSIONID_");
            lemma_not_prefix_at("SAP_SESSIONID_"@, "_hjSessionUser_"@, 0);
            lemma_no_new_prefix(name, suffix, "_hjSessionUser_"@, "SAP_SESSIONID_"@);
            reveal_strlit("ORA_");
            lemma_not_prefix_at("ORA_"@, "_hjSessionUser_"@, 0);
            lemma_no_new_prefix(name, suffix, "_hjSessionUser_"@, "ORA_"@);
            reveal_strlit("BIGipServer");
            lemma_not_prefix_at("BIGipServer"@, "_hjSessionUser_"@, 0);
            lemma_no_new_prefix(name, suffix, "_hjSessionUser_"@, "BIGipServer"@);
    } else if has_prefix(name, "_hjSession_"@) {
            reveal_strlit("_hjSession_");
            lemma_prefix_of_extension(name, suffix, "_hjSession_"@);
            reveal_strlit("__Secure-");
            lemma_not_prefix_at("__Secure-"@, "_hjSession_"@, 1);
            lemma_no_new_prefix(name, suffix, "_hjSession_"@, "__Secure-"@);
            reveal_strlit("_ga_");
            lemma_not_prefix_at("_ga_"@, "_hjSession_"@, 1);
            lemma_no_new_prefix(name, suffix, "_hjSession_"@, "_ga_"@);
            reveal_strlit("SAP_SESSIONID_");
            lemma_not_prefix_at("SAP_SESSIONID_"@, "_hjSession_"@, 0);
            lemma_no_new_prefix(name, suffix, "_hjSession_"@, "SAP_SESSIONID_"@);
            reveal_strlit("ORA_");
            lemma_not_prefix_at("ORA_"@, "_hjSession_"@, 0);
            lemma_no_new_prefix(name, suffix, "_hjSession_"@, "ORA_"@);
            reveal_strlit("BIGipServer");
            lemma_not_prefix_at("BIGipServer"@, "_hjSession_"@, 0);
            lemma_no_new_prefix(name, suffix, "_hjSession_"@, "BIGipServer"@);
            reveal_strlit("_hjSessionUser_");
            lemma_not_prefix_at("_hjSessionUser_"@, "_hjSession_"@, 10);
            lemma_no_new_prefix(name, suffix, "_hjSession_"@, "_hjSessionUser_"@);
    } else if has_prefix(name, "intercom-id-"@) {
            reveal_strlit("intercom-id-");
            lemma_prefix_of_extension(name, suffix, "intercom-id-"@);
            reveal_strlit("__Secure-");
            lemma_not_prefix_at("__Secure-"@, "intercom-id-"@, 0);
            lemma_no_new_prefix(name, suffix, "intercom-id-"@, "__Secure-"@);
            reveal_strlit("_ga_");
            lemma_not_prefix_at("_ga_"@, "intercom-id-"@, 0);
            lemma_no_new_prefix(name, suffix, "intercom-id-"@, "_ga_"@);
            reveal_strlit("SAP_SESSIONID_");
            lemma_not_prefix_at("SAP_SESSIONID_"@, "intercom-id-"@, 0);
            lemma_no_new_prefix(name, suffix, "intercom-id-"@, "SAP_SESSIONID_"@);
            reveal_strlit("ORA_");
            lemma_not_prefix_at("ORA_"@, "intercom-id-"@, 0);
            lemma_no_new_prefix(name, suffix, "intercom-id-"@, "ORA_"@);
            reveal_strlit("BIGipServer");
            lemma_not_prefix_at("BIGipServer"@, "intercom-id-"@, 0);
            lemma_no_new_prefix(name, suffix, "intercom-id-"@, "BIGipServer"@);
            reveal_strlit("_hjSessionUser_");
            lemma_not_prefix_at("_hjSessionUser_"@, "intercom-id-"@, 0);
            lemma_no_new_prefix(name, suffix, "intercom-id-"@, "_hjSessionUser_"@);
            reveal_strlit("_hjSession_");
            lemma_not_prefix_at("_hjSession_"@, "intercom-id-"@, 0);
            lemma_no_new_prefix(name, suffix, "intercom-id-"@, "_hjSession_"@);
    } else if has_prefix(name, "intercom-session-"@) {
            reveal_strlit("intercom-session-");
            lemma_prefix_of_extension(name, suffix, "intercom-session-"@);
            reveal_strlit("__Secure-");
            lemma_not_prefix_at("__Secure-"@, "intercom-session-"@, 0);
            lemma_no_new_prefix(name, suffix, "intercom-session-"@, "__Secure-"@);
            reveal_strlit("_ga_");
            lemma_not_prefix_at("_ga_"@, "intercom-session-"@, 0);
            lemma_no_new_prefix(name, suffix, "intercom-session-"@, "_ga_"@);
            reveal_strlit("SAP_SESSIONID_");
            lemma_not_prefix_at("SAP_SESSIONID_"@, "intercom-session-"@, 0);
            lemma_no_new_prefix(name, suffix, "intercom-session-"@, "SAP_SESSIONID_"@);
            reveal_strlit("ORA_");
            lemma_not_prefix_at("ORA_"@, "intercom-session-"@, 0);
            lemma_no_new_prefix(name, suffix, "intercom-session-"@, "ORA_"@);
            reveal_strlit("BIGipServer");
            lemma_not_prefix_at("BIGipServer"@, "intercom-session-"@, 0);
            lemma_no_new_prefix(name, suffix, "intercom-session-"@, "BIGipServer"@);
            reveal_strlit("_hjSessionUser_");
            lemma_not_prefix_at("_hjSessionUser_"@, "intercom-session-"@, 0);
            lemma_no_new_prefix(name, suffix, "intercom-session-"@, "_hjSessionUser_"@);
            reveal_strlit("_hjSession_");
            lemma_not_prefix_at("_hjSession_"@, "intercom-session-"@, 0);
            lemma_no_new_prefix(name, suffix, "intercom-session-"@, "_hjSession_"@);
            reveal_strlit("intercom-id-");
            lemma_not_prefix_at("intercom-id-"@, "intercom-session-"@, 9);
            lemma_no_new_prefix(name, suffix, "intercom-session-"@, "intercom-id-"@);
    } else if has_prefix(name, "wp-settings-"@) {
            reveal_strlit("wp-settings-");
            lemma_prefix_of_extension(name, suffix, "wp-settings-"@);
            reveal_strlit("__Secure-");
            lemma_not_prefix_at("__Secure-"@, "wp-settings-"@, 0);
            lemma_no_new_prefix(name, suffix, "wp-settings-"@, "__Secure-"@);
            reveal_strlit("_ga_");
            lemma_not_prefix_at("_ga_"@, "wp-settings-"@, 0);
            lemma_no_new_prefix(name, suffix, "wp-settings-"@, "_ga_"@);
            reveal_strlit("SAP_SESSIONID_");
            lemma_not_prefix_at("SAP_SESSIONID_"@, "wp-settings-"@, 0);
            lemma_no_new_prefix(name, suffix, "wp-settings-"@, "SAP_SESSIONID_"@);
            reveal_strlit("ORA_");
            lemma_not_prefix_at("ORA_"@, "wp-settings-"@, 0);
            lemma_no_new_prefix(name, suffix, "wp-settings-"@, "ORA_"@);
            reveal_strlit("BIGipServer");
            lemma_not_prefix_at("BIGipServer"@, "wp-settings-"@, 0);
            lemma_no_new_prefix(name, suffix, "wp-settings-"@, "BIGipServer"@);
            reveal_strlit("_hjSessionUser_");
            lemma_not_prefix_at("_hjSessionUser_"@, "wp-settings-"@, 0);
            lemma_no_new_prefix(name, suffix, "wp-settings-"@, "_hjSessionUser_"@);
            reveal_strlit("_hjSession_");
            lemma_not_prefix_at("_hjSession_"@, "wp-settings-"@, 0);
            lemma_no_new_prefix(name, suffix, "wp-settings-"@, "_hjSession_"@);
            reveal_strlit("intercom-id-");
            lemma_not_prefix_at("intercom-id-"@, "wp-settings-"@, 0);
            lemma_no_new_prefix(name, suffix, "wp-settings-"@, "intercom-id-"@);
            reveal_strlit("intercom-session-");
            lemma_not_prefix_at("intercom-session-"@, "wp-settings-"@, 0);
            lemma_no_new_prefix(name, suffix, "wp-settings-"@, "intercom-session-"@);
    } else if has_prefix(name, "wordpress_logged_in_"@) {
            reveal_strlit("wordpress_logged_in_");
            lemma_prefix_of_extension(name, suffix, "wordpress_logged_in_"@);
            reveal_strlit("__Secure-");
            lemma_not_prefix_at("__Secure-"@, "wordpress_logged_in_"@, 0);
            lemma_no_new_prefix(name, suffix, "wordpress_logged_in_"@, "__Secure-"@);
            reveal_strlit("_ga_");
            lemma_not_prefix_at("_ga_"@, "wordpress_logged_in_"@, 0);
            lemma_no_new_prefix(name, suffix, "wordpress_logged_in_"@, "_ga_"@);
            reveal_strlit("SAP_SESSIONID_");
            lemma_not_prefix_at("SAP_SESSIONID_"@, "wordpress_logged_in_"@, 0);
            lemma_no_new_prefix(name, suffix, "wordpress_logged_in_"@, "SAP_SESSIONID_"@);
            reveal_strlit("ORA_");
            lemma_not_prefix_at("ORA_"@, "wordpress_logged_in_"@, 0);
            lemma_no_new_prefix(name, suffix, "wordpress_logged_in_"@, "ORA_"@);
            reveal_strlit("BIGipServer");
            lemma_not_prefix_at("BIGipServer"@, "wordpress_logged_in_"@, 0);
            lemma_no_new_prefix(name, suffix, "wordpress_logged_in_"@, "BIGipServer"@);
            reveal_strlit("_hjSessionUser_");
            lemma_not_prefix_at("_hjSessionUser_"@, "wordpress_logged_in_"@, 0);
            lemma_no_new_prefix(name, suffix, "wordpress_logged_in_"@, "_hjSessionUser_"@);
            reveal_strlit("_hjSession_");
            lemma_not_prefix_at("_hjSession_"@, "wordpress_logged_in_"@, 0);
            lemma_no_new_prefix(name, suffix, "wordpress_logged_in_"@, "_hjSession_"@);
            reveal_strlit("intercom-id-");
            lemma_not_prefix_at("intercom-id-"@, "wordpress_logged_in_"@, 0);
            lemma_no_new_prefix(name, suffix, "wordpress_logged_in_"@, "intercom-id-"@);
            reveal_strlit("intercom-session-");
            lemma_not_prefix_at("intercom-session-"@, "wordpress_logged_in_"@, 0);
            lemma_no_new_prefix(name, suffix, "wordpress_logged_in_"@, "intercom-session-"@);
            reveal_strlit("wp-settings-");
            lemma_not_prefix_at("wp-settings-"@, "wordpress_logged_in_"@, 1);
            lemma_no_new_prefix(name, suffix, "wordpress_logged_in_"@, "wp-settings-"@);
    } else if has_prefix(name, "ajs_"@) {
            reveal_strlit("ajs_");
            lemma_prefix_of_extension(name, suffix, "ajs_"@);
            reveal_strlit("__Secure-");
            lemma_not_prefix_at("__Secure-"@, "ajs_"@, 0);
            lemma_no_new_prefix(name, suffix, "ajs_"@, "__Secure-"@);
            reveal_strlit("_ga_");
            lemma_not_prefix_at("_ga_"@, "ajs_"@, 0);
            lemma_no_new_prefix(name, suffix, "ajs_"@, "_ga_"@);
            reveal_strlit("SAP_SESSIONID_");
            lemma_not_prefix_at("SAP_SESSIONID_"@, "ajs_"@, 0);
            lemma_no_new_prefix(name, suffix, "ajs_"@, "SAP_SESSIONID_"@);
            reveal_strlit("ORA_");
            lemma_not_prefix_at("ORA_"@, "ajs_"@, 0);
            lemma_no_new_prefix(name, suffix, "ajs_"@, "ORA_"@);
            reveal_strlit("BIGipServer");
            lemma_not_prefix_at("BIGipServer"@, "ajs_"@, 0);
            lemma_no_new_prefix(name, suffix, "ajs_"@, "BIGipServer"@);
            reveal_strlit("_hjSessionUser_");
            lemma_not_prefix_at("_hjSessionUser_"@, "ajs_"@, 0);
            lemma_no_new_prefix(name, suffix, "ajs_"@, "_hjSessionUser_"@);
            reveal_strlit("_hjSession_");
            lemma_not_prefix_at("_hjSession_"@, "ajs_"@, 0);
            lemma_no_new_prefix(name, suffix, "ajs_"@, "_hjSession_"@);
            reveal_strlit("intercom-id-");
            lemma_not_prefix_at("intercom-id-"@, "ajs_"@, 0);
            lemma_no_new_prefix(name, suffix, "ajs_"@, "intercom-id-"@);
            reveal_strlit("intercom-session-");
            lemma_not_prefix_at("intercom-session-"@, "ajs_"@, 0);
            lemma_no_new_prefix(name, suffix, "ajs_"@, "intercom-session-"@);
            reveal_strlit("wp-settings-");
            lemma_not_prefix_at("wp-settings-"@, "ajs_"@, 0);
            lemma_no_new_prefix(name, suffix, "ajs_"@, "wp-settings-"@);
            reveal_strlit("wordpress_logged_in_");
            lemma_not_prefix_at("wordpress_logged_in_"@, "ajs_"@, 0);
            lemma_no_new_prefix(name, suffix, "ajs_"@, "wordpress_logged_in_"@);
    }
}


} // verus!
