//! The rules that the background worker enforces: filters that block cookies,
//! protected cookies, and the cap on cookie lifetimes; and the edits of the
//! filter and protection lists.

use vstd::prelude::*;
use crate::text::{decimal, push_decimal, push_str, utf8_len};
use crate::types::{
    Cookie, CookieView, ExtensionStats, Filter, FilterView, Preferences, ReadOnlyCookie, ReadOnlyCookieView,
    filter_matches, filters_view, list_names, list_without, names_cookie, read_only_view,
    without_entry,
};

verus! {

/// The byte length of a string, as `str::len` reports it.
pub open spec fn byte_len(s: Seq<char>) -> usize {
    utf8_len(s) as usize
}

/// Some enabled filter of the list matches the cookie.
pub open spec fn blocked_by(filters: Seq<FilterView>, c: CookieView) -> bool {
    exists|i: int| 0 <= i < filters.len() && #[trigger] filters[i].enabled && filter_matches(filters[i], c)
}

/// Whether an enabled filter of `filters` matches `cookie`.
pub fn matches_filter(filters: &Vec<Filter>, cookie: &Cookie) -> (r: bool)
    ensures
        r == blocked_by(filters_view(filters@), cookie@),
{
    let mut i: usize = 0;
    while i < filters.len()
        invariant
            i <= filters.len(),
            forall|j: int|
                0 <= j < i ==> !(#[trigger] filters_view(filters@)[j].enabled && filter_matches(
                    filters_view(filters@)[j],
                    cookie@,
                )),
        decreases filters.len() - i,
    {
        if filters[i].enabled && filters[i].matches(cookie) {
            assert(filters_view(filters@)[i as int] == filters@[i as int]@);
            assert(filters_view(filters@)[i as int].enabled && filter_matches(
                filters_view(filters@)[i as int],
                cookie@,
            ));
            return true;
        }
        assert(filters_view(filters@)[i as int] == filters@[i as int]@);
        i = i + 1;
    }
    false
}

/// Whether `cookie` is protected: the read-only list, or the protected list of
/// the preferences, names it by name and domain.
pub fn is_read_only(read_only: &Vec<ReadOnlyCookie>, prefs: &Preferences, cookie: &Cookie) -> (r: bool)
    ensures
        r == (names_cookie(read_only_view(read_only@), cookie.name@, cookie.domain@) || names_cookie(
            read_only_view(prefs.protected_cookies@),
            cookie.name@,
            cookie.domain@,
        )),
{
    list_names(read_only, cookie.name.as_str(), cookie.domain.as_str()) || list_names(
        &prefs.protected_cookies,
        cookie.name.as_str(),
        cookie.domain.as_str(),
    )
}

/// The number of seconds in one unit of the maximum cookie age: an hour where
/// the unit type is `1`, else a day.
pub open spec fn age_unit_seconds(age_type: i32) -> int {
    if age_type == 1 {
        3600
    } else {
        86400
    }
}

/// The latest expiration that the age limit allows at time `now`.
pub open spec fn latest_allowed_expiry(p: Preferences, now: i64) -> int {
    now + p.max_cookie_age * age_unit_seconds(p.max_cookie_age_type)
}

/// The expiration that the age limit gives the cookie at time `now`, where it
/// shortens it: the limit is on, the cookie is persistent, and it expires
/// after the latest allowed time.
pub open spec fn shortened_expiry(c: CookieView, p: Preferences, now: i64) -> Option<int> {
    if !p.use_max_cookie_age {
        None
    } else {
        match c.expiration_date {
            None => None,
            Some(e) => if e > latest_allowed_expiry(p, now) {
                Some(latest_allowed_expiry(p, now))
            } else {
                None
            },
        }
    }
}

/// Where the age limit of `prefs` applies to `cookie` at time `now` (seconds
/// since the epoch), a copy of the cookie that expires at the latest allowed
/// time; `None` where nothing is to be shortened.
pub fn maybe_shorten(cookie: &Cookie, prefs: &Preferences, now: i64) -> (r: Option<Cookie>)
    ensures
        match shortened_expiry(cookie@, *prefs, now) {
            None => r is None,
            Some(e) => r matches Some(s) && s@ == (CookieView {
                expiration_date: Some(e as i64),
                ..cookie@
            }) && s.expiration_date == Some(e as i64),
        },
{
    if !prefs.use_max_cookie_age {
        return None;
    }
    let exp = match cookie.expiration_date {
        Some(e) => e,
        None => {
            return None;
        },
    };
    let unit: i128 = if prefs.max_cookie_age_type == 1 {
        3600
    } else {
        86400
    };
    assert(prefs.max_cookie_age * unit <= 0xffff_ffff_ffff_ffff * 86400) by (nonlinear_arith)
        requires
            prefs.max_cookie_age <= 0xffff_ffff_ffff_ffff,
            0 <= unit <= 86400,
    ;
    let max_exp: i128 = now as i128 + prefs.max_cookie_age as i128 * unit;
    if exp as i128 > max_exp {
        let mut shortened = cookie.copy();
        shortened.expiration_date = Some(max_exp as i64);
        Some(shortened)
    } else {
        None
    }
}

/// The longest filter pattern, in bytes.
pub const MAX_PATTERN_LEN: usize = 253;

/// The most filters that are kept.
pub const MAX_FILTERS: usize = 100;

/// Why a filter could not be added.
#[derive(Clone, Copy, Debug, PartialEq, Eq, Structural)]
pub enum FilterError {
    /// The domain pattern is longer than [`MAX_PATTERN_LEN`] bytes.
    DomainPatternTooLong { len: usize },
    /// The name pattern is longer than [`MAX_PATTERN_LEN`] bytes.
    NamePatternTooLong { len: usize },
    /// There are already [`MAX_FILTERS`] filters.
    LimitReached { count: usize },
}

/// The message of a filter error.
pub open spec fn filter_error_message(e: FilterError) -> Seq<char> {
    match e {
        FilterError::DomainPatternTooLong { len } => "Domain pattern too long ("@ + decimal(len as nat)
            + " chars, max "@ + decimal(MAX_PATTERN_LEN as nat) + ")"@,
        FilterError::NamePatternTooLong { len } => "Name pattern too long ("@ + decimal(len as nat)
            + " chars, max "@ + decimal(MAX_PATTERN_LEN as nat) + ")"@,
        FilterError::LimitReached { count } => "Filter limit reached ("@ + decimal(count as nat) + ", max "@
            + decimal(MAX_FILTERS as nat) + "). Remove some before adding more."@,
    }
}

impl FilterError {
    /// The error's message.
    pub fn message(&self) -> (r: String)
        ensures
            r@ == filter_error_message(*self),
    {
        let mut r = String::new();
        match self {
            FilterError::DomainPatternTooLong { len } => {
                push_str(&mut r, "Domain pattern too long (");
                push_decimal(&mut r, *len as u64);
                push_str(&mut r, " chars, max ");
                push_decimal(&mut r, MAX_PATTERN_LEN as u64);
                push_str(&mut r, ")");
            },
            FilterError::NamePatternTooLong { len } => {
                push_str(&mut r, "Name pattern too long (");
                push_decimal(&mut r, *len as u64);
                push_str(&mut r, " chars, max ");
                push_decimal(&mut r, MAX_PATTERN_LEN as u64);
                push_str(&mut r, ")");
            },
            FilterError::LimitReached { count } => {
                push_str(&mut r, "Filter limit reached (");
                push_decimal(&mut r, *count as u64);
                push_str(&mut r, ", max ");
                push_decimal(&mut r, MAX_FILTERS as u64);
                push_str(&mut r, "). Remove some before adding more.");
            },
        }
        assert(r@ =~= filter_error_message(*self));
        r
    }
}

/// The largest id of the filters, or `0` where there are none.
pub open spec fn max_filter_id(s: Seq<FilterView>) -> u64
    decreases s.len(),
{
    if s.len() == 0 {
        0
    } else if s.last().id > max_filter_id(s.drop_last()) {
        s.last().id
    } else {
        max_filter_id(s.drop_last())
    }
}

/// No filter id is above the largest.
pub proof fn lemma_max_filter_id(s: Seq<FilterView>, i: int)
    requires
        0 <= i < s.len(),
    ensures
        s[i].id <= max_filter_id(s),
    decreases s.len(),
{
    if i < s.len() - 1 {
        lemma_max_filter_id(s.drop_last(), i);
    }
}

/// The error, if any, of adding a filter with these patterns to a list of
/// `count` filters.
pub open spec fn add_filter_error(domain_pattern: Seq<char>, name_pattern: Option<Seq<char>>, count: nat) -> Option<FilterError> {
    if byte_len(domain_pattern) > MAX_PATTERN_LEN {
        Some(FilterError::DomainPatternTooLong { len: byte_len(domain_pattern) })
    } else if name_pattern matches Some(np) && byte_len(np) > MAX_PATTERN_LEN {
        Some(FilterError::NamePatternTooLong { len: byte_len(name_pattern->0) })
    } else if count >= MAX_FILTERS {
        Some(FilterError::LimitReached { count: count as usize })
    } else {
        None
    }
}

/// The largest id of the filters, or `0` where there are none.
fn largest_id(filters: &Vec<Filter>) -> (r: u64)
    ensures
        r == max_filter_id(filters_view(filters@)),
{
    let mut m: u64 = 0;
    let mut i: usize = 0;
    proof {
        assert(filters_view(filters@).take(0) =~= Seq::<FilterView>::empty());
    }
    while i < filters.len()
        invariant
            i <= filters.len(),
            m == max_filter_id(filters_view(filters@).take(i as int)),
        decreases filters.len() - i,
    {
        proof {
            assert(filters_view(filters@).take(i + 1).drop_last() =~= filters_view(filters@).take(
                i as int,
            ));
        }
        if filters[i].id > m {
            m = filters[i].id;
        }
        i = i + 1;
    }
    proof {
        assert(filters_view(filters@).take(i as int) =~= filters_view(filters@));
    }
    m
}

/// Whether adding a filter with these patterns to `filters` is defined: where
/// it would be added, the largest id in use is below `u64::MAX`.
pub fn can_add_filter(filters: &Vec<Filter>, domain_pattern: &String, name_pattern: &Option<String>) -> (r: bool)
    ensures
        r == (add_filter_error(domain_pattern@, crate::types::opt_view(*name_pattern), filters@.len()) is None
            ==> max_filter_id(filters_view(filters@)) < u64::MAX),
{
    let dlen = domain_pattern.as_str().len();
    let too_long = dlen > MAX_PATTERN_LEN || match name_pattern {
        Some(np) => np.as_str().len() > MAX_PATTERN_LEN,
        None => false,
    };
    if too_long || filters.len() >= MAX_FILTERS {
        return true;
    }
    largest_id(filters) < u64::MAX
}

/// Adds an enabled filter with the given patterns to the end of `filters`,
/// with the id one above the largest id in use (`1` for the first filter).
/// Nothing is added where a pattern is longer than [`MAX_PATTERN_LEN`] bytes
/// or the list already holds [`MAX_FILTERS`] filters.
pub fn add_filter(filters: &mut Vec<Filter>, domain_pattern: String, name_pattern: Option<String>) -> (r: Result<(), FilterError>)
    requires
        add_filter_error(domain_pattern@, crate::types::opt_view(name_pattern), old(filters)@.len())
            is None ==> max_filter_id(filters_view(old(filters)@)) < u64::MAX,
    ensures
        match add_filter_error(domain_pattern@, crate::types::opt_view(name_pattern), old(filters)@.len()) {
            Some(e) => r == Err::<(), FilterError>(e) && final(filters)@ == old(filters)@,
            None => r is Ok && filters_view(final(filters)@) == filters_view(old(filters)@).push(
                FilterView {
                    id: (max_filter_id(filters_view(old(filters)@)) + 1) as u64,
                    domain_pattern: domain_pattern@,
                    name_pattern: crate::types::opt_view(name_pattern),
                    enabled: true,
                },
            ),
        },
{
    let dlen = domain_pattern.as_str().len();
    if dlen > MAX_PATTERN_LEN {
        return Err(FilterError::DomainPatternTooLong { len: dlen });
    }
    match &name_pattern {
        Some(np) => {
            let nlen = np.as_str().len();
            if nlen > MAX_PATTERN_LEN {
                return Err(FilterError::NamePatternTooLong { len: nlen });
            }
        },
        None => {},
    }
    if filters.len() >= MAX_FILTERS {
        return Err(FilterError::LimitReached { count: filters.len() });
    }
    let new_id = largest_id(filters) + 1;
    let ghost before = filters@;
    filters.push(Filter { id: new_id, domain_pattern, name_pattern, enabled: true });
    assert(filters_view(filters@) =~= filters_view(before).push(filters@[filters@.len() - 1]@));
    Ok(())
}

/// The test "has an id other than `id`".
pub open spec fn id_differs(id: u64) -> spec_fn(FilterView) -> bool {
    |f: FilterView| f.id != id
}

/// Removes every filter whose id is `filter_id`.
pub fn remove_filter(filters: &mut Vec<Filter>, filter_id: u64)
    ensures
        filters_view(final(filters)@) == filters_view(old(filters)@).filter(id_differs(filter_id)),
{
    let ghost pred = id_differs(filter_id);
    let ghost s = filters_view(filters@);
    let mut kept: Vec<Filter> = Vec::new();
    let mut i: usize = 0;
    proof {
        reveal_with_fuel(Seq::filter, 1);
        assert(s.take(0) =~= Seq::<FilterView>::empty());
        assert(filters_view(kept@) =~= Seq::<FilterView>::empty());
    }
    while i < filters.len()
        invariant
            i <= filters.len(),
            s == filters_view(filters@),
            pred == id_differs(filter_id),
            filters_view(kept@) == s.take(i as int).filter(pred),
        decreases filters.len() - i,
    {
        proof {
            assert(s.take(i + 1) =~= s.take(i as int).push(s[i as int]));
            s.take(i as int).lemma_filter_push(s[i as int], pred);
        }
        if filters[i].id != filter_id {
            let ghost before = kept@;
            kept.push(filters[i].copy());
            assert(filters_view(kept@) =~= filters_view(before).push(s[i as int]));
        }
        i = i + 1;
    }
    assert(s.take(i as int) =~= s);
    *filters = kept;
}

/// The position of the first filter with id `id`, if any.
pub open spec fn first_with_id(s: Seq<FilterView>, id: u64) -> Option<int> {
    if exists|i: int| 0 <= i < s.len() && #[trigger] s[i].id == id {
        Some(choose|i: int| 0 <= i < s.len() && #[trigger] s[i].id == id && forall|j: int| 0 <= j < i ==> s[j].id != id)
    } else {
        None
    }
}

/// Where some filter has id `id`, the first one does, and it is no later.
pub proof fn lemma_first_with_id(s: Seq<FilterView>, id: u64, k: int)
    requires
        0 <= k < s.len(),
        s[k].id == id,
    ensures
        first_with_id(s, id) matches Some(i) && 0 <= i <= k && s[i].id == id && forall|j: int|
            0 <= j < i ==> s[j].id != id,
    decreases k,
{
    if exists|j: int| 0 <= j < k && #[trigger] s[j].id == id {
        let j = choose|j: int| 0 <= j < k && #[trigger] s[j].id == id;
        lemma_first_with_id(s, id, j);
    } else {
        let i = choose|i: int|
            0 <= i < s.len() && #[trigger] s[i].id == id && forall|j: int| 0 <= j < i ==> s[j].id != id;
        assert(0 <= k < s.len() && s[k].id == id && forall|j: int| 0 <= j < k ==> s[j].id != id);
        if i > k {
            assert(s[k].id != id);
        }
    }
}

/// Switches the first filter whose id is `filter_id` on or off.
pub fn toggle_filter(filters: &mut Vec<Filter>, filter_id: u64)
    ensures
        match first_with_id(filters_view(old(filters)@), filter_id) {
            Some(i) => filters_view(final(filters)@) == filters_view(old(filters)@).update(
                i,
                FilterView { enabled: !filters_view(old(filters)@)[i].enabled, ..filters_view(old(filters)@)[i] },
            ),
            None => filters_view(final(filters)@) == filters_view(old(filters)@),
        },
{
    let ghost s = filters_view(filters@);
    let mut i: usize = 0;
    while i < filters.len()
        invariant
            i <= filters.len(),
            s == filters_view(filters@),
            filters@ == old(filters)@,
            forall|j: int| 0 <= j < i ==> s[j].id != filter_id,
        decreases filters.len() - i,
    {
        if filters[i].id == filter_id {
            let mut f = filters[i].copy();
            f.enabled = !f.enabled;
            assert(f@ == (FilterView { enabled: !s[i as int].enabled, ..s[i as int] }));
            filters.set(i, f);
            proof {
                assert(s[i as int].id == filter_id);
                let k = choose|k: int|
                    0 <= k < s.len() && #[trigger] s[k].id == filter_id && forall|j: int|
                        0 <= j < k ==> s[j].id != filter_id;
                if k < i {
                    assert(s[k].id != filter_id);
                } else if k > i {
                    assert(s[i as int].id != filter_id);
                }
                assert(k == i);
                assert(first_with_id(s, filter_id) == Some(i as int));
                assert(filters_view(filters@) =~= s.update(
                    i as int,
                    FilterView { enabled: !s[i as int].enabled, ..s[i as int] },
                ));
            }
            return;
        }
        i = i + 1;
    }
}

/// Adds the cookie `name` on `domain` to the read-only list unless the list
/// names it already; returns whether it was added.
pub fn add_read_only(read_only: &mut Vec<ReadOnlyCookie>, name: String, domain: String) -> (r: bool)
    ensures
        r == !names_cookie(read_only_view(old(read_only)@), name@, domain@),
        r ==> read_only_view(final(read_only)@) == read_only_view(old(read_only)@).push(
            ReadOnlyCookieView { name: name@, domain: domain@ },
        ),
        !r ==> final(read_only)@ == old(read_only)@,
{
    if list_names(read_only, name.as_str(), domain.as_str()) {
        false
    } else {
        let ghost before = read_only@;
        let ghost e = ReadOnlyCookieView { name: name@, domain: domain@ };
        read_only.push(ReadOnlyCookie { name, domain });
        assert(read_only_view(read_only@) =~= read_only_view(before).push(e));
        true
    }
}

/// Adds the cookie `name` on `domain` to the read-only list, as
/// [`add_read_only`] does, and counts it in the protected counter of `stats`
/// where it was added; where the list names it already, neither changes.
/// Returns whether it was added.
pub fn protect_read_only(
    read_only: &mut Vec<ReadOnlyCookie>,
    stats: &mut ExtensionStats,
    name: String,
    domain: String,
) -> (r: bool)
    requires
        !names_cookie(read_only_view(old(read_only)@), name@, domain@) ==> old(stats).n_cookies_protected
            < u64::MAX,
    ensures
        r == !names_cookie(read_only_view(old(read_only)@), name@, domain@),
        r ==> read_only_view(final(read_only)@) == read_only_view(old(read_only)@).push(
            ReadOnlyCookieView { name: name@, domain: domain@ },
        ),
        r ==> *final(stats) == (ExtensionStats {
            n_cookies_protected: (old(stats).n_cookies_protected + 1) as u64,
            ..*old(stats)
        }),
        !r ==> final(read_only)@ == old(read_only)@ && *final(stats) == *old(stats),
{
    let added = add_read_only(read_only, name, domain);
    if added {
        stats.n_cookies_protected = stats.n_cookies_protected + 1;
    }
    added
}

/// Removes every entry of the read-only list that names the cookie `name` on
/// `domain`.
pub fn remove_read_only(read_only: &mut Vec<ReadOnlyCookie>, name: &str, domain: &str)
    ensures
        read_only_view(final(read_only)@) == without_entry(
            read_only_view(old(read_only)@),
            ReadOnlyCookieView { name: name@, domain: domain@ },
        ),
{
    let kept = list_without(read_only, name, domain);
    *read_only = kept;
}

} // verus!
