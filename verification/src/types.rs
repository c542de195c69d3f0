//! The data model: cookies, filter rules, protected-cookie entries,
//! preferences and usage counters.

use vstd::prelude::*;
use crate::text::{chars_eq, chars_end_with, chars_of, chars_start_with, has_prefix, has_suffix, str_eq};

verus! {

/// The characters of an optional string.
pub open spec fn opt_view(o: Option<String>) -> Option<Seq<char>> {
    match o {
        Some(s) => Some(s@),
        None => None,
    }
}

/// A copy of an optional string.
pub fn clone_opt(o: &Option<String>) -> (r: Option<String>)
    ensures
        opt_view(r) == opt_view(*o),
{
    match o {
        Some(s) => Some(s.clone()),
        None => None,
    }
}

/// A cookie as the browser reports it. The expiration date is a number of whole
/// seconds since the UNIX epoch; a cookie without one is a session cookie.
#[derive(Clone, Debug, PartialEq)]
pub struct Cookie {
    pub name: String,
    pub value: String,
    pub domain: String,
    pub path: Option<String>,
    pub expiration_date: Option<i64>,
    pub http_only: bool,
    pub secure: bool,
    pub same_site: Option<String>,
    pub store_id: Option<String>,
}

/// The contents of a [`Cookie`], its strings read as character sequences.
pub struct CookieView {
    pub name: Seq<char>,
    pub value: Seq<char>,
    pub domain: Seq<char>,
    pub path: Option<Seq<char>>,
    pub expiration_date: Option<i64>,
    pub http_only: bool,
    pub secure: bool,
    pub same_site: Option<Seq<char>>,
    pub store_id: Option<Seq<char>>,
}

impl View for Cookie {
    type V = CookieView;

    open spec fn view(&self) -> CookieView {
        CookieView {
            name: self.name@,
            value: self.value@,
            domain: self.domain@,
            path: opt_view(self.path),
            expiration_date: self.expiration_date,
            http_only: self.http_only,
            secure: self.secure,
            same_site: opt_view(self.same_site),
            store_id: opt_view(self.store_id),
        }
    }
}

/// The views of a list of cookies.
pub open spec fn cookies_view(v: Seq<Cookie>) -> Seq<CookieView> {
    v.map_values(|c: Cookie| c@)
}

/// A cookie whose domain starts with a dot is sent to all subdomains; any
/// other cookie is host-only.
pub open spec fn is_host_only_domain(domain: Seq<char>) -> bool {
    !(domain.len() > 0 && domain[0] == '.')
}

/// Whether the characters `v` start with a dot.
pub fn starts_with_dot(v: &[char]) -> (r: bool)
    ensures
        r == (v@.len() > 0 && v@[0] == '.'),
{
    v.len() > 0 && v[0] == '.'
}

impl Cookie {
    /// A copy of the cookie.
    pub fn copy(&self) -> (r: Cookie)
        ensures
            r@ == self@,
    {
        Cookie {
            name: self.name.clone(),
            value: self.value.clone(),
            domain: self.domain.clone(),
            path: clone_opt(&self.path),
            expiration_date: self.expiration_date,
            http_only: self.http_only,
            secure: self.secure,
            same_site: clone_opt(&self.same_site),
            store_id: clone_opt(&self.store_id),
        }
    }

    /// Whether the cookie has expired at time `now` (in seconds since the
    /// epoch). Session cookies never count as expired.
    pub fn is_expired_at(&self, now: i64) -> (r: bool)
        ensures
            r == (self.expiration_date matches Some(e) && e < now),
    {
        match self.expiration_date {
            Some(e) => e < now,
            None => false,
        }
    }

    /// Whether the cookie is host-only: its domain does not start with a dot.
    pub fn is_host_only(&self) -> (r: bool)
        ensures
            r == is_host_only_domain(self.domain@),
    {
        let d = chars_of(self.domain.as_str());
        !starts_with_dot(d.as_slice())
    }

    /// Whether the two cookies hold the same values in every field.
    pub fn same_as(&self, other: &Cookie) -> (r: bool)
        ensures
            r == (self@ == other@),
    {
        str_eq(self.name.as_str(), other.name.as_str()) && str_eq(
            self.value.as_str(),
            other.value.as_str(),
        ) && str_eq(self.domain.as_str(), other.domain.as_str()) && opt_eq(&self.path, &other.path)
            && self.expiration_date == other.expiration_date && self.http_only == other.http_only
            && self.secure == other.secure && opt_eq(&self.same_site, &other.same_site) && opt_eq(
            &self.store_id,
            &other.store_id,
        )
    }
}

/// Whether two optional strings are equal.
pub fn opt_eq(a: &Option<String>, b: &Option<String>) -> (r: bool)
    ensures
        r == (opt_view(*a) == opt_view(*b)),
{
    match (a, b) {
        (Some(x), Some(y)) => str_eq(x.as_str(), y.as_str()),
        (None, None) => true,
        _ => false,
    }
}

/// Whether a filter pattern matches `text`: a leading `*` matches any text
/// that ends with the rest of the pattern, else a trailing `*` any text that
/// starts with the rest, and a pattern without either only the text itself.
pub open spec fn pattern_matches(pattern: Seq<char>, text: Seq<char>) -> bool {
    if pattern.len() > 0 && pattern[0] == '*' {
        has_suffix(text, pattern.drop_first())
    } else if pattern.len() > 0 && pattern.last() == '*' {
        has_prefix(text, pattern.drop_last())
    } else {
        text == pattern
    }
}

/// Whether a filter pattern, given as characters, matches the text `t`.
pub fn pattern_matches_chars(p: &Vec<char>, t: &Vec<char>) -> (r: bool)
    ensures
        r == pattern_matches(p@, t@),
{
    if p.len() > 0 && p[0] == '*' {
        let mut rest: Vec<char> = Vec::new();
        let mut i: usize = 1;
        while i < p.len()
            invariant
                1 <= i <= p.len(),
                rest@ == p@.subrange(1, i as int),
            decreases p.len() - i,
        {
            rest.push(p[i]);
            assert(p@.subrange(1, i + 1) =~= p@.subrange(1, i as int).push(p@[i as int]));
            i = i + 1;
        }
        assert(rest@ =~= p@.drop_first());
        chars_end_with(t.as_slice(), rest.as_slice())
    } else if p.len() > 0 && p[p.len() - 1] == '*' {
        let mut rest: Vec<char> = Vec::new();
        let mut i: usize = 0;
        while i + 1 < p.len()
            invariant
                i + 1 <= p.len(),
                rest@ == p@.take(i as int),
            decreases p.len() - i,
        {
            rest.push(p[i]);
            assert(p@.take(i + 1) =~= p@.take(i as int).push(p@[i as int]));
            i = i + 1;
        }
        assert(rest@ =~= p@.drop_last());
        chars_start_with(t.as_slice(), rest.as_slice())
    } else {
        chars_eq(t.as_slice(), p.as_slice())
    }
}

/// A rule that blocks the cookies it matches.
#[derive(Clone, Debug)]
pub struct Filter {
    pub id: u64,
    pub domain_pattern: String,
    pub name_pattern: Option<String>,
    pub enabled: bool,
}

/// The contents of a [`Filter`].
pub struct FilterView {
    pub id: u64,
    pub domain_pattern: Seq<char>,
    pub name_pattern: Option<Seq<char>>,
    pub enabled: bool,
}

impl View for Filter {
    type V = FilterView;

    open spec fn view(&self) -> FilterView {
        FilterView {
            id: self.id,
            domain_pattern: self.domain_pattern@,
            name_pattern: opt_view(self.name_pattern),
            enabled: self.enabled,
        }
    }
}

/// The views of a list of filters.
pub open spec fn filters_view(v: Seq<Filter>) -> Seq<FilterView> {
    v.map_values(|f: Filter| f@)
}

/// A filter matches a cookie when its domain pattern matches the cookie's
/// domain and, where it has a name pattern, that pattern matches the name.
pub open spec fn filter_matches(f: FilterView, c: CookieView) -> bool {
    &&& pattern_matches(f.domain_pattern, c.domain)
    &&& match f.name_pattern {
        Some(p) => pattern_matches(p, c.name),
        None => true,
    }
}

impl Filter {
    /// A copy of the filter.
    pub fn copy(&self) -> (r: Filter)
        ensures
            r@ == self@,
    {
        Filter {
            id: self.id,
            domain_pattern: self.domain_pattern.clone(),
            name_pattern: clone_opt(&self.name_pattern),
            enabled: self.enabled,
        }
    }

    /// Whether this rule matches `cookie` (whether or not it is enabled).
    pub fn matches(&self, cookie: &Cookie) -> (r: bool)
        ensures
            r == filter_matches(self@, cookie@),
    {
        let dp = chars_of(self.domain_pattern.as_str());
        let d = chars_of(cookie.domain.as_str());
        if !pattern_matches_chars(&dp, &d) {
            return false;
        }
        match &self.name_pattern {
            Some(np) => {
                let p = chars_of(np.as_str());
                let n = chars_of(cookie.name.as_str());
                pattern_matches_chars(&p, &n)
            },
            None => true,
        }
    }
}

/// A cookie, named by name and domain, that is protected from changes.
#[derive(Clone, Debug)]
pub struct ReadOnlyCookie {
    pub name: String,
    pub domain: String,
}

/// The contents of a [`ReadOnlyCookie`].
pub struct ReadOnlyCookieView {
    pub name: Seq<char>,
    pub domain: Seq<char>,
}

impl View for ReadOnlyCookie {
    type V = ReadOnlyCookieView;

    open spec fn view(&self) -> ReadOnlyCookieView {
        ReadOnlyCookieView { name: self.name@, domain: self.domain@ }
    }
}

/// The views of a list of protected-cookie entries.
pub open spec fn read_only_view(v: Seq<ReadOnlyCookie>) -> Seq<ReadOnlyCookieView> {
    v.map_values(|r: ReadOnlyCookie| r@)
}

/// Whether the list names the cookie `name` on `domain`.
pub open spec fn names_cookie(v: Seq<ReadOnlyCookieView>, name: Seq<char>, domain: Seq<char>) -> bool {
    exists|i: int| 0 <= i < v.len() && #[trigger] v[i] == (ReadOnlyCookieView { name, domain })
}

impl ReadOnlyCookie {
    /// A copy of the entry.
    pub fn copy(&self) -> (r: ReadOnlyCookie)
        ensures
            r@ == self@,
    {
        ReadOnlyCookie { name: self.name.clone(), domain: self.domain.clone() }
    }

    /// Whether this entry names the cookie `name` on `domain`.
    pub fn names(&self, name: &str, domain: &str) -> (r: bool)
        ensures
            r == (self@ == (ReadOnlyCookieView { name: name@, domain: domain@ })),
    {
        str_eq(self.domain.as_str(), domain) && str_eq(self.name.as_str(), name)
    }
}

/// Whether `list` holds an entry for the cookie `name` on `domain`.
pub fn list_names(list: &Vec<ReadOnlyCookie>, name: &str, domain: &str) -> (r: bool)
    ensures
        r == names_cookie(read_only_view(list@), name@, domain@),
{
    let mut i: usize = 0;
    while i < list.len()
        invariant
            i <= list.len(),
            forall|j: int|
                0 <= j < i ==> read_only_view(list@)[j] != (ReadOnlyCookieView {
                    name: name@,
                    domain: domain@,
                }),
        decreases list.len() - i,
    {
        if list[i].names(name, domain) {
            assert(read_only_view(list@)[i as int] == (ReadOnlyCookieView {
                name: name@,
                domain: domain@,
            }));
            return true;
        }
        i = i + 1;
    }
    false
}

/// The most entries that the protected-cookie list of the preferences holds.
pub const MAX_PROTECTED_COOKIES: usize = 200;

/// The user's preferences.
#[derive(Clone, Debug)]
pub struct Preferences {
    pub show_alerts: bool,
    pub show_commands_labels: bool,
    pub show_domain: bool,
    pub show_domain_before_name: bool,
    pub show_flag_and_delete_all: bool,
    pub show_context_menu: bool,
    pub refresh_after_submit: bool,
    pub skip_cache_refresh: bool,
    pub use_max_cookie_age: bool,
    /// `0` counts the maximum age in days, `1` in hours.
    pub max_cookie_age_type: i32,
    pub max_cookie_age: u64,
    pub use_custom_locale: bool,
    pub custom_locale: String,
    /// `"json"`, `"netscape"` or `"semicolon"`.
    pub copy_cookies_type: String,
    /// `"domain_alpha"`, `"name_alpha"` or `"expiration"`.
    pub sort_cookies_type: String,
    /// `"light"` or `"dark"`.
    pub theme: String,
    pub protected_cookies: Vec<ReadOnlyCookie>,
}

/// The contents of [`Preferences`].
pub struct PreferencesView {
    pub show_alerts: bool,
    pub show_commands_labels: bool,
    pub show_domain: bool,
    pub show_domain_before_name: bool,
    pub show_flag_and_delete_all: bool,
    pub show_context_menu: bool,
    pub refresh_after_submit: bool,
    pub skip_cache_refresh: bool,
    pub use_max_cookie_age: bool,
    pub max_cookie_age_type: i32,
    pub max_cookie_age: u64,
    pub use_custom_locale: bool,
    pub custom_locale: Seq<char>,
    pub copy_cookies_type: Seq<char>,
    pub sort_cookies_type: Seq<char>,
    pub theme: Seq<char>,
    pub protected_cookies: Seq<ReadOnlyCookieView>,
}

impl View for Preferences {
    type V = PreferencesView;

    open spec fn view(&self) -> PreferencesView {
        PreferencesView {
            show_alerts: self.show_alerts,
            show_commands_labels: self.show_commands_labels,
            show_domain: self.show_domain,
            show_domain_before_name: self.show_domain_before_name,
            show_flag_and_delete_all: self.show_flag_and_delete_all,
            show_context_menu: self.show_context_menu,
            refresh_after_submit: self.refresh_after_submit,
            skip_cache_refresh: self.skip_cache_refresh,
            use_max_cookie_age: self.use_max_cookie_age,
            max_cookie_age_type: self.max_cookie_age_type,
            max_cookie_age: self.max_cookie_age,
            use_custom_locale: self.use_custom_locale,
            custom_locale: self.custom_locale@,
            copy_cookies_type: self.copy_cookies_type@,
            sort_cookies_type: self.sort_cookies_type@,
            theme: self.theme@,
            protected_cookies: read_only_view(self.protected_cookies@),
        }
    }
}

/// The preferences of a new installation.
pub open spec fn default_preferences() -> PreferencesView {
    PreferencesView {
        show_alerts: false,
        show_commands_labels: false,
        show_domain: true,
        show_domain_before_name: true,
        show_flag_and_delete_all: false,
        show_context_menu: true,
        refresh_after_submit: false,
        skip_cache_refresh: true,
        use_max_cookie_age: false,
        max_cookie_age_type: 0,
        max_cookie_age: 1,
        use_custom_locale: false,
        custom_locale: "en"@,
        copy_cookies_type: "json"@,
        sort_cookies_type: "domain_alpha"@,
        theme: "light"@,
        protected_cookies: Seq::empty(),
    }
}

/// The default of a preference that is off unless set.
pub fn default_false() -> (r: bool)
    ensures
        !r,
{
    false
}

/// The default of a preference that is on unless set.
pub fn default_true() -> (r: bool)
    ensures
        r,
{
    true
}

/// The default maximum cookie age: one unit.
pub fn default_one() -> (r: u64)
    ensures
        r == 1,
{
    1
}

/// The default locale, `"en"`.
pub fn default_en() -> (r: String)
    ensures
        r@ == "en"@,
{
    String::from_str("en")
}

/// The default copy format, `"json"`.
pub fn default_json() -> (r: String)
    ensures
        r@ == "json"@,
{
    String::from_str("json")
}

/// The default sort order, `"domain_alpha"`.
pub fn default_domain_alpha() -> (r: String)
    ensures
        r@ == "domain_alpha"@,
{
    String::from_str("domain_alpha")
}

/// The default theme, `"light"`.
pub fn default_system() -> (r: String)
    ensures
        r@ == "light"@,
{
    String::from_str("light")
}

/// The default protected-cookie list: empty.
pub fn default_protected_cookies() -> (r: Vec<ReadOnlyCookie>)
    ensures
        r@.len() == 0,
{
    Vec::new()
}

impl Default for Preferences {
    fn default() -> (r: Preferences)
        ensures
            r@ == default_preferences(),
    {
        let r = Preferences {
            show_alerts: default_false(),
            show_commands_labels: default_false(),
            show_domain: default_true(),
            show_domain_before_name: default_true(),
            show_flag_and_delete_all: default_false(),
            show_context_menu: default_true(),
            refresh_after_submit: default_false(),
            skip_cache_refresh: default_true(),
            use_max_cookie_age: default_false(),
            max_cookie_age_type: 0,
            max_cookie_age: default_one(),
            use_custom_locale: default_false(),
            custom_locale: default_en(),
            copy_cookies_type: default_json(),
            sort_cookies_type: default_domain_alpha(),
            theme: default_system(),
            protected_cookies: default_protected_cookies(),
        };
        assert(read_only_view(r.protected_cookies@) =~= Seq::<ReadOnlyCookieView>::empty());
        r
    }
}

/// Usage counters.
#[derive(Clone, Debug)]
pub struct ExtensionStats {
    pub n_cookies_created: u64,
    pub n_cookies_changed: u64,
    pub n_cookies_deleted: u64,
    pub n_cookies_protected: u64,
    pub n_cookies_flagged: u64,
    pub n_cookies_shortened: u64,
    pub n_popup_clicked: u64,
    pub n_panel_clicked: u64,
    pub n_cookies_imported: u64,
    pub n_cookies_exported: u64,
}

impl Default for ExtensionStats {
    fn default() -> (r: ExtensionStats)
        ensures
            r.n_cookies_created == 0,
            r.n_cookies_changed == 0,
            r.n_cookies_deleted == 0,
            r.n_cookies_protected == 0,
            r.n_cookies_flagged == 0,
            r.n_cookies_shortened == 0,
            r.n_popup_clicked == 0,
            r.n_panel_clicked == 0,
            r.n_cookies_imported == 0,
            r.n_cookies_exported == 0,
    {
        ExtensionStats {
            n_cookies_created: 0,
            n_cookies_changed: 0,
            n_cookies_deleted: 0,
            n_cookies_protected: 0,
            n_cookies_flagged: 0,
            n_cookies_shortened: 0,
            n_popup_clicked: 0,
            n_panel_clicked: 0,
            n_cookies_imported: 0,
            n_cookies_exported: 0,
        }
    }
}

/// The position, in [`counters`], of the counter that `name` designates.
pub open spec fn counter_index(name: Seq<char>) -> Option<int> {
    if name == "created"@ {
        Some(0)
    } else if name == "changed"@ {
        Some(1)
    } else if name == "deleted"@ {
        Some(2)
    } else if name == "protected"@ {
        Some(3)
    } else if name == "flagged"@ {
        Some(4)
    } else if name == "shortened"@ {
        Some(5)
    } else if name == "popup_clicked"@ {
        Some(6)
    } else if name == "panel_clicked"@ {
        Some(7)
    } else if name == "imported"@ {
        Some(8)
    } else if name == "exported"@ {
        Some(9)
    } else {
        None
    }
}

/// The counters, in the order `"created"`, `"changed"`, `"deleted"`,
/// `"protected"`, `"flagged"`, `"shortened"`, `"popup_clicked"`,
/// `"panel_clicked"`, `"imported"`, `"exported"`.
pub open spec fn counters(s: ExtensionStats) -> Seq<u64> {
    seq![
        s.n_cookies_created,
        s.n_cookies_changed,
        s.n_cookies_deleted,
        s.n_cookies_protected,
        s.n_cookies_flagged,
        s.n_cookies_shortened,
        s.n_popup_clicked,
        s.n_panel_clicked,
        s.n_cookies_imported,
        s.n_cookies_exported,
    ]
}

impl ExtensionStats {
    /// Whether the counter that `counter` names can be incremented: it is
    /// below `u64::MAX`, or the name designates no counter.
    pub fn can_increment(&self, counter: &str) -> (r: bool)
        ensures
            r == (counter_index(counter@) matches Some(i) ==> counters(*self)[i] < u64::MAX),
    {
        if str_eq(counter, "created") {
            self.n_cookies_created < u64::MAX
        } else if str_eq(counter, "changed") {
            self.n_cookies_changed < u64::MAX
        } else if str_eq(counter, "deleted") {
            self.n_cookies_deleted < u64::MAX
        } else if str_eq(counter, "protected") {
            self.n_cookies_protected < u64::MAX
        } else if str_eq(counter, "flagged") {
            self.n_cookies_flagged < u64::MAX
        } else if str_eq(counter, "shortened") {
            self.n_cookies_shortened < u64::MAX
        } else if str_eq(counter, "popup_clicked") {
            self.n_popup_clicked < u64::MAX
        } else if str_eq(counter, "panel_clicked") {
            self.n_panel_clicked < u64::MAX
        } else if str_eq(counter, "imported") {
            self.n_cookies_imported < u64::MAX
        } else if str_eq(counter, "exported") {
            self.n_cookies_exported < u64::MAX
        } else {
            true
        }
    }

    /// Adds one to the counter that `counter` names; an unknown name changes
    /// nothing.
    pub fn increment(&mut self, counter: &str)
        requires
            counter_index(counter@) matches Some(i) ==> counters(*old(self))[i] < u64::MAX,
        ensures
            counters(*final(self)) == match counter_index(counter@) {
                Some(i) => counters(*old(self)).update(i, (counters(*old(self))[i] + 1) as u64),
                None => counters(*old(self)),
            },
    {
        if str_eq(counter, "created") {
            self.n_cookies_created = self.n_cookies_created + 1;
        } else if str_eq(counter, "changed") {
            self.n_cookies_changed = self.n_cookies_changed + 1;
        } else if str_eq(counter, "deleted") {
            self.n_cookies_deleted = self.n_cookies_deleted + 1;
        } else if str_eq(counter, "protected") {
            self.n_cookies_protected = self.n_cookies_protected + 1;
        } else if str_eq(counter, "flagged") {
            self.n_cookies_flagged = self.n_cookies_flagged + 1;
        } else if str_eq(counter, "shortened") {
            self.n_cookies_shortened = self.n_cookies_shortened + 1;
        } else if str_eq(counter, "popup_clicked") {
            self.n_popup_clicked = self.n_popup_clicked + 1;
        } else if str_eq(counter, "panel_clicked") {
            self.n_panel_clicked = self.n_panel_clicked + 1;
        } else if str_eq(counter, "imported") {
            self.n_cookies_imported = self.n_cookies_imported + 1;
        } else if str_eq(counter, "exported") {
            self.n_cookies_exported = self.n_cookies_exported + 1;
        }
        assert(counters(*self) =~= match counter_index(counter@) {
            Some(i) => counters(*old(self)).update(i, (counters(*old(self))[i] + 1) as u64),
            None => counters(*old(self)),
        });
    }
}

/// The preferences `p` with the switch that the camel-case key `field`
/// names set to `value`; an unknown key changes nothing.
pub open spec fn with_bool_field(p: PreferencesView, field: Seq<char>, value: bool) -> PreferencesView {
    if field == "showAlerts"@ {
        PreferencesView { show_alerts: value, ..p }
    } else if field == "showCommandsLabels"@ {
        PreferencesView { show_commands_labels: value, ..p }
    } else if field == "showDomain"@ {
        PreferencesView { show_domain: value, ..p }
    } else if field == "showDomainBeforeName"@ {
        PreferencesView { show_domain_before_name: value, ..p }
    } else if field == "showFlagAndDeleteAll"@ {
        PreferencesView { show_flag_and_delete_all: value, ..p }
    } else if field == "showContextMenu"@ {
        PreferencesView { show_context_menu: value, ..p }
    } else if field == "refreshAfterSubmit"@ {
        PreferencesView { refresh_after_submit: value, ..p }
    } else if field == "skipCacheRefresh"@ {
        PreferencesView { skip_cache_refresh: value, ..p }
    } else if field == "useMaxCookieAge"@ {
        PreferencesView { use_max_cookie_age: value, ..p }
    } else if field == "useCustomLocale"@ {
        PreferencesView { use_custom_locale: value, ..p }
    } else {
        p
    }
}

/// The preferences `p` with the text setting that the camel-case key `field`
/// names set to `value`; an unknown key changes nothing.
pub open spec fn with_text_field(p: PreferencesView, field: Seq<char>, value: Seq<char>) -> PreferencesView {
    if field == "customLocale"@ {
        PreferencesView { custom_locale: value, ..p }
    } else if field == "copyCookiesType"@ {
        PreferencesView { copy_cookies_type: value, ..p }
    } else if field == "sortCookiesType"@ {
        PreferencesView { sort_cookies_type: value, ..p }
    } else if field == "theme"@ {
        PreferencesView { theme: value, ..p }
    } else {
        p
    }
}

/// What a click on the protect button did.
#[derive(Clone, Copy, Debug, PartialEq, Eq, Structural)]
pub enum ProtectToggle {
    /// The cookie was protected and no longer is.
    Unprotected,
    /// The cookie was not protected and now is.
    Protected,
    /// The cookie was not protected, and the list is full: nothing changed.
    LimitReached,
}

/// The list without any entry equal to `e`.
pub open spec fn without_entry(v: Seq<ReadOnlyCookieView>, e: ReadOnlyCookieView) -> Seq<ReadOnlyCookieView> {
    v.filter(differs_from(e))
}

/// The test "is not `e`".
pub open spec fn differs_from(e: ReadOnlyCookieView) -> spec_fn(ReadOnlyCookieView) -> bool {
    |x: ReadOnlyCookieView| x != e
}

/// The entries of `list` that do not name the cookie `name` on `domain`.
pub fn list_without(list: &Vec<ReadOnlyCookie>, name: &str, domain: &str) -> (r: Vec<ReadOnlyCookie>)
    ensures
        read_only_view(r@) == without_entry(
            read_only_view(list@),
            ReadOnlyCookieView { name: name@, domain: domain@ },
        ),
{
    let ghost e = ReadOnlyCookieView { name: name@, domain: domain@ };
    let ghost pred = differs_from(e);
    let mut r: Vec<ReadOnlyCookie> = Vec::new();
    let mut i: usize = 0;
    proof {
        assert(read_only_view(list@).take(0) =~= Seq::<ReadOnlyCookieView>::empty());
        reveal_with_fuel(Seq::filter, 1);
        assert(read_only_view(r@) =~= Seq::<ReadOnlyCookieView>::empty());
    }
    while i < list.len()
        invariant
            i <= list.len(),
            pred == differs_from(e),
            e == (ReadOnlyCookieView { name: name@, domain: domain@ }),
            read_only_view(r@) == read_only_view(list@).take(i as int).filter(pred),
        decreases list.len() - i,
    {
        let ghost before = r@;
        proof {
            assert(read_only_view(list@).take(i + 1) =~= read_only_view(list@).take(i as int).push(
                read_only_view(list@)[i as int],
            ));
            read_only_view(list@).take(i as int).lemma_filter_push(
                read_only_view(list@)[i as int],
                pred,
            );
        }
        if !list[i].names(name, domain) {
            r.push(list[i].copy());
            assert(read_only_view(r@) =~= read_only_view(before).push(list@[i as int]@));
        }
        i = i + 1;
    }
    assert(read_only_view(list@).take(i as int) =~= read_only_view(list@));
    r
}

impl Preferences {
    /// A copy of the preferences.
    pub fn clone_all(&self) -> (r: Preferences)
        ensures
            r@ == self@,
    {
        let mut list: Vec<ReadOnlyCookie> = Vec::new();
        let mut i: usize = 0;
        while i < self.protected_cookies.len()
            invariant
                i <= self.protected_cookies.len(),
                read_only_view(list@) == read_only_view(self.protected_cookies@).take(i as int),
            decreases self.protected_cookies.len() - i,
        {
            let ghost before = list@;
            list.push(self.protected_cookies[i].copy());
            assert(read_only_view(list@) =~= read_only_view(before).push(
                self.protected_cookies@[i as int]@,
            ));
            assert(read_only_view(self.protected_cookies@).take(i + 1) =~= read_only_view(
                self.protected_cookies@,
            ).take(i as int).push(self.protected_cookies@[i as int]@));
            i = i + 1;
        }
        assert(read_only_view(self.protected_cookies@).take(i as int) =~= read_only_view(
            self.protected_cookies@,
        ));
        Preferences {
            show_alerts: self.show_alerts,
            show_commands_labels: self.show_commands_labels,
            show_domain: self.show_domain,
            show_domain_before_name: self.show_domain_before_name,
            show_flag_and_delete_all: self.show_flag_and_delete_all,
            show_context_menu: self.show_context_menu,
            refresh_after_submit: self.refresh_after_submit,
            skip_cache_refresh: self.skip_cache_refresh,
            use_max_cookie_age: self.use_max_cookie_age,
            max_cookie_age_type: self.max_cookie_age_type,
            max_cookie_age: self.max_cookie_age,
            use_custom_locale: self.use_custom_locale,
            custom_locale: self.custom_locale.clone(),
            copy_cookies_type: self.copy_cookies_type.clone(),
            sort_cookies_type: self.sort_cookies_type.clone(),
            theme: self.theme.clone(),
            protected_cookies: list,
        }
    }

    /// Sets the switch that the camel-case key `field` names (for example
    /// `"showDomain"`) to `value`; an unknown key changes nothing.
    pub fn set_bool_field(&mut self, field: &str, value: bool)
        ensures
            final(self)@ == with_bool_field(old(self)@, field@, value),
    {
        if str_eq(field, "showAlerts") {
            self.show_alerts = value;
        } else if str_eq(field, "showCommandsLabels") {
            self.show_commands_labels = value;
        } else if str_eq(field, "showDomain") {
            self.show_domain = value;
        } else if str_eq(field, "showDomainBeforeName") {
            self.show_domain_before_name = value;
        } else if str_eq(field, "showFlagAndDeleteAll") {
            self.show_flag_and_delete_all = value;
        } else if str_eq(field, "showContextMenu") {
            self.show_context_menu = value;
        } else if str_eq(field, "refreshAfterSubmit") {
            self.refresh_after_submit = value;
        } else if str_eq(field, "skipCacheRefresh") {
            self.skip_cache_refresh = value;
        } else if str_eq(field, "useMaxCookieAge") {
            self.use_max_cookie_age = value;
        } else if str_eq(field, "useCustomLocale") {
            self.use_custom_locale = value;
        }
    }

    /// Sets the text setting that the camel-case key `field` names (for
    /// example `"theme"`) to `value`; an unknown key changes nothing.
    pub fn set_string_field(&mut self, field: &str, value: String)
        ensures
            final(self)@ == with_text_field(old(self)@, field@, value@),
    {
        if str_eq(field, "customLocale") {
            self.custom_locale = value;
        } else if str_eq(field, "copyCookiesType") {
            self.copy_cookies_type = value;
        } else if str_eq(field, "sortCookiesType") {
            self.sort_cookies_type = value;
        } else if str_eq(field, "theme") {
            self.theme = value;
        }
    }

    /// Whether the cookie `name` on `domain` is in the protected list.
    pub fn is_protected(&self, name: &str, domain: &str) -> (r: bool)
        ensures
            r == names_cookie(read_only_view(self.protected_cookies@), name@, domain@),
    {
        list_names(&self.protected_cookies, name, domain)
    }

    /// Toggles the protection of the cookie `name` on `domain`: a protected
    /// cookie loses every entry that names it; an unprotected one gains an
    /// entry at the end, unless the list already holds
    /// [`MAX_PROTECTED_COOKIES`] entries.
    pub fn toggle_protected(&mut self, name: &str, domain: &str) -> (r: ProtectToggle)
        ensures
            ({
                let e = ReadOnlyCookieView { name: name@, domain: domain@ };
                let before = read_only_view(old(self).protected_cookies@);
                if names_cookie(before, name@, domain@) {
                    &&& r == ProtectToggle::Unprotected
                    &&& final(self)@ == (PreferencesView {
                        protected_cookies: without_entry(before, e),
                        ..old(self)@
                    })
                } else if before.len() >= MAX_PROTECTED_COOKIES {
                    &&& r == ProtectToggle::LimitReached
                    &&& final(self)@ == old(self)@
                } else {
                    &&& r == ProtectToggle::Protected
                    &&& final(self)@ == (PreferencesView {
                        protected_cookies: before.push(e),
                        ..old(self)@
                    })
                }
            }),
    {
        if list_names(&self.protected_cookies, name, domain) {
            let kept = list_without(&self.protected_cookies, name, domain);
            self.protected_cookies = kept;
            ProtectToggle::Unprotected
        } else if self.protected_cookies.len() >= MAX_PROTECTED_COOKIES {
            ProtectToggle::LimitReached
        } else {
            let ghost before = self.protected_cookies@;
            self.protected_cookies.push(
                ReadOnlyCookie { name: String::from_str(name), domain: String::from_str(domain) },
            );
            assert(read_only_view(self.protected_cookies@) =~= read_only_view(before).push(
                ReadOnlyCookieView { name: name@, domain: domain@ },
            ));
            ProtectToggle::Protected
        }
    }
}

} // verus!
