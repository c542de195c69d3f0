//! What is stored, and the checks and normalisation applied on the way in:
//! preferences, the filter/protection/statistics records, and the user's own
//! cookie descriptions.

use vstd::prelude::*;
use crate::known_cookies::{known_description, lookup};
use crate::text::{
    decimal, push_decimal,
    chars_of, is_boundary, lemma_byte_prefix, push_str, str_eq, string_from_chars, truncate_chars,
    truncated, utf8_len,
};
use crate::types::{ExtensionStats, Preferences, PreferencesView};

verus! {

/// The storage key of the preferences.
pub const PREFERENCES_KEY: &'static str = "preferences";

/// The storage key of the usage counters.
pub const STATS_KEY: &'static str = "stats";

/// The storage key of the user's cookie descriptions.
pub const CUSTOM_DESCRIPTIONS_KEY: &'static str = "custom_cookie_descriptions";

/// The prefix of the storage keys of the data records.
pub const DATA_PREFIX: &'static str = "data_";

/// Stored data records: the filters and the read-only list, under keys made of
/// [`DATA_PREFIX`] and the record's name, and the usage counters.
pub struct DataStorage;

impl DataStorage {
    /// The storage key of the data record `name`.
    pub fn key(name: &str) -> (r: String)
        ensures
            r@ == DATA_PREFIX@ + name@,
    {
        let mut r = String::new();
        push_str(&mut r, DATA_PREFIX);
        push_str(&mut r, name);
        assert(r@ =~= DATA_PREFIX@ + name@);
        r
    }

    /// The storage key of the filters.
    pub fn filters_key() -> (r: String)
        ensures
            r@ == DATA_PREFIX@ + "filters"@,
    {
        DataStorage::key("filters")
    }

    /// The storage key of the read-only list.
    pub fn read_only_key() -> (r: String)
        ensures
            r@ == DATA_PREFIX@ + "readOnly"@,
    {
        DataStorage::key("readOnly")
    }
}

/// The longest custom locale that is stored, in bytes.
pub const MAX_LOCALE_LEN: usize = 10;

/// The largest maximum cookie age that is stored.
pub const MAX_COOKIE_AGE: u64 = 36500;

/// The themes that can be stored.
pub open spec fn valid_theme(t: Seq<char>) -> bool {
    t == "light"@ || t == "dark"@
}

/// The copy formats that can be stored.
pub open spec fn valid_copy_type(t: Seq<char>) -> bool {
    t == "json"@ || t == "netscape"@ || t == "semicolon"@
}

/// The sort orders that can be stored.
pub open spec fn valid_sort_type(t: Seq<char>) -> bool {
    t == "domain_alpha"@ || t == "name_alpha"@ || t == "expiration"@
}

/// The preferences as they are stored: an unknown theme becomes `"light"`, an
/// unknown copy format `"json"`, an unknown sort order `"domain_alpha"`, the
/// locale is cut to its first ten bytes, and the maximum age is capped.
pub open spec fn sanitized_preferences(p: PreferencesView) -> PreferencesView {
    PreferencesView {
        theme: if valid_theme(p.theme) {
            p.theme
        } else {
            "light"@
        },
        copy_cookies_type: if valid_copy_type(p.copy_cookies_type) {
            p.copy_cookies_type
        } else {
            "json"@
        },
        sort_cookies_type: if valid_sort_type(p.sort_cookies_type) {
            p.sort_cookies_type
        } else {
            "domain_alpha"@
        },
        custom_locale: truncated(p.custom_locale, MAX_LOCALE_LEN as int),
        max_cookie_age: if p.max_cookie_age > MAX_COOKIE_AGE {
            MAX_COOKIE_AGE
        } else {
            p.max_cookie_age
        },
        ..p
    }
}

/// The locale can be cut at its tenth byte: it is short enough already, or
/// its tenth byte ends a character.
pub open spec fn locale_can_be_cut(locale: Seq<char>) -> bool {
    utf8_len(locale) <= MAX_LOCALE_LEN || is_boundary(locale, MAX_LOCALE_LEN as int)
}

/// Stored preferences: always read and written as one whole object.
pub struct PreferencesStorage;

impl PreferencesStorage {
    /// Whether `prefs` can be stored: its locale can be cut at its tenth byte.
    pub fn can_store(prefs: &Preferences) -> (r: bool)
        ensures
            r == locale_can_be_cut(prefs.custom_locale@),
    {
        let v = chars_of(prefs.custom_locale.as_str());
        truncate_chars(v.as_slice(), MAX_LOCALE_LEN).is_some()
    }

    /// The preferences that writing `prefs` stores.
    pub fn sanitized(prefs: &Preferences) -> (r: Preferences)
        requires
            locale_can_be_cut(prefs.custom_locale@),
        ensures
            r@ == sanitized_preferences(prefs@),
    {
        let mut s = prefs.clone_all();
        let theme = stored_theme(&prefs.theme);
        let copy_type = stored_copy_type(&prefs.copy_cookies_type);
        let sort_type = stored_sort_type(&prefs.sort_cookies_type);
        let locale = stored_locale(&prefs.custom_locale);
        let age = if prefs.max_cookie_age > MAX_COOKIE_AGE {
            MAX_COOKIE_AGE
        } else {
            prefs.max_cookie_age
        };
        s.theme = theme;
        s.copy_cookies_type = copy_type;
        s.sort_cookies_type = sort_type;
        s.custom_locale = locale;
        s.max_cookie_age = age;
        s
    }
}

/// The theme that is stored for `t`.
fn stored_theme(t: &String) -> (r: String)
    ensures
        r@ == (if valid_theme(t@) { t@ } else { "light"@ }),
{
    if str_eq(t.as_str(), "light") || str_eq(t.as_str(), "dark") {
        t.clone()
    } else {
        String::from_str("light")
    }
}

/// The copy format that is stored for `t`.
fn stored_copy_type(t: &String) -> (r: String)
    ensures
        r@ == (if valid_copy_type(t@) { t@ } else { "json"@ }),
{
    if str_eq(t.as_str(), "json") || str_eq(t.as_str(), "netscape") || str_eq(
        t.as_str(),
        "semicolon",
    ) {
        t.clone()
    } else {
        String::from_str("json")
    }
}

/// The sort order that is stored for `t`.
fn stored_sort_type(t: &String) -> (r: String)
    ensures
        r@ == (if valid_sort_type(t@) { t@ } else { "domain_alpha"@ }),
{
    if str_eq(t.as_str(), "domain_alpha") || str_eq(t.as_str(), "name_alpha") || str_eq(
        t.as_str(),
        "expiration",
    ) {
        t.clone()
    } else {
        String::from_str("domain_alpha")
    }
}

/// The locale that is stored for `t`.
fn stored_locale(t: &String) -> (r: String)
    requires
        locale_can_be_cut(t@),
    ensures
        r@ == truncated(t@, MAX_LOCALE_LEN as int),
{
    let v = chars_of(t.as_str());
    match truncate_chars(v.as_slice(), MAX_LOCALE_LEN) {
        Some(c) => string_from_chars(c.as_slice()),
        None => t.clone(),
    }
}

/// The most custom descriptions that are stored.
pub const MAX_CUSTOM_DESCRIPTIONS: usize = 500;

/// The description pairs as character sequences.
pub open spec fn pair_views(v: Seq<(String, String)>) -> Seq<(Seq<char>, Seq<char>)> {
    v.map_values(|p: (String, String)| (p.0@, p.1@))
}

/// The map that a list of (name, description) pairs describes; a later pair
/// overrides an earlier one with the same name.
pub open spec fn pairs_map(s: Seq<(Seq<char>, Seq<char>)>) -> Map<Seq<char>, Seq<char>>
    decreases s.len(),
{
    if s.len() == 0 {
        Map::empty()
    } else {
        pairs_map(s.drop_last()).insert(s.last().0, s.last().1)
    }
}

/// No two pairs share a name.
pub open spec fn names_distinct(s: Seq<(Seq<char>, Seq<char>)>) -> bool {
    forall|i: int, j: int| 0 <= i < j < s.len() ==> #[trigger] s[i].0 != #[trigger] s[j].0
}

/// A name has an entry in the map exactly when some pair carries it.
pub proof fn lemma_pairs_map_dom(s: Seq<(Seq<char>, Seq<char>)>, k: Seq<char>)
    ensures
        pairs_map(s).dom().contains(k) <==> exists|i: int| 0 <= i < s.len() && #[trigger] s[i].0 == k,
    decreases s.len(),
{
    if s.len() > 0 {
        lemma_pairs_map_dom(s.drop_last(), k);
        if pairs_map(s.drop_last()).dom().contains(k) {
            let i = choose|i: int| 0 <= i < s.drop_last().len() && #[trigger] s.drop_last()[i].0 == k;
            assert(s[i].0 == k);
        }
        if exists|i: int| 0 <= i < s.len() && #[trigger] s[i].0 == k {
            let i = choose|i: int| 0 <= i < s.len() && #[trigger] s[i].0 == k;
            if i < s.len() - 1 {
                assert(s.drop_last()[i].0 == k);
            }
        }
    }
}

/// With distinct names, each pair gives the description of its name.
pub proof fn lemma_pairs_map_at(s: Seq<(Seq<char>, Seq<char>)>, i: int)
    requires
        names_distinct(s),
        0 <= i < s.len(),
    ensures
        pairs_map(s).dom().contains(s[i].0),
        pairs_map(s)[s[i].0] == s[i].1,
    decreases s.len(),
{
    if i < s.len() - 1 {
        assert(names_distinct(s.drop_last()));
        assert(s.drop_last()[i] == s[i]);
        lemma_pairs_map_at(s.drop_last(), i);
        assert(s[i].0 != s[s.len() - 1].0);
    }
}

/// With distinct names, the map has one entry per pair.
pub proof fn lemma_pairs_map_len(s: Seq<(Seq<char>, Seq<char>)>)
    requires
        names_distinct(s),
    ensures
        pairs_map(s).dom().finite(),
        pairs_map(s).len() == s.len(),
    decreases s.len(),
{
    if s.len() > 0 {
        let t = s.drop_last();
        assert(names_distinct(t));
        lemma_pairs_map_len(t);
        lemma_pairs_map_dom(t, s.last().0);
        if pairs_map(t).dom().contains(s.last().0) {
            let i = choose|i: int| 0 <= i < t.len() && #[trigger] t[i].0 == s.last().0;
            assert(s[i].0 == s[s.len() - 1].0);
        }
    }
}

/// The user's own cookie descriptions, by cookie name. They take precedence
/// over the built-in dictionary.
pub struct CustomDescriptions {
    entries: Vec<(String, String)>,
}

impl View for CustomDescriptions {
    type V = Map<Seq<char>, Seq<char>>;

    closed spec fn view(&self) -> Map<Seq<char>, Seq<char>> {
        pairs_map(pair_views(self.entries@))
    }
}

/// The description shown for a cookie named `name`: the user's own where
/// there is one, else the built-in one.
pub open spec fn resolved_description(custom: Map<Seq<char>, Seq<char>>, name: Seq<char>) -> Option<
    Seq<char>,
> {
    if custom.dom().contains(name) {
        Some(custom[name])
    } else {
        known_description(name)
    }
}

/// Why the custom descriptions cannot be stored.
#[derive(Clone, Copy, Debug, PartialEq, Eq, Structural)]
pub enum DescriptionsError {
    /// There are more than [`MAX_CUSTOM_DESCRIPTIONS`] of them.
    LimitReached { count: usize },
}

/// The message of a custom-descriptions error.
pub open spec fn descriptions_error_message(e: DescriptionsError) -> Seq<char> {
    match e {
        DescriptionsError::LimitReached { count } => "Custom descriptions limit reached ("@ + decimal(
            count as nat,
        ) + ", max "@ + decimal(MAX_CUSTOM_DESCRIPTIONS as nat) + ")"@,
    }
}

impl DescriptionsError {
    /// The error's message.
    pub fn message(&self) -> (r: String)
        ensures
            r@ == descriptions_error_message(*self),
    {
        let mut r = String::new();
        match self {
            DescriptionsError::LimitReached { count } => {
                push_str(&mut r, "Custom descriptions limit reached (");
                push_decimal(&mut r, *count as u64);
                push_str(&mut r, ", max ");
                push_decimal(&mut r, MAX_CUSTOM_DESCRIPTIONS as u64);
                push_str(&mut r, ")");
            },
        }
        assert(r@ =~= descriptions_error_message(*self));
        r
    }
}

impl CustomDescriptions {
    #[verifier::type_invariant]
    spec fn inv(self) -> bool {
        names_distinct(pair_views(self.entries@))
    }

    /// The table's entries as pairs with distinct names.
    pub closed spec fn pairs(self) -> Seq<(Seq<char>, Seq<char>)> {
        pair_views(self.entries@)
    }

    /// No descriptions.
    pub fn new() -> (r: CustomDescriptions)
        ensures
            r@ == Map::<Seq<char>, Seq<char>>::empty(),
    {
        let r = CustomDescriptions { entries: Vec::new() };
        assert(pair_views(r.entries@) =~= Seq::<(Seq<char>, Seq<char>)>::empty());
        r
    }

    /// The number of cookie names that have a description.
    pub fn len(&self) -> (n: usize)
        ensures
            self@.dom().finite(),
            n == self@.len(),
    {
        proof {
            use_type_invariant(self);
            lemma_pairs_map_len(pair_views(self.entries@));
        }
        self.entries.len()
    }

    /// The user's description of the cookie named `name`, if any.
    pub fn get(&self, name: &str) -> (r: Option<String>)
        ensures
            r matches Some(d) ==> self@.dom().contains(name@) && self@[name@] == d@,
            r is None ==> !self@.dom().contains(name@),
    {
        proof {
            use_type_invariant(self);
        }
        let ghost s = pair_views(self.entries@);
        let mut i: usize = 0;
        while i < self.entries.len()
            invariant
                i <= self.entries.len(),
                s == pair_views(self.entries@),
                names_distinct(s),
                forall|j: int| 0 <= j < i ==> s[j].0 != name@,
            decreases self.entries.len() - i,
        {
            if str_eq(self.entries[i].0.as_str(), name) {
                proof {
                    lemma_pairs_map_at(s, i as int);
                }
                return Some(self.entries[i].1.clone());
            }
            i = i + 1;
        }
        proof {
            lemma_pairs_map_dom(s, name@);
        }
        None
    }

    /// Whether the cookie named `name` has a description of the user's.
    pub fn contains(&self, name: &str) -> (r: bool)
        ensures
            r == self@.dom().contains(name@),
    {
        self.get(name).is_some()
    }

    /// Removes the description of the cookie named `name`.
    pub fn remove(&mut self, name: &str)
        ensures
            final(self)@ == old(self)@.remove(name@),
    {
        proof {
            use_type_invariant(&*self);
        }
        let ghost s = pair_views(self.entries@);
        let mut kept: Vec<(String, String)> = Vec::new();
        let mut i: usize = 0;
        proof {
            assert(s.take(0) =~= Seq::<(Seq<char>, Seq<char>)>::empty());
            assert(pair_views(kept@) =~= Seq::<(Seq<char>, Seq<char>)>::empty());
            assert(pairs_map(s.take(0)).remove(name@) =~= pairs_map(pair_views(kept@)));
        }
        while i < self.entries.len()
            invariant
                i <= self.entries.len(),
                s == pair_views(self.entries@),
                names_distinct(s),
                names_distinct(pair_views(kept@)),
                pairs_map(pair_views(kept@)) == pairs_map(s.take(i as int)).remove(name@),
                forall|j: int|
                    0 <= j < kept@.len() ==> exists|m: int|
                        0 <= m < i && #[trigger] pair_views(kept@)[j].0 == s[m].0,
            decreases self.entries.len() - i,
        {
            let ghost before = pair_views(kept@);
            proof {
                assert(s.take(i + 1).drop_last() =~= s.take(i as int));
                assert(s.take(i + 1).last() == s[i as int]);
            }
            if !str_eq(self.entries[i].0.as_str(), name) {
                let k = self.entries[i].0.clone();
                let d = self.entries[i].1.clone();
                kept.push((k, d));
                proof {
                    assert(pair_views(kept@) =~= before.push(s[i as int]));
                    assert(pair_views(kept@).drop_last() =~= before);
                    assert(pairs_map(pair_views(kept@)) =~= pairs_map(s.take(i + 1)).remove(name@));
                    assert forall|a: int, b: int|
                        0 <= a < b < pair_views(kept@).len() implies #[trigger] pair_views(
                        kept@,
                    )[a].0 != #[trigger] pair_views(kept@)[b].0 by {
                        if b == pair_views(kept@).len() - 1 {
                            let m = choose|m: int| 0 <= m < i && #[trigger] before[a].0 == s[m].0;
                            assert(s[m].0 != s[i as int].0);
                        } else {
                            assert(before[a] == pair_views(kept@)[a]);
                            assert(before[b] == pair_views(kept@)[b]);
                        }
                    }
                    assert forall|j: int| 0 <= j < kept@.len() implies exists|m: int|
                        0 <= m < i + 1 && #[trigger] pair_views(kept@)[j].0 == s[m].0 by {
                        if j == kept@.len() - 1 {
                            assert(pair_views(kept@)[j].0 == s[i as int].0);
                        } else {
                            assert(pair_views(kept@)[j] == before[j]);
                            let m = choose|m: int| 0 <= m < i && #[trigger] before[j].0 == s[m].0;
                            assert(pair_views(kept@)[j].0 == s[m].0);
                        }
                    }
                }
            } else {
                proof {
                    assert(pairs_map(s.take(i + 1)).remove(name@) =~= pairs_map(
                        s.take(i as int),
                    ).remove(name@));
                    assert forall|j: int| 0 <= j < kept@.len() implies exists|m: int|
                        0 <= m < i + 1 && #[trigger] pair_views(kept@)[j].0 == s[m].0 by {
                        let m = choose|m: int|
                            0 <= m < i && #[trigger] pair_views(kept@)[j].0 == s[m].0;
                        assert(pair_views(kept@)[j].0 == s[m].0);
                    }
                }
            }
            i = i + 1;
        }
        proof {
            assert(s.take(i as int) =~= s);
        }
        self.entries = kept;
    }

    /// Sets the description of the cookie named `name` to `desc`.
    pub fn insert(&mut self, name: String, desc: String)
        ensures
            final(self)@ == old(self)@.insert(name@, desc@),
    {
        let ghost m = self@;
        self.remove(name.as_str());
        let mut v = self.to_pairs();
        proof {
            lemma_pairs_map_dom(pair_views(v@), name@);
        }
        let ghost before = pair_views(v@);
        let ghost n = name@;
        let ghost d = desc@;
        v.push((name, desc));
        proof {
            assert(pair_views(v@) =~= before.push((n, d)));
            assert(pair_views(v@).drop_last() =~= before);
            assert(pairs_map(pair_views(v@)) =~= m.insert(n, d));
            assert forall|a: int, b: int|
                0 <= a < b < pair_views(v@).len() implies #[trigger] pair_views(v@)[a].0
                != #[trigger] pair_views(v@)[b].0 by {
                assert(before[a] == pair_views(v@)[a]);
                if b < pair_views(v@).len() - 1 {
                    assert(before[b] == pair_views(v@)[b]);
                }
            }
        }
        self.entries = v;
    }

    /// Records the user's change of the description of the cookie named
    /// `name`: a new description, or `None` to go back to the built-in one.
    pub fn set_description(&mut self, name: String, desc: Option<String>)
        ensures
            final(self)@ == match desc {
                Some(d) => old(self)@.insert(name@, d@),
                None => old(self)@.remove(name@),
            },
    {
        match desc {
            Some(d) => self.insert(name, d),
            None => self.remove(name.as_str()),
        }
    }

    /// The table that the pairs describe; a later pair overrides an earlier
    /// one with the same name.
    pub fn from_pairs(pairs: Vec<(String, String)>) -> (r: CustomDescriptions)
        ensures
            r@ == pairs_map(pair_views(pairs@)),
    {
        let mut r = CustomDescriptions::new();
        let mut i: usize = 0;
        proof {
            assert(pair_views(pairs@).take(0) =~= Seq::<(Seq<char>, Seq<char>)>::empty());
        }
        while i < pairs.len()
            invariant
                i <= pairs.len(),
                r@ == pairs_map(pair_views(pairs@).take(i as int)),
            decreases pairs.len() - i,
        {
            let k = pairs[i].0.clone();
            let d = pairs[i].1.clone();
            r.insert(k, d);
            proof {
                assert(pair_views(pairs@).take(i + 1).drop_last() =~= pair_views(pairs@).take(
                    i as int,
                ));
            }
            i = i + 1;
        }
        proof {
            assert(pair_views(pairs@).take(i as int) =~= pair_views(pairs@));
        }
        r
    }

    /// The (name, description) pairs of the table, each name once.
    pub fn to_pairs(&self) -> (r: Vec<(String, String)>)
        ensures
            names_distinct(pair_views(r@)),
            pairs_map(pair_views(r@)) == self@,
    {
        proof {
            use_type_invariant(self);
        }
        let mut out: Vec<(String, String)> = Vec::new();
        let mut i: usize = 0;
        while i < self.entries.len()
            invariant
                i <= self.entries.len(),
                pair_views(out@) == pair_views(self.entries@).take(i as int),
            decreases self.entries.len() - i,
        {
            let k = self.entries[i].0.clone();
            let d = self.entries[i].1.clone();
            let ghost before = out@;
            out.push((k, d));
            proof {
                assert(pair_views(out@) =~= pair_views(before).push(pair_views(self.entries@)[i as int]));
                assert(pair_views(self.entries@).take(i + 1) =~= pair_views(self.entries@).take(
                    i as int,
                ).push(pair_views(self.entries@)[i as int]));
            }
            i = i + 1;
        }
        proof {
            assert(pair_views(self.entries@).take(i as int) =~= pair_views(self.entries@));
        }
        out
    }

    /// The description shown for the cookie named `name`: the user's own
    /// where there is one, else the built-in one.
    pub fn resolve(&self, name: &str) -> (r: Option<String>)
        ensures
            r matches Some(d) ==> resolved_description(self@, name@) == Some(d@),
            r is None ==> resolved_description(self@, name@) is None,
    {
        match self.get(name) {
            Some(d) => Some(d),
            None => match lookup(name) {
                Some(b) => Some(String::from_str(b)),
                None => None,
            },
        }
    }

    /// Whether the table can be stored: it holds at most
    /// [`MAX_CUSTOM_DESCRIPTIONS`] descriptions.
    pub fn check_limit(&self) -> (r: Result<(), DescriptionsError>)
        ensures
            self@.dom().finite(),
            r is Ok <==> self@.len() <= MAX_CUSTOM_DESCRIPTIONS,
            r matches Err(DescriptionsError::LimitReached { count }) ==> count == self@.len(),
    {
        let n = self.len();
        if n > MAX_CUSTOM_DESCRIPTIONS {
            Err(DescriptionsError::LimitReached { count: n })
        } else {
            Ok(())
        }
    }
}

} // verus!
