//! Text made from a cookie: the clipboard and download formats, file names,
//! names of duplicates, and the relative expiry label of the list.

use vstd::prelude::*;
use crate::text::{
    chars_end_with, chars_of, decimal, has_suffix, push_chars, push_decimal,
    push_signed_decimal, push_str, signed_decimal, str_eq, string_from_chars,
};
use crate::types::{Cookie, CookieView, is_host_only_domain};

verus! {

/// A format in which a cookie is copied or downloaded.
#[derive(Clone, Copy, Debug, PartialEq, Eq, Structural)]
pub enum CopyFormat {
    /// The cookie's fields as a JSON object.
    Json,
    /// One line of a Netscape cookie file.
    Netscape,
    /// `name=value`.
    Semicolon,
}

/// The format that a copy-format setting designates: `"json"`, `"netscape"`,
/// and anything else the `name=value` pair.
pub open spec fn format_named(name: Seq<char>) -> CopyFormat {
    if name == "json"@ {
        CopyFormat::Json
    } else if name == "netscape"@ {
        CopyFormat::Netscape
    } else {
        CopyFormat::Semicolon
    }
}

impl CopyFormat {
    /// The format that the copy-format setting `name` designates.
    pub fn from_name(name: &str) -> (r: CopyFormat)
        ensures
            r == format_named(name@),
    {
        if str_eq(name, "json") {
            CopyFormat::Json
        } else if str_eq(name, "netscape") {
            CopyFormat::Netscape
        } else {
            CopyFormat::Semicolon
        }
    }

    /// The file extension of a download in this format.
    pub fn extension(&self) -> (r: &'static str)
        ensures
            r@ == (if *self == CopyFormat::Json { "json"@ } else { "txt"@ }),
    {
        match self {
            CopyFormat::Json => "json",
            _ => "txt",
        }
    }
}

/// The cookie as a line of a Netscape cookie file: domain, whether
/// subdomains match, path (`/` where it has none), whether it is secure, the
/// expiration (`0` for a session cookie), name and value, separated by tabs.
pub open spec fn netscape_line(c: CookieView) -> Seq<char> {
    c.domain + "\t"@ + (if is_host_only_domain(c.domain) { "FALSE"@ } else { "TRUE"@ }) + "\t"@
        + (match c.path { Some(p) => p, None => "/"@ }) + "\t"@ + (if c.secure { "TRUE"@ } else { "FALSE"@ })
        + "\t"@ + (match c.expiration_date { Some(e) => signed_decimal(e as int), None => "0"@ }) + "\t"@
        + c.name + "\t"@ + c.value
}

/// The cookie as `name=value`.
pub open spec fn semicolon_pair(c: CookieView) -> Seq<char> {
    c.name + "="@ + c.value
}

/// The cookie as a line of a Netscape cookie file.
pub fn format_netscape(c: &Cookie) -> (r: String)
    ensures
        r@ == netscape_line(c@),
{
    let mut r = c.domain.clone();
    push_str(&mut r, "\t");
    if c.is_host_only() {
        push_str(&mut r, "FALSE");
    } else {
        push_str(&mut r, "TRUE");
    }
    push_str(&mut r, "\t");
    match &c.path {
        Some(p) => push_str(&mut r, p.as_str()),
        None => push_str(&mut r, "/"),
    }
    push_str(&mut r, "\t");
    if c.secure {
        push_str(&mut r, "TRUE");
    } else {
        push_str(&mut r, "FALSE");
    }
    push_str(&mut r, "\t");
    match c.expiration_date {
        Some(e) => push_signed_decimal(&mut r, e),
        None => push_str(&mut r, "0"),
    }
    push_str(&mut r, "\t");
    push_str(&mut r, c.name.as_str());
    push_str(&mut r, "\t");
    push_str(&mut r, c.value.as_str());
    assert(r@ =~= netscape_line(c@));
    r
}

/// The cookie as `name=value`.
pub fn format_semicolon(c: &Cookie) -> (r: String)
    ensures
        r@ == semicolon_pair(c@),
{
    let mut r = c.name.clone();
    push_str(&mut r, "=");
    push_str(&mut r, c.value.as_str());
    assert(r@ =~= semicolon_pair(c@));
    r
}

/// A control character (Unicode general category `Cc`), as `char::is_control`
/// tells.
pub open spec fn is_control_char(c: char) -> bool {
    (c as u32) <= 0x1f || (0x7f <= (c as u32) && (c as u32) <= 0x9f)
}

/// A character that a file name cannot hold.
pub open spec fn is_forbidden_in_filename(c: char) -> bool {
    c == '/' || c == '\\' || c == ':' || c == '*' || c == '?' || c == '"' || c == '<' || c == '>'
        || c == '|'
}

/// The character that stands for `c` in a file name.
pub open spec fn filename_char(c: char) -> char {
    if is_forbidden_in_filename(c) || is_control_char(c) {
        '_'
    } else {
        c
    }
}

/// `s` without its leading dots.
pub open spec fn without_leading_dots(s: Seq<char>) -> Seq<char>
    decreases s.len(),
{
    if s.len() > 0 && s[0] == '.' {
        without_leading_dots(s.drop_first())
    } else {
        s
    }
}

/// The file name of the download of a cookie named `name` with extension
/// `ext`: forbidden and control characters become `_`, leading dots go, an
/// empty result becomes `cookie`, and `.` and the extension follow.
pub open spec fn download_filename(name: Seq<char>, ext: Seq<char>) -> Seq<char> {
    let base = without_leading_dots(name.map_values(|c: char| filename_char(c)));
    (if base.len() == 0 { "cookie"@ } else { base }) + "."@ + ext
}

/// The character that stands for `c` in a file name.
fn safe_filename_char(c: char) -> (r: char)
    ensures
        r == filename_char(c),
{
    let u = c as u32;
    if c == '/' || c == '\\' || c == ':' || c == '*' || c == '?' || c == '"' || c == '<' || c == '>'
        || c == '|' || u <= 0x1f || (0x7f <= u && u <= 0x9f) {
        '_'
    } else {
        c
    }
}

/// The file name for downloading the cookie named `name` as a file with
/// extension `ext`.
pub fn sanitize_filename(name: &str, ext: &str) -> (r: String)
    ensures
        r@ == download_filename(name@, ext@),
{
    let v = chars_of(name);
    let ghost mapped = name@.map_values(|c: char| filename_char(c));
    let mut clean: Vec<char> = Vec::new();
    let mut i: usize = 0;
    while i < v.len()
        invariant
            i <= v.len(),
            v@ == name@,
            mapped == name@.map_values(|c: char| filename_char(c)),
            clean@ == mapped.take(i as int),
        decreases v.len() - i,
    {
        clean.push(safe_filename_char(v[i]));
        assert(mapped.take(i + 1) =~= mapped.take(i as int).push(filename_char(v@[i as int])));
        i = i + 1;
    }
    assert(mapped.take(i as int) =~= mapped);
    let mut start: usize = 0;
    while start < clean.len() && clean[start] == '.'
        invariant
            start <= clean.len(),
            without_leading_dots(clean@.skip(start as int)) == without_leading_dots(clean@),
        decreases clean.len() - start,
    {
        assert(clean@.skip(start as int).drop_first() =~= clean@.skip(start + 1));
        start = start + 1;
    }
    let ghost rest = clean@.skip(start as int);
    assert(without_leading_dots(rest) == rest);
    let mut r = String::new();
    if start == clean.len() {
        push_str(&mut r, "cookie");
    } else {
        let mut base: Vec<char> = Vec::new();
        let mut j: usize = start;
        while j < clean.len()
            invariant
                start <= j <= clean.len(),
                base@ == clean@.subrange(start as int, j as int),
            decreases clean.len() - j,
        {
            base.push(clean[j]);
            assert(clean@.subrange(start as int, j + 1) =~= clean@.subrange(start as int, j as int).push(clean@[j as int]));
            j = j + 1;
        }
        assert(base@ =~= rest);
        push_chars(&mut r, base.as_slice());
    }
    push_str(&mut r, ".");
    push_str(&mut r, ext);
    assert(r@ =~= download_filename(name@, ext@));
    r
}

/// The suffix that marks a duplicate.
pub open spec fn copy_suffix() -> Seq<char> {
    seq!['_', 'c', 'o', 'p', 'y']
}

/// `s` without any number of trailing `_copy` suffixes (what
/// `str::trim_end_matches("_copy")` leaves).
pub open spec fn without_copy_suffixes(s: Seq<char>) -> Seq<char>
    decreases s.len(),
{
    if has_suffix(s, copy_suffix()) {
        without_copy_suffixes(s.take(s.len() - 5))
    } else {
        s
    }
}

/// The longest name of a duplicate, in characters.
pub const MAX_DUPLICATE_NAME_LEN: usize = 255;

/// The name of the duplicate of a cookie named `name`, before it is cut to
/// [`MAX_DUPLICATE_NAME_LEN`] characters: the name without trailing `_copy`
/// suffixes, then one `_copy`.
pub open spec fn duplicate_candidate(name: Seq<char>) -> Seq<char> {
    without_copy_suffixes(name) + copy_suffix()
}

/// The name of the duplicate of a cookie named `name`: the candidate, cut to
/// its first [`MAX_DUPLICATE_NAME_LEN`] characters.
pub open spec fn duplicate_name_of(name: Seq<char>) -> Seq<char> {
    let c = duplicate_candidate(name);
    if c.len() <= MAX_DUPLICATE_NAME_LEN {
        c
    } else {
        c.take(MAX_DUPLICATE_NAME_LEN as int)
    }
}

/// The name of the duplicate of the cookie named `name`, before it is cut.
fn duplicate_candidate_of(name: &str) -> (r: Vec<char>)
    ensures
        r@ == duplicate_candidate(name@),
{
    proof {
        reveal_strlit("_copy");
    }
    let suffix = chars_of("_copy");
    assert(suffix@ =~= copy_suffix());
    let v = chars_of(name);
    let mut end: usize = v.len();
    let mut base: Vec<char> = v.clone();
    assert(base@ =~= v@.take(end as int));
    while chars_end_with(base.as_slice(), suffix.as_slice())
        invariant
            end <= v.len(),
            v@ == name@,
            suffix@ == copy_suffix(),
            base@ == v@.take(end as int),
            without_copy_suffixes(base@) == without_copy_suffixes(name@),
        decreases end,
    {
        end = end - 5;
        let mut shorter: Vec<char> = Vec::new();
        let mut j: usize = 0;
        while j < end
            invariant
                j <= end,
                end + 5 <= v.len(),
                shorter@ == v@.take(j as int),
            decreases end - j,
        {
            shorter.push(v[j]);
            assert(v@.take(j + 1) =~= v@.take(j as int).push(v@[j as int]));
            j = j + 1;
        }
        assert(base@.take(base@.len() - 5) =~= v@.take(end as int));
        base = shorter;
    }
    let mut candidate: Vec<char> = base;
    let mut k: usize = 0;
    let ghost b = candidate@;
    while k < 5
        invariant
            k <= 5,
            suffix@ == copy_suffix(),
            candidate@ == b + suffix@.take(k as int),
        decreases 5 - k,
    {
        candidate.push(suffix[k]);
        assert(suffix@.take(k + 1) =~= suffix@.take(k as int).push(suffix@[k as int]));
        k = k + 1;
    }
    assert(suffix@.take(5) =~= suffix@);
    assert(candidate@ =~= duplicate_candidate(name@));
    candidate
}

/// The name given to the duplicate of the cookie named `name`.
pub fn duplicate_name(name: &str) -> (r: String)
    ensures
        r@ == duplicate_name_of(name@),
{
    let mut candidate = duplicate_candidate_of(name);
    if candidate.len() > MAX_DUPLICATE_NAME_LEN {
        candidate.truncate(MAX_DUPLICATE_NAME_LEN);
    }
    string_from_chars(candidate.as_slice())
}

/// Seconds in a minute, an hour, a day, a month of thirty days and a year of
/// 365 days.
pub open spec fn minute() -> int { 60 }
pub open spec fn hour() -> int { 3600 }
pub open spec fn day() -> int { 86400 }
pub open spec fn month() -> int { 2592000 }
pub open spec fn year() -> int { 31536000 }

/// `n / d` rounded to the nearest integer, a tie to the even one (how a
/// number is shown with no decimals).
pub open spec fn rounded_quotient(n: int, d: int) -> int {
    let q = n / d;
    let r = n % d;
    if 2 * r > d {
        q + 1
    } else if 2 * r < d {
        q
    } else if q % 2 == 0 {
        q
    } else {
        q + 1
    }
}

/// The list's label for a cookie that expires at `expiry` (seconds since the
/// epoch), seen at time `now`: `Session`, `Expired`, or the time left in
/// years, months, days, hours or minutes (at least one minute).
pub open spec fn relative_expiry_label(expiry: Option<i64>, now: i64) -> Seq<char> {
    match expiry {
        None => "Session"@,
        Some(ts) => {
            let diff = ts - now;
            if diff <= 0 {
                "Expired"@
            } else if diff >= year() {
                decimal(rounded_quotient(diff, year()) as nat) + "y"@
            } else if diff >= month() {
                decimal(rounded_quotient(diff, month()) as nat) + "mo"@
            } else if diff >= day() {
                decimal(rounded_quotient(diff, day()) as nat) + "d"@
            } else if diff >= hour() {
                decimal(rounded_quotient(diff, hour()) as nat) + "h"@
            } else if diff >= minute() {
                decimal(rounded_quotient(diff, minute()) as nat) + "m"@
            } else {
                decimal(1) + "m"@
            }
        },
    }
}

/// `n / d` rounded to the nearest integer, a tie to the even one.
fn round_quotient(n: u64, d: u64) -> (r: u64)
    requires
        d >= 60,
    ensures
        r == rounded_quotient(n as int, d as int),
{
    let q = n / d;
    let rem = n % d;
    assert(q <= n / 60) by (nonlinear_arith)
        requires
            d >= 60,
            q == n / d,
    ;
    if 2 * (rem as u128) > d as u128 {
        q + 1
    } else if 2 * (rem as u128) < d as u128 {
        q
    } else if q % 2 == 0 {
        q
    } else {
        q + 1
    }
}

/// The list's label for a cookie that expires at `expiry`, seen at `now`.
pub fn format_relative_expiry(expiry: Option<i64>, now: i64) -> (r: String)
    ensures
        r@ == relative_expiry_label(expiry, now),
{
    let ts = match expiry {
        None => {
            return String::from_str("Session");
        },
        Some(ts) => ts,
    };
    let wide: i128 = ts as i128 - now as i128;
    if wide <= 0 {
        return String::from_str("Expired");
    }
    let diff: u64 = wide as u64;
    let mut r = String::new();
    if diff >= 31536000 {
        push_decimal(&mut r, round_quotient(diff, 31536000));
        push_str(&mut r, "y");
    } else if diff >= 2592000 {
        push_decimal(&mut r, round_quotient(diff, 2592000));
        push_str(&mut r, "mo");
    } else if diff >= 86400 {
        push_decimal(&mut r, round_quotient(diff, 86400));
        push_str(&mut r, "d");
    } else if diff >= 3600 {
        push_decimal(&mut r, round_quotient(diff, 3600));
        push_str(&mut r, "h");
    } else if diff >= 60 {
        push_decimal(&mut r, round_quotient(diff, 60));
        push_str(&mut r, "m");
    } else {
        push_decimal(&mut r, 1);
        push_str(&mut r, "m");
    }
    assert(r@ =~= relative_expiry_label(expiry, now));
    r
}

} // verus!
