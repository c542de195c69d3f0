//! Actions of the popup: the cookie created for the current page, the
//! description typed by the user, and the confirmation prompts.

use vstd::prelude::*;
use crate::known_cookies::{known_description, lookup};
use crate::storage::CustomDescriptions;
use crate::text::{chars_of, chars_start_with, has_prefix, push_chars, push_str, string_from_chars};
use crate::types::{Cookie, CookieView};

verus! {

/// The page at `url` is served over HTTP or HTTPS.
pub open spec fn is_http_url(url: Seq<char>) -> bool {
    has_prefix(url, "http://"@) || has_prefix(url, "https://"@)
}

/// Whether the page at `url` is served over HTTP or HTTPS (cookies can only be
/// created there).
pub fn is_http_page(url: &str) -> (r: bool)
    ensures
        r == is_http_url(url@),
{
    let u = chars_of(url);
    let a = chars_of("http://");
    let b = chars_of("https://");
    chars_start_with(u.as_slice(), a.as_slice()) || chars_start_with(u.as_slice(), b.as_slice())
}

/// Where the host of a URL, starting at position `i` of `rest` (the text
/// after the scheme), ends: at the first `/`, or at the first `://`, or at
/// the end.
pub open spec fn host_end(rest: Seq<char>, i: int) -> int
    decreases rest.len() - i,
{
    if i >= rest.len() {
        rest.len() as int
    } else if rest[i] == '/' || (i + 3 <= rest.len() && rest.subrange(i, i + 3) == seq![':', '/', '/']) {
        i
    } else {
        host_end(rest, i + 1)
    }
}

/// The host of an HTTP(S) URL: the text between the scheme and the first
/// `/`, or `://`, after it.
pub open spec fn url_host(url: Seq<char>) -> Seq<char> {
    let rest = if has_prefix(url, "http://"@) {
        url.skip("http://"@.len() as int)
    } else {
        url.skip("https://"@.len() as int)
    };
    rest.take(host_end(rest, 0))
}

/// The cookie created by the popup's add button on the page at `url`: none
/// for a page that is not HTTP(S) or has no host; else `new_cookie` with an
/// empty value for the host without `www.`, as a domain cookie, secure on
/// HTTPS, on path `/`, with the `sameSite` mode that suits the scheme.
pub open spec fn new_cookie_view(url: Seq<char>) -> Option<CookieView> {
    if !is_http_url(url) || url_host(url).len() == 0 {
        None
    } else {
        let host = url_host(url);
        let domain = if has_prefix(host, "www."@) {
            host.skip("www."@.len() as int)
        } else {
            host
        };
        let secure = has_prefix(url, "https"@);
        Some(
            CookieView {
                name: "new_cookie"@,
                value: Seq::empty(),
                domain: seq!['.'] + domain,
                path: Some("/"@),
                expiration_date: None,
                http_only: false,
                secure,
                same_site: Some(
                    if secure {
                        "no_restriction"@
                    } else {
                        "lax"@
                    },
                ),
                store_id: None,
            },
        )
    }
}

/// The end of the host in `rest`, looking from position `i`.
fn find_host_end(rest: &Vec<char>, i: usize) -> (r: usize)
    requires
        i <= rest.len(),
    ensures
        r == host_end(rest@, i as int),
    decreases rest.len() - i,
{
    if i >= rest.len() {
        return rest.len();
    }
    if rest[i] == '/' {
        return i;
    }
    if rest.len() - i >= 3 && rest[i] == ':' && rest[i + 1] == '/' && rest[i + 2] == '/' {
        assert(rest@.subrange(i as int, i + 3) =~= seq![':', '/', '/']);
        return i;
    }
    if rest.len() - i >= 3 {
        assert(rest@.subrange(i as int, i + 3)[0] == rest@[i as int]);
        assert(rest@.subrange(i as int, i + 3)[1] == rest@[i + 1]);
        assert(rest@.subrange(i as int, i + 3)[2] == rest@[i + 2]);
    }
    find_host_end(rest, i + 1)
}

/// The characters of `v` from position `from` to position `to`.
fn slice_of(v: &Vec<char>, from: usize, to: usize) -> (r: Vec<char>)
    requires
        from <= to <= v.len(),
    ensures
        r@ == v@.subrange(from as int, to as int),
{
    let mut r: Vec<char> = Vec::new();
    let mut i = from;
    while i < to
        invariant
            from <= i <= to <= v.len(),
            r@ == v@.subrange(from as int, i as int),
        decreases to - i,
    {
        r.push(v[i]);
        assert(v@.subrange(from as int, i + 1) =~= v@.subrange(from as int, i as int).push(v@[i as int]));
        i = i + 1;
    }
    r
}

/// The cookie that the popup's add button creates on the page at `url`.
pub fn new_cookie_for_url(url: &str) -> (r: Option<Cookie>)
    ensures
        match new_cookie_view(url@) {
            None => r is None,
            Some(c) => r matches Some(k) && k@ == c,
        },
{
    proof {
        reveal_strlit("http://");
        reveal_strlit("https://");
        reveal_strlit("www.");
    }
    let u = chars_of(url);
    let http = chars_of("http://");
    let https = chars_of("https://");
    let start: usize = if chars_start_with(u.as_slice(), http.as_slice()) {
        7
    } else if chars_start_with(u.as_slice(), https.as_slice()) {
        8
    } else {
        return None;
    };
    let rest = slice_of(&u, start, u.len());
    assert(rest@ =~= u@.skip(start as int));
    let end = find_host_end(&rest, 0);
    proof {
        lemma_host_end_bounds(rest@, 0);
    }
    if end == 0 {
        assert(url_host(url@) =~= rest@.take(0));
        return None;
    }
    let host = slice_of(&rest, 0, end);
    assert(host@ =~= url_host(url@));
    let www = chars_of("www.");
    let domain = if chars_start_with(host.as_slice(), www.as_slice()) {
        slice_of(&host, 4, host.len())
    } else {
        host
    };
    let https_word = chars_of("https");
    let secure = chars_start_with(u.as_slice(), https_word.as_slice());
    let mut cookie_domain = String::new();
    push_str(&mut cookie_domain, ".");
    push_chars(&mut cookie_domain, domain.as_slice());
    proof {
        reveal_strlit(".");
    }
    let same_site = if secure {
        String::from_str("no_restriction")
    } else {
        String::from_str("lax")
    };
    let c = Cookie {
        name: String::from_str("new_cookie"),
        value: String::new(),
        domain: cookie_domain,
        path: Some(String::from_str("/")),
        expiration_date: None,
        http_only: false,
        secure,
        same_site: Some(same_site),
        store_id: None,
    };
    assert(c@.domain =~= seq!['.'] + (if has_prefix(url_host(url@), "www."@) {
        url_host(url@).skip("www."@.len() as int)
    } else {
        url_host(url@)
    }));
    Some(c)
}

/// The host of a URL ends within the text.
proof fn lemma_host_end_bounds(rest: Seq<char>, i: int)
    requires
        0 <= i <= rest.len(),
    ensures
        i <= host_end(rest, i) <= rest.len(),
    decreases rest.len() - i,
{
    if i < rest.len() {
        lemma_host_end_bounds(rest, i + 1);
    }
}

/// A character that `char::is_whitespace` counts as white space (the Unicode
/// `White_Space` property).
pub open spec fn is_white_space(c: char) -> bool {
    let u = c as u32;
    (0x9 <= u && u <= 0xd) || u == 0x20 || u == 0x85 || u == 0xa0 || u == 0x1680 || (0x2000 <= u && u
        <= 0x200a) || u == 0x2028 || u == 0x2029 || u == 0x202f || u == 0x205f || u == 0x3000
}

/// `s` without leading white space.
pub open spec fn trim_start_ws(s: Seq<char>) -> Seq<char>
    decreases s.len(),
{
    if s.len() > 0 && is_white_space(s[0]) {
        trim_start_ws(s.drop_first())
    } else {
        s
    }
}

/// `s` without trailing white space.
pub open spec fn trim_end_ws(s: Seq<char>) -> Seq<char>
    decreases s.len(),
{
    if s.len() > 0 && is_white_space(s.last()) {
        trim_end_ws(s.drop_last())
    } else {
        s
    }
}

/// `s` without leading and trailing white space (what `str::trim` leaves).
pub open spec fn trimmed(s: Seq<char>) -> Seq<char> {
    trim_end_ws(trim_start_ws(s))
}

/// The longest description that is kept, in characters.
pub const MAX_DESCRIPTION_CHARS: usize = 500;

/// The description saved from the editor's input: nothing where the input is
/// blank, else the input without surrounding white space, cut to its first
/// 500 characters.
pub open spec fn saved_description(input: Seq<char>) -> Option<Seq<char>> {
    let t = trimmed(input);
    if t.len() == 0 {
        None
    } else if t.len() > MAX_DESCRIPTION_CHARS {
        Some(t.take(MAX_DESCRIPTION_CHARS as int))
    } else {
        Some(t)
    }
}

fn white_space(c: char) -> (r: bool)
    ensures
        r == is_white_space(c),
{
    let u = c as u32;
    (0x9 <= u && u <= 0xd) || u == 0x20 || u == 0x85 || u == 0xa0 || u == 0x1680 || (0x2000 <= u && u
        <= 0x200a) || u == 0x2028 || u == 0x2029 || u == 0x202f || u == 0x205f || u == 0x3000
}

/// The description to save from the editor's input `input`, if any.
pub fn description_to_save(input: &str) -> (r: Option<String>)
    ensures
        match saved_description(input@) {
            None => r is None,
            Some(d) => r matches Some(s) && s@ == d,
        },
{
    let v = chars_of(input);
    let mut start: usize = 0;
    assert(v@.skip(0) =~= v@);
    while start < v.len() && white_space(v[start])
        invariant
            start <= v.len(),
            v@ == input@,
            trim_start_ws(v@.skip(start as int)) == trim_start_ws(input@),
        decreases v.len() - start,
    {
        assert(v@.skip(start as int).drop_first() =~= v@.skip(start + 1));
        start = start + 1;
    }
    let mut end: usize = v.len();
    assert(v@.subrange(start as int, end as int) =~= v@.skip(start as int));
    while end > start && white_space(v[end - 1])
        invariant
            start <= end <= v.len(),
            v@ == input@,
            trim_start_ws(input@) == v@.skip(start as int),
            trim_end_ws(v@.subrange(start as int, end as int)) == trimmed(input@),
        decreases end,
    {
        assert(v@.subrange(start as int, end as int).drop_last() =~= v@.subrange(start as int, end - 1));
        end = end - 1;
    }
    let ghost t = v@.subrange(start as int, end as int);
    assert(trimmed(input@) == t);
    if end == start {
        return None;
    }
    let stop = if end - start > MAX_DESCRIPTION_CHARS {
        start + MAX_DESCRIPTION_CHARS
    } else {
        end
    };
    let d = slice_of(&v, start, stop);
    assert(d@ =~= (if t.len() > MAX_DESCRIPTION_CHARS { t.take(MAX_DESCRIPTION_CHARS as int) } else { t }));
    Some(string_from_chars(d.as_slice()))
}

/// The question asked before deleting the cookie named `name`.
pub fn delete_prompt(name: &str) -> (r: String)
    ensures
        r@ == "Delete cookie \""@ + name@ + "\"?"@,
{
    let mut r = String::new();
    push_str(&mut r, "Delete cookie \"");
    push_str(&mut r, name);
    push_str(&mut r, "\"?");
    assert(r@ =~= "Delete cookie \""@ + name@ + "\"?"@);
    r
}

/// Whether the editor offers to go back to the built-in description of the
/// cookie named `name`: the user has a description of it, and the dictionary
/// has one too.
pub fn reset_available(custom: &CustomDescriptions, name: &str) -> (r: bool)
    ensures
        r == (custom@.dom().contains(name@) && known_description(name@) is Some),
{
    custom.contains(name) && lookup(name).is_some()
}

} // verus!
