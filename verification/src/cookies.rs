//! Browser cookies as plain values, and the rules that decide which of them
//! belong to a YouTube Music session.

use vstd::prelude::*;

use crate::text::{
    ascii_lower, chars_eq, ends_with, eq_ignore_ascii_case, find, has_prefix, has_suffix, is_ascii_upper,
    lemma_find_from, lower_seq, push_all,
    push_str, slice_chars, spec_find, spec_split_once, split_once, str_chars, string_from_chars,
    strip_prefix_char, to_ascii_lower, trim, trim_chars, trim_start_char, trim_start_matches_char,
};

verus! {

/// The host every request of the client goes to.
pub open spec fn ytm_host() -> Seq<char> {
    "music.youtube.com"@
}

/// The origin every request of the client goes to.
pub open spec fn ytm_domain() -> Seq<char> {
    "https://music.youtube.com"@
}

pub fn ytm_host_chars() -> (res: Vec<char>)
    ensures
        res@ == ytm_host(),
{
    str_chars("music.youtube.com")
}

// ---------------------------------------------------------------------------
// Domain matching
// ---------------------------------------------------------------------------

/// Whether a cookie stored for `cookie_domain` is sent to `host`.
///
/// A domain cookie (`.example.com`) applies to the domain itself and to every
/// sub-domain of it; a host-only cookie (`example.com`) applies to exactly that
/// host. Comparisons ignore ASCII case, and a bare `.` applies to nothing.
pub open spec fn domain_applies(cookie_domain: Seq<char>, host: Seq<char>) -> bool {
    match strip_prefix_char(cookie_domain, '.') {
        Some(domain) => {
            &&& domain.len() > 0
            &&& {
                ||| lower_seq(host) == lower_seq(domain)
                ||| subdomain_of(lower_seq(host), lower_seq(domain))
            }
        },
        None => lower_seq(host) == lower_seq(cookie_domain),
    }
}

/// `host` is `domain` with one or more labels in front of it: it ends with
/// `domain` and the character just before that suffix is a dot.
pub open spec fn subdomain_of(host: Seq<char>, domain: Seq<char>) -> bool {
    &&& has_suffix(host, domain)
    &&& host.len() > domain.len()
    &&& host[host.len() - domain.len() - 1] == '.'
}

proof fn lemma_ascii_lower_idem(c: char)
    ensures
        ascii_lower(ascii_lower(c)) == ascii_lower(c),
        (ascii_lower(c) == '.') == (c == '.'),
{
    if is_ascii_upper(c) {
        let l = ((c as u32) + 32) as char;
        assert(65 <= (c as u32) <= 90);
        assert((l as u32) == (c as u32) + 32);
        assert(!is_ascii_upper(l));
    }
}

proof fn lemma_lower_seq_idem(s: Seq<char>)
    ensures
        lower_seq(lower_seq(s)) == lower_seq(s),
{
    assert forall|i: int| 0 <= i < s.len() implies lower_seq(lower_seq(s))[i] == lower_seq(s)[i] by {
        lemma_ascii_lower_idem(s[i]);
    }
    assert(lower_seq(lower_seq(s)) =~= lower_seq(s));
}

/// Cookie domains are matched without regard to ASCII case: lowering the
/// domain and the host changes nothing. And a domain cookie reaches every
/// host its host-only form reaches: `.d` applies wherever `d` does.
pub proof fn lemma_domain_applies_case_and_widening(d: Seq<char>, h: Seq<char>)
    ensures
        domain_applies(d, h) == domain_applies(lower_seq(d), lower_seq(h)),
        d.len() > 0 && d[0] != '.' && domain_applies(d, h) ==> domain_applies(seq!['.'] + d, h),
{
    let ld = lower_seq(d);
    lemma_lower_seq_idem(h);
    lemma_lower_seq_idem(d);
    if d.len() > 0 {
        lemma_ascii_lower_idem(d[0]);
        assert(ld[0] == ascii_lower(d[0]));
    }
    if d.len() > 0 && d[0] == '.' {
        let dom = d.drop_first();
        assert(ld.drop_first() =~= lower_seq(dom));
        lemma_lower_seq_idem(dom);
    }
    let w = seq!['.'] + d;
    assert(w.drop_first() =~= d);
}

fn applies_lowered(cookie_domain: &[char], host: &[char]) -> (res: bool)
    ensures
        res == domain_applies(cookie_domain@, host@),
{
    if cookie_domain.len() > 0 && cookie_domain[0] == '.' {
        let domain = slice_chars(cookie_domain, 1, cookie_domain.len());
        assert(domain@ =~= cookie_domain@.drop_first());
        if domain.len() == 0 {
            return false;
        }
        if eq_ignore_ascii_case(host, domain.as_slice()) {
            return true;
        }
        let lh = to_ascii_lower(host);
        let ld = to_ascii_lower(domain.as_slice());
        if ends_with(lh.as_slice(), ld.as_slice()) {
            let cut = lh.len() - ld.len();
            cut > 0 && lh[cut - 1] == '.'
        } else {
            false
        }
    } else {
        eq_ignore_ascii_case(host, cookie_domain)
    }
}

/// Whether a cookie stored for `cookie_domain` is sent to `host`
/// (see [`domain_applies`]).
pub fn cookie_domain_applies_to_host(cookie_domain: &str, host: &str) -> (res: bool)
    ensures
        res == domain_applies(cookie_domain@, host@),
{
    let d = str_chars(cookie_domain);
    let h = str_chars(host);
    applies_lowered(d.as_slice(), h.as_slice())
}

// ---------------------------------------------------------------------------
// Set-Cookie lines
// ---------------------------------------------------------------------------

/// The path a cookie is stored under: its own path when that is absolute,
/// otherwise `/`.
pub open spec fn normalized_path(path: Seq<char>) -> Seq<char> {
    if path.len() > 0 && path[0] == '/' {
        path
    } else {
        "/"@
    }
}

/// The `Set-Cookie` line that re-creates a browser cookie:
/// `name=value`, then `Domain=` for domain cookies (leading dot), then
/// `Path=`, then the `Secure` and `HttpOnly` flags, joined by `"; "`.
pub open spec fn set_cookie_line(
    name: Seq<char>,
    value: Seq<char>,
    domain: Seq<char>,
    path: Seq<char>,
    secure: bool,
    http_only: bool,
) -> Seq<char> {
    name + "="@ + value + (if domain.len() > 0 && domain[0] == '.' {
        "; Domain="@ + domain
    } else {
        Seq::empty()
    }) + "; Path="@ + normalized_path(path) + (if secure {
        "; Secure"@
    } else {
        Seq::empty()
    }) + (if http_only {
        "; HttpOnly"@
    } else {
        Seq::empty()
    })
}

/// Builds the `Set-Cookie` line for a cookie read from a browser
/// (see [`set_cookie_line`]).
pub fn cookie_to_set_cookie(
    name: &str,
    value: &str,
    domain: &str,
    path: &str,
    secure: bool,
    http_only: bool,
) -> (res: String)
    ensures
        res@ == set_cookie_line(name@, value@, domain@, path@, secure, http_only),
{
    let mut out: Vec<char> = Vec::new();
    push_str(&mut out, name);
    push_str(&mut out, "=");
    push_str(&mut out, value);
    let ghost after_value = out@;
    let d = str_chars(domain);
    if d.len() > 0 && d[0] == '.' {
        push_str(&mut out, "; Domain=");
        push_all(&mut out, d.as_slice());
    }
    let ghost after_domain = out@;
    push_str(&mut out, "; Path=");
    let p = str_chars(path);
    if p.len() > 0 && p[0] == '/' {
        push_all(&mut out, p.as_slice());
    } else {
        push_str(&mut out, "/");
    }
    if secure {
        push_str(&mut out, "; Secure");
    }
    if http_only {
        push_str(&mut out, "; HttpOnly");
    }
    proof {
        let e = set_cookie_line(name@, value@, domain@, path@, secure, http_only);
        assert(out@ =~= e);
    }
    string_from_chars(out.as_slice())
}

// ---------------------------------------------------------------------------
// Cookies read from Chromium-family browsers
// ---------------------------------------------------------------------------

/// A cookie as Chromium-family browsers store it.
#[derive(Clone, Debug)]
pub struct BrowserCookie {
    pub domain: String,
    pub path: String,
    pub secure: bool,
    /// Expiry in seconds since the Unix epoch; `None` for a session cookie.
    pub expires: Option<u64>,
    pub name: String,
    pub value: String,
    pub http_only: bool,
    pub same_site: i64,
}

/// A Chromium cookie is kept when it is sent to `music.youtube.com`, has not
/// expired at `now_secs` (session cookies never expire; a negative clock
/// counts as zero), and has a non-empty name and value.
pub open spec fn chromium_cookie_kept(c: BrowserCookie, now_secs: i64) -> bool {
    &&& domain_applies(c.domain@, ytm_host())
    &&& match c.expires {
        None => true,
        Some(exp) => exp > (if now_secs < 0 {
            0
        } else {
            now_secs
        }),
    }
    &&& c.name@.len() > 0
    &&& c.value@.len() > 0
}

/// [`chromium_cookie_kept`] at `now_secs`, as a predicate.
pub open spec fn chromium_kept_at(now_secs: i64) -> spec_fn(BrowserCookie) -> bool {
    |c: BrowserCookie| chromium_cookie_kept(c, now_secs)
}

fn chromium_cookie_is_kept(c: &BrowserCookie, now_secs: i64) -> (res: bool)
    ensures
        res == chromium_cookie_kept(*c, now_secs),
{
    let host = ytm_host_chars();
    let d = str_chars(c.domain.as_str());
    let domain_match = applies_lowered(d.as_slice(), host.as_slice());
    let floor: u64 = if now_secs < 0 {
        0
    } else {
        now_secs as u64
    };
    let not_expired = match c.expires {
        None => true,
        Some(exp) => exp > floor,
    };
    domain_match && not_expired && !c.name.as_str().is_empty() && !c.value.as_str().is_empty()
}

/// The cookies of `cookies` that [`chromium_cookie_kept`] accepts, in their
/// given order.
pub fn filter_chromium_cookies(cookies: Vec<BrowserCookie>, now_secs: i64) -> (res: Vec<
    BrowserCookie,
>)
    ensures
        res@ == cookies@.filter(chromium_kept_at(now_secs)),
{
    let ghost pred = chromium_kept_at(now_secs);
    let ghost orig = cookies@;
    let mut rest = cookies;
    let mut out: Vec<BrowserCookie> = Vec::new();
    let ghost mut i: int = 0;
    while rest.len() > 0
        invariant
            0 <= i <= orig.len(),
            rest@ == orig.subrange(i, orig.len() as int),
            out@ == orig.take(i).filter(pred),
            pred == chromium_kept_at(now_secs),
        decreases rest@.len(),
    {
        let c = rest.remove(0);
        let ghost cv = c;
        assert(cv == orig[i]);
        let keep = chromium_cookie_is_kept(&c, now_secs);
        if keep {
            out.push(c);
        }
        proof {
            reveal_with_fuel(Seq::filter, 1);
            let t = orig.take(i + 1);
            assert(t.drop_last() =~= orig.take(i));
            assert(t.last() == cv);
            assert(pred(cv) == keep);
            i = i + 1;
            assert(rest@ =~= orig.subrange(i, orig.len() as int));
        }
    }
    assert(orig.take(i) =~= orig);
    out
}

// ---------------------------------------------------------------------------
// Cookies read from Gecko-family browsers
// ---------------------------------------------------------------------------

/// A row of a Gecko `moz_cookies` table.
#[derive(Clone, Debug)]
pub struct GeckoCookie {
    pub name: String,
    pub value: String,
    pub host: String,
    pub path: String,
    /// Expiry in seconds, or in milliseconds for values above ten billion;
    /// zero for a session cookie.
    pub expiry: i64,
    pub is_secure: bool,
    pub is_http_only: bool,
    pub same_site: i64,
    pub origin_attributes: String,
}

/// The hosts the cookie query asks the browser database for: the four
/// YouTube hosts literally, or any host ending in `.youtube.com` ignoring
/// ASCII case (the `LIKE '%.youtube.com'` pattern).
pub open spec fn gecko_host_queried(host: Seq<char>) -> bool {
    ||| host == ".youtube.com"@
    ||| host == "youtube.com"@
    ||| host == "music.youtube.com"@
    ||| host == ".music.youtube.com"@
    ||| has_suffix(lower_seq(host), ".youtube.com"@)
}

/// Expiry normalised to seconds: values above ten billion are milliseconds.
pub open spec fn gecko_expiry_secs(expiry: i64) -> int {
    if expiry > 10_000_000_000 {
        expiry / 1000
    } else {
        expiry as int
    }
}

/// A Gecko cookie is kept when its host is one the query asks for, it has not
/// expired at `now_secs` (an expiry of zero is a session cookie), and it is
/// sent to `music.youtube.com`.
pub open spec fn gecko_cookie_kept(c: GeckoCookie, now_secs: i64) -> bool {
    &&& gecko_host_queried(c.host@)
    &&& (c.expiry == 0 || gecko_expiry_secs(c.expiry) > now_secs)
    &&& domain_applies(c.host@, ytm_host())
}

/// [`gecko_cookie_kept`] at `now_secs`, as a predicate.
pub open spec fn gecko_kept_at(now_secs: i64) -> spec_fn(GeckoCookie) -> bool {
    |c: GeckoCookie| gecko_cookie_kept(c, now_secs)
}

fn gecko_cookie_is_kept(c: &GeckoCookie, now_secs: i64) -> (res: bool)
    ensures
        res == gecko_cookie_kept(*c, now_secs),
{
    let h = str_chars(c.host.as_str());
    let queried = chars_eq(h.as_slice(), str_chars(".youtube.com").as_slice()) || chars_eq(
        h.as_slice(),
        str_chars("youtube.com").as_slice(),
    ) || chars_eq(h.as_slice(), str_chars("music.youtube.com").as_slice()) || chars_eq(
        h.as_slice(),
        str_chars(".music.youtube.com").as_slice(),
    ) || ends_with(to_ascii_lower(h.as_slice()).as_slice(), str_chars(".youtube.com").as_slice());
    let secs: i64 = if c.expiry > 10_000_000_000 {
        c.expiry / 1000
    } else {
        c.expiry
    };
    let live = c.expiry == 0 || secs > now_secs;
    let host = ytm_host_chars();
    queried && live && applies_lowered(h.as_slice(), host.as_slice())
}

/// The rows of a Gecko cookie table that [`gecko_cookie_kept`] accepts, in
/// their given order.
pub fn filter_gecko_cookies(cookies: Vec<GeckoCookie>, now_secs: i64) -> (res: Vec<GeckoCookie>)
    ensures
        res@ == cookies@.filter(gecko_kept_at(now_secs)),
{
    let ghost pred = gecko_kept_at(now_secs);
    let ghost orig = cookies@;
    let mut rest = cookies;
    let mut out: Vec<GeckoCookie> = Vec::new();
    let ghost mut i: int = 0;
    while rest.len() > 0
        invariant
            0 <= i <= orig.len(),
            rest@ == orig.subrange(i, orig.len() as int),
            out@ == orig.take(i).filter(pred),
            pred == gecko_kept_at(now_secs),
        decreases rest@.len(),
    {
        let c = rest.remove(0);
        let ghost cv = c;
        assert(cv == orig[i]);
        let keep = gecko_cookie_is_kept(&c, now_secs);
        if keep {
            out.push(c);
        }
        proof {
            reveal_with_fuel(Seq::filter, 1);
            let t = orig.take(i + 1);
            assert(t.drop_last() =~= orig.take(i));
            assert(t.last() == cv);
            assert(pred(cv) == keep);
            i = i + 1;
            assert(rest@ =~= orig.subrange(i, orig.len() as int));
        }
    }
    assert(orig.take(i) =~= orig);
    out
}

// ---------------------------------------------------------------------------
// Reading a Cookie request header
// ---------------------------------------------------------------------------

/// `str::split` on a single character: the pieces between its occurrences.
pub open spec fn split_char(s: Seq<char>, c: char) -> Seq<Seq<char>>
    decreases s.len(),
{
    match spec_find(s, seq![c]) {
        Some(k) => {
            if 0 <= k < s.len() {
                seq![s.subrange(0, k)] + split_char(s.subrange(k + 1, s.len() as int), c)
            } else {
                seq![s]
            }
        },
        None => seq![s],
    }
}

/// The `SAPISID` value carried by the `name=value` pairs `pairs[i..]`: the
/// first pair whose trimmed name is `SAPISID` and whose trimmed value is not
/// empty.
pub open spec fn sapisid_in_pairs(pairs: Seq<Seq<char>>, i: int) -> Option<Seq<char>>
    decreases pairs.len() - i,
{
    if i < 0 || i >= pairs.len() {
        None
    } else {
        match spec_split_once(trim(pairs[i]), '=') {
            Some((name, val)) => {
                if trim(name) == "SAPISID"@ && trim(val).len() > 0 {
                    Some(trim(val))
                } else {
                    sapisid_in_pairs(pairs, i + 1)
                }
            },
            None => sapisid_in_pairs(pairs, i + 1),
        }
    }
}

/// The `SAPISID` value of a `Cookie` request header
/// (`name=value` pairs separated by `;`).
pub open spec fn header_sapisid(header: Seq<char>) -> Option<Seq<char>> {
    sapisid_in_pairs(split_char(header, ';'), 0)
}

/// Splits `s` at every occurrence of `c` (see [`split_char`]).
pub fn split_at_char(s: &[char], c: char) -> (res: Vec<Vec<char>>)
    ensures
        res@.map_values(|v: Vec<char>| v@) == split_char(s@, c),
{
    let n = s.len();
    let mut out: Vec<Vec<char>> = Vec::new();
    let mut rest = slice_chars(s, 0, n);
    assert(rest@ =~= s@);
    loop
        invariant
            split_char(s@, c) == out@.map_values(|v: Vec<char>| v@) + split_char(rest@, c),
        decreases rest@.len(),
    {
        let sep = vec![c];
        assert(sep@ =~= seq![c]);
        let rn = rest.len();
        match find(rest.as_slice(), sep.as_slice()) {
            Some(k) => {
                proof {
                    lemma_find_from(rest@, sep@, 0);
                }
                let before = slice_chars(rest.as_slice(), 0, k);
                let after = slice_chars(rest.as_slice(), k + 1, rn);
                let ghost old_out = out@;
                out.push(before);
                assert(out@.map_values(|v: Vec<char>| v@) =~= old_out.map_values(
                    |v: Vec<char>| v@,
                ).push(before@));
                rest = after;
            },
            None => {
                let ghost old_out = out@;
                let last = rest;
                out.push(last);
                assert(out@.map_values(|v: Vec<char>| v@) =~= old_out.map_values(
                    |v: Vec<char>| v@,
                ).push(last@));
                return out;
            },
        }
    }
}

/// The `SAPISID` value of a `Cookie` request header (see [`header_sapisid`]).
pub fn sapisid_from_cookie_header(header: &str) -> (res: Option<String>)
    ensures
        match (res, header_sapisid(header@)) {
            (Some(r), Some(e)) => r@ == e,
            (None, None) => true,
            _ => false,
        },
{
    let h = str_chars(header);
    let pairs = split_at_char(h.as_slice(), ';');
    let ghost views = pairs@.map_values(|v: Vec<char>| v@);
    let key = str_chars("SAPISID");
    let mut i: usize = 0;
    while i < pairs.len()
        invariant
            views == pairs@.map_values(|v: Vec<char>| v@),
            views == split_char(h@, ';'),
            h@ == header@,
            key@ == "SAPISID"@,
            i <= pairs@.len(),
            header_sapisid(header@) == sapisid_in_pairs(views, i as int),
        decreases pairs@.len() - i,
    {
        let trimmed = trim_chars(pairs[i].as_slice());
        assert(pairs@[i as int]@ == views[i as int]);
        match split_once(trimmed.as_slice(), '=') {
            Some((name, val)) => {
                let value = trim_chars(val.as_slice());
                let tname = trim_chars(name.as_slice());
                if chars_eq(tname.as_slice(), key.as_slice()) && value.len() > 0 {
                    return Some(string_from_chars(value.as_slice()));
                }
            },
            None => {},
        }
        i += 1;
    }
    None
}

/// The origin a cookie for `host` is recorded under: `https://<host>/` with
/// leading dots removed, or none when nothing is left of the host.
pub open spec fn origin_url_text(host: Seq<char>) -> Option<Seq<char>> {
    let h = trim_start_char(host, '.');
    if h.len() > 0 {
        Some("https://"@ + h + "/"@)
    } else {
        None
    }
}

/// The origin URL text for `host` (see [`origin_url_text`]).
pub fn origin_text_for_host(host: &str) -> (res: Option<String>)
    ensures
        match (res, origin_url_text(host@)) {
            (Some(r), Some(e)) => r@ == e,
            (None, None) => true,
            _ => false,
        },
{
    let hc = str_chars(host);
    let h = trim_start_matches_char(hc.as_slice(), '.');
    if h.len() > 0 {
        let mut out: Vec<char> = Vec::new();
        push_str(&mut out, "https://");
        push_all(&mut out, h.as_slice());
        push_str(&mut out, "/");
        Some(string_from_chars(out.as_slice()))
    } else {
        None
    }
}

// ---------------------------------------------------------------------------
// Laws of the cookie rules
// ---------------------------------------------------------------------------

/// Lower-casing twice is lower-casing once.
pub proof fn lemma_lower_idempotent(s: Seq<char>)
    ensures
        lower_seq(lower_seq(s)) == lower_seq(s),
{
    assert forall|i: int| 0 <= i < s.len() implies #[trigger] lower_seq(lower_seq(s))[i] == lower_seq(
        s,
    )[i] by {
        let c = s[i];
        if is_ascii_upper(c) {
            assert(((c as u32) + 32) as char as u32 == (c as u32) + 32);
        }
    }
    assert(lower_seq(lower_seq(s)) =~= lower_seq(s));
}

/// Lower-casing goes character by character.
pub proof fn lemma_lower_concat(a: Seq<char>, b: Seq<char>)
    ensures
        lower_seq(a + b) == lower_seq(a) + lower_seq(b),
{
    assert(lower_seq(a + b) =~= lower_seq(a) + lower_seq(b));
}

/// Whether a cookie applies to a host does not depend on ASCII case, of the
/// host or of the cookie's domain.
pub proof fn lemma_domain_applies_ignores_case(cookie_domain: Seq<char>, host: Seq<char>)
    ensures
        domain_applies(cookie_domain, host) == domain_applies(
            lower_seq(cookie_domain),
            lower_seq(host),
        ),
{
    lemma_lower_idempotent(cookie_domain);
    lemma_lower_idempotent(host);
    if cookie_domain.len() > 0 && cookie_domain[0] == '.' {
        let d = cookie_domain.drop_first();
        assert(lower_seq(cookie_domain)[0] == '.');
        assert(lower_seq(cookie_domain).drop_first() =~= lower_seq(d));
        lemma_lower_idempotent(d);
    } else if cookie_domain.len() > 0 {
        assert(lower_seq(cookie_domain)[0] == ascii_lower(cookie_domain[0]));
        if is_ascii_upper(cookie_domain[0]) {
            assert(((cookie_domain[0] as u32) + 32) as char as u32 == (cookie_domain[0] as u32)
                + 32);
        }
    }
}

/// A domain cookie (`.d`) applies to `d` itself and to every host below it
/// (`label.d`); a host-only cookie (`d` without a leading dot) applies to
/// exactly the host `d`, up to ASCII case.
pub proof fn lemma_domain_cookie_scope(d: Seq<char>, label: Seq<char>, host: Seq<char>)
    requires
        d.len() > 0,
    ensures
        domain_applies(seq!['.'] + d, d),
        domain_applies(seq!['.'] + d, label + seq!['.'] + d),
        d[0] != '.' ==> (domain_applies(d, host) <==> lower_seq(host) == lower_seq(d)),
{
    let dd = seq!['.'] + d;
    assert(dd.drop_first() =~= d);
    let h = label + seq!['.'] + d;
    lemma_lower_concat(label + seq!['.'], d);
    lemma_lower_concat(label, seq!['.']);
    let lh = lower_seq(h);
    let ld = lower_seq(d);
    assert(lower_seq(seq!['.']) =~= seq!['.']);
    assert(lh =~= lower_seq(label) + seq!['.'] + ld);
    assert(lh.subrange(lh.len() - ld.len(), lh.len() as int) =~= ld);
    assert(lh[lh.len() - ld.len() - 1] == '.');
}

/// A kept Chromium cookie is sent to `music.youtube.com`, has not expired
/// and has a name and a value; every such cookie of the input is kept.
pub proof fn lemma_kept_chromium_cookies(cookies: Seq<BrowserCookie>, now_secs: i64)
    ensures
        forall|i: int|
            0 <= i < cookies.filter(chromium_kept_at(now_secs)).len()
                ==> {
                let c = #[trigger] cookies.filter(
                    chromium_kept_at(now_secs),
                )[i];
                &&& domain_applies(c.domain@, ytm_host())
                &&& c.name@.len() > 0 && c.value@.len() > 0
                &&& (c.expires matches Some(exp) ==> exp > now_secs)
            },
        forall|c: BrowserCookie|
            cookies.contains(c) && chromium_cookie_kept(c, now_secs) ==> #[trigger] cookies.filter(
                chromium_kept_at(now_secs),
            ).contains(c),
{
    broadcast use vstd::seq_lib::group_filter_ensures;

    assert forall|c: BrowserCookie|
        cookies.contains(c) && chromium_cookie_kept(c, now_secs) implies #[trigger] cookies.filter(
        chromium_kept_at(now_secs),
    ).contains(c) by {
        let k = choose|k: int| 0 <= k < cookies.len() && cookies[k] == c;
        assert(chromium_cookie_kept(cookies[k], now_secs));
    }
}

/// A kept Gecko cookie is sent to `music.youtube.com` and is a session
/// cookie or has not expired (expiries above ten billion being
/// milliseconds); every such cookie of the queried hosts is kept.
pub proof fn lemma_kept_gecko_cookies(cookies: Seq<GeckoCookie>, now_secs: i64)
    ensures
        forall|i: int|
            0 <= i < cookies.filter(gecko_kept_at(now_secs)).len() ==> {
                let c = #[trigger] cookies.filter(gecko_kept_at(now_secs))[i];
                &&& domain_applies(c.host@, ytm_host())
                &&& (c.expiry == 0 || gecko_expiry_secs(c.expiry) > now_secs)
            },
        forall|c: GeckoCookie|
            cookies.contains(c) && gecko_cookie_kept(c, now_secs) ==> #[trigger] cookies.filter(
                gecko_kept_at(now_secs),
            ).contains(c),
{
    broadcast use vstd::seq_lib::group_filter_ensures;

    assert forall|c: GeckoCookie|
        cookies.contains(c) && gecko_cookie_kept(c, now_secs) implies #[trigger] cookies.filter(
        gecko_kept_at(now_secs),
    ).contains(c) by {
        let k = choose|k: int| 0 <= k < cookies.len() && cookies[k] == c;
        assert(gecko_cookie_kept(cookies[k], now_secs));
    }
}

/// A `Set-Cookie` line starts with `name=value`, and the path it sets is
/// always absolute: a path that is empty or relative becomes `/`.
pub proof fn lemma_set_cookie_line_shape(
    name: Seq<char>,
    value: Seq<char>,
    domain: Seq<char>,
    path: Seq<char>,
    secure: bool,
    http_only: bool,
)
    ensures
        has_prefix(
            set_cookie_line(name, value, domain, path, secure, http_only),
            name + "="@ + value,
        ),
        normalized_path(path).len() > 0 && normalized_path(path)[0] == '/',
        !(path.len() > 0 && path[0] == '/') ==> normalized_path(path) == "/"@,
{
    reveal_strlit("/");
    let line = set_cookie_line(name, value, domain, path, secure, http_only);
    let p = name + "="@ + value;
    assert(line.subrange(0, p.len() as int) =~= p);
}

proof fn lemma_sapisid_in_pairs_nonempty(pairs: Seq<Seq<char>>, i: int)
    ensures
        sapisid_in_pairs(pairs, i) matches Some(v) ==> v.len() > 0,
    decreases pairs.len() - i,
{
    if 0 <= i < pairs.len() {
        lemma_sapisid_in_pairs_nonempty(pairs, i + 1);
    }
}

/// A `SAPISID` read from a `Cookie` header is never empty.
pub proof fn lemma_header_sapisid_nonempty(header: Seq<char>)
    ensures
        header_sapisid(header) matches Some(v) ==> v.len() > 0,
{
    lemma_sapisid_in_pairs_nonempty(split_char(header, ';'), 0);
}

} // verus!
