//! Turning browser cookies into a request session, and choosing one session
//! among the browsers found.
//!
//! A session is a cookie jar together with the `SAPISID` value the jar sends
//! to YouTube Music, if any. The jar is `reqwest`'s; [`CookieJar`] records
//! the `Set-Cookie` lines handed to it, and whether the jar sends a
//! `SAPISID` is named [`jar_sends_sapisid`] of those lines. What is verified
//! is which lines the jar is filled with, how the `SAPISID` is read back from
//! the `Cookie` header it produces, and the precedence rules between
//! candidate sessions, containers and browser families.

use vstd::prelude::*;

use crate::cookies::{
    cookie_to_set_cookie, filter_chromium_cookies, filter_gecko_cookies, header_sapisid,
    origin_text_for_host, sapisid_from_cookie_header, BrowserCookie, GeckoCookie,
};
use crate::error::{YError, YResult};
use crate::paths::{dedup, sort_lex, sort_names, string_views};
use crate::text::{chars_eq, lemma_find_from, occurs_at, spec_split_once, str_chars, trim};

verus! {

#[verifier::external_type_specification]
#[verifier::external_body]
pub struct ExJar(reqwest::cookie::Jar);

#[verifier::external_type_specification]
#[verifier::external_body]
pub struct ExUrl(url::Url);

/// A `reqwest` cookie jar together with the `Set-Cookie` lines handed to it,
/// in order, each with the text of the URL it was stored from. The jar is
/// changed only through [`CookieJar::add_cookie_str`], so the lines are
/// exactly what the jar was filled with.
pub struct CookieJar {
    jar: reqwest::cookie::Jar,
    lines: Ghost<Seq<(Seq<char>, Seq<char>)>>,
}

/// A cookie jar and the `SAPISID` it carries for YouTube Music, if any.
pub type Session = (CookieJar, Option<String>);

/// An HTTP client that sends the cookies of a jar, together with the lines
/// that jar was filled with and the user agent the client presents.
pub struct HttpClient {
    client: reqwest::Client,
    jar_lines: Ghost<Seq<(Seq<char>, Seq<char>)>>,
    agent: String,
}

impl HttpClient {
    /// The lines of the jar whose cookies the client sends.
    pub closed spec fn jar_lines(&self) -> Seq<(Seq<char>, Seq<char>)> {
        self.jar_lines@
    }

    /// The user agent the client presents.
    pub closed spec fn agent(&self) -> Seq<char> {
        self.agent@
    }

    /// The user agent the client presents.
    pub fn agent_text(&self) -> (res: &str)
        ensures
            res@ == self.agent(),
    {
        self.agent.as_str()
    }

    /// The `reqwest` client, to send requests with.
    pub fn client(&self) -> &reqwest::Client {
        &self.client
    }
}

/// `reqwest::Client::builder()` with the jar's `reqwest` jar as cookie
/// provider and `agent` as user agent, then `build()`. The client built
/// keeps the jar's lines and the agent beside it. Building may fail for
/// reasons of the machine (the TLS set-up), so nothing is claimed about
/// when it succeeds.
#[verifier::external_body]
pub(crate) fn build_http_client(jar: CookieJar, agent: &str) -> (res: Result<
    HttpClient,
    reqwest::Error,
>)
    ensures
        res matches Ok(c) ==> c.jar_lines() == jar.lines() && c.agent() == agent@,
{
    let lines = jar.lines;
    match reqwest::Client::builder().cookie_provider(std::sync::Arc::new(jar.jar)).user_agent(
        agent,
    ).build() {
        Ok(client) => Ok(HttpClient { client, jar_lines: lines, agent: agent.to_string() }),
        Err(e) => Err(e),
    }
}

/// `Jar::default`: an empty cookie jar.
#[verifier::external_body]
fn new_jar() -> reqwest::cookie::Jar {
    reqwest::cookie::Jar::default()
}

/// `Jar::add_cookie_str`: stores a `Set-Cookie` line as if received from
/// `url`. The jar keeps its cookies behind a lock, so the change is not
/// visible in the jar's value; [`CookieJar`] records the line instead.
#[verifier::external_body]
fn jar_add_cookie_str(jar: &reqwest::cookie::Jar, cookie: &str, url: &url::Url) {
    jar.add_cookie_str(cookie, url)
}

/// A piece of a cookie that holds no `;`, so that it cannot add an
/// attribute to the `Set-Cookie` line it is put in.
pub open spec fn plain_text(s: Seq<char>) -> bool {
    !s.contains(';')
}

/// The pieces of a cookie hold no `;`, and its name holds no `=`.
pub open spec fn plain_fields(name: Seq<char>, value: Seq<char>, domain: Seq<char>, path: Seq<char>) -> bool {
    plain_text(name) && !name.contains('=') && plain_text(value) && plain_text(domain) && plain_text(
        path,
    )
}

/// The name the `cookie` crate reads from a `Set-Cookie` line: the text
/// before the first `;`, then the part of it before the first `=`, trimmed.
pub open spec fn line_cookie_name(line: Seq<char>) -> Seq<char> {
    let first = match spec_split_once(line, ';') {
        Some((a, _)) => a,
        None => line,
    };
    match spec_split_once(first, '=') {
        Some((n, _)) => trim(n),
        None => trim(first),
    }
}

/// The value the `cookie` crate reads from a `Set-Cookie` line: the text
/// before the first `;`, then the part of it after the first `=`, trimmed.
pub open spec fn line_cookie_value(line: Seq<char>) -> Seq<char> {
    let first = match spec_split_once(line, ';') {
        Some((a, _)) => a,
        None => line,
    };
    match spec_split_once(first, '=') {
        Some((_, v)) => trim(v),
        None => Seq::empty(),
    }
}

/// Some line sets a cookie named `SAPISID` with the value `v`.
pub open spec fn sets_sapisid(lines: Seq<(Seq<char>, Seq<char>)>, v: Seq<char>) -> bool {
    exists|i: int|
        0 <= i < lines.len() && line_cookie_name(#[trigger] lines[i].0) == "SAPISID"@
            && line_cookie_value(lines[i].0) == v
}

proof fn lemma_sets_has(lines: Seq<(Seq<char>, Seq<char>)>, v: Seq<char>)
    requires
        sets_sapisid(lines, v),
    ensures
        has_sapisid_line(lines),
{
    let i = choose|i: int|
        0 <= i < lines.len() && line_cookie_name(#[trigger] lines[i].0) == "SAPISID"@
            && line_cookie_value(lines[i].0) == v;
    assert(line_cookie_name(lines[i].0) == "SAPISID"@);
}

/// Some line sets a cookie named `SAPISID`.
pub open spec fn has_sapisid_line(lines: Seq<(Seq<char>, Seq<char>)>) -> bool {
    exists|i: int| 0 <= i < lines.len() && line_cookie_name(#[trigger] lines[i].0) == "SAPISID"@
}

/// Splitting at the first `c` of `a + [c] + b`, where `a` holds no `c`.
proof fn lemma_split_once_at(a: Seq<char>, c: char, b: Seq<char>)
    requires
        !a.contains(c),
    ensures
        spec_split_once(a + seq![c] + b, c) == Some((a, b)),
{
    let s = a + seq![c] + b;
    let pat = seq![c];
    lemma_find_from(s, pat, 0);
    assert(s.subrange(a.len() as int, a.len() as int + 1) =~= pat);
    assert(occurs_at(s, pat, a.len() as int));
    match crate::text::find_from(s, pat, 0) {
        Some(k) => {
            if k < a.len() {
                assert(s.subrange(k, k + 1) == pat);
                assert(s[k] == s.subrange(k, k + 1)[0]);
                assert(a[k] == c);
            }
        },
        None => {},
    }
    assert(s.subrange(0, a.len() as int) =~= a);
    assert(s.subrange(a.len() as int + 1, s.len() as int) =~= b);
}

/// The name the `cookie` crate reads from a line made of plain pieces is
/// the cookie's name, trimmed.
proof fn lemma_line_cookie_name(
    n: Seq<char>,
    v: Seq<char>,
    d: Seq<char>,
    p: Seq<char>,
    sec: bool,
    ho: bool,
)
    requires
        plain_fields(n, v, d, p),
    ensures
        line_cookie_name(crate::cookies::set_cookie_line(n, v, d, p, sec, ho)) == trim(n),
        line_cookie_value(crate::cookies::set_cookie_line(n, v, d, p, sec, ho)) == trim(v),
{
    reveal_strlit("=");
    reveal_strlit("; Domain=");
    reveal_strlit("; Path=");
    let line = crate::cookies::set_cookie_line(n, v, d, p, sec, ho);
    let first = n + seq!['='] + v;
    let rest = line.subrange(first.len() as int + 1, line.len() as int);
    assert(line =~= first + seq![';'] + rest);
    assert(!first.contains(';')) by {
        if first.contains(';') {
            let k = choose|k: int| 0 <= k < first.len() && first[k] == ';';
            if k < n.len() {
                assert(n[k] == ';');
            } else if k > n.len() {
                assert(v[k - n.len() - 1] == ';');
            }
        }
    }
    lemma_split_once_at(first, ';', rest);
    lemma_split_once_at(n, '=', v);
}



/// A `Set-Cookie` line as [`crate::cookies::set_cookie_line`] makes it from
/// pieces without `;`: its only attributes are `Domain`, `Path`, `Secure`
/// and `HttpOnly`, so the cookie never expires.
pub open spec fn session_line(line: Seq<char>) -> bool {
    exists|n: Seq<char>, v: Seq<char>, d: Seq<char>, p: Seq<char>, s: bool, h: bool|
        plain_fields(n, v, d, p) && line == #[trigger] crate::cookies::set_cookie_line(n, v, d, p, s, h)
}

pub open spec fn session_lines(lines: Seq<(Seq<char>, Seq<char>)>) -> bool {
    forall|i: int| 0 <= i < lines.len() ==> session_line(#[trigger] lines[i].0)
}

/// Whether a `reqwest` jar filled, in order, with the given `Set-Cookie`
/// lines, each stored as received from the URL its text parses to, sends to
/// the URL `url` parses to a `Cookie` header in which [`header_sapisid`]
/// finds a `SAPISID`. For lines that set no expiry this is decided by
/// `cookie_store`'s storing and matching of the lines alone; only the order
/// of the header's pairs depends on hash-map order, and whether a pair is
/// there does not.
pub uninterp spec fn jar_sends_sapisid(lines: Seq<(Seq<char>, Seq<char>)>, url: Seq<char>) -> bool;

/// The `SAPISID` a header carries, if any (see [`header_sapisid`]).
pub open spec fn header_sapisid_of(header: Option<String>) -> Option<Seq<char>> {
    match header {
        Some(h) => header_sapisid(h@),
        None => None,
    }
}

/// The header carries a `SAPISID` (see [`header_sapisid`]).
pub open spec fn header_has_sapisid(header: Option<String>) -> bool {
    match header {
        Some(h) => header_sapisid(h@) is Some,
        None => false,
    }
}

/// `CookieStore::cookies` of the jar for `url`, as text: the `Cookie` header
/// the jar would send, or none when it sends nothing or the header is not
/// visible ASCII. `url_text` is the text `url` was parsed from; the contract
/// speaks of the URL through it. `reqwest` joins the `name=value` pairs of
/// the stored cookies that apply to `url` with `"; "` and gives none for an
/// empty result, so a jar that was never filled sends nothing and a header
/// sent is never empty. For lines that set no expiry, whether the header
/// carries a `SAPISID` is [`jar_sends_sapisid`] of the lines and the URL;
/// the order of the pairs follows hash-map order and is not claimed. Each
/// pair is the name and value of a stored cookie (`Cookie::name_value`),
/// which the `cookie` crate parsed from a line handed in, name and value
/// each trimmed (see [`line_cookie_name`] and [`line_cookie_value`]); names
/// hold no `=` and values no `;`. So a `SAPISID` the header carries is the
/// value of a line that sets a cookie of that name. Which of several such
/// lines it is, is `cookie_store`'s matching and replacing, and is not
/// claimed.
#[verifier::external_body]
fn jar_cookie_header(jar: &CookieJar, url: &url::Url, url_text: &str) -> (res: Option<String>)
    requires
        url_parse_result(url_text@) == Ok::<url::Url, url::ParseError>(*url),
    ensures
        jar.lines().len() == 0 ==> res is None,
        res matches Some(h) ==> h@.len() > 0,
        session_lines(jar.lines()) ==> (header_has_sapisid(res) <==> jar_sends_sapisid(
            jar.lines(),
            url_text@,
        )),
        header_sapisid_of(res) matches Some(v) ==> sets_sapisid(jar.lines(), v),
{
    match reqwest::cookie::CookieStore::cookies(&jar.jar, url) {
        Some(h) => match h.to_str() {
            Ok(s) => Some(s.to_string()),
            Err(_) => None,
        },
        None => None,
    }
}

impl CookieJar {
    /// The `Set-Cookie` lines handed to the jar, in order, each with the text
    /// of the URL it was stored from.
    pub closed spec fn lines(&self) -> Seq<(Seq<char>, Seq<char>)> {
        self.lines@
    }

    /// An empty jar.
    pub fn new() -> (res: CookieJar)
        ensures
            res.lines() == Seq::<(Seq<char>, Seq<char>)>::empty(),
    {
        CookieJar { jar: new_jar(), lines: Ghost(Seq::empty()) }
    }

    /// Stores a `Set-Cookie` line as if received from the URL `url_text`
    /// parses to; a text that is not a URL is refused and nothing is stored.
    pub fn add_cookie_str(&mut self, line: &str, url_text: &str) -> (res: Result<(), url::ParseError>)
        ensures
            match url_parse_result(url_text@) {
                Ok(_) => res is Ok && final(self).lines() == old(self).lines().push(
                    (line@, url_text@),
                ),
                Err(e) => res == Err::<(), url::ParseError>(e) && final(self).lines() == old(
                    self,
                ).lines(),
            },
    {
        match parse_url(url_text) {
            Ok(u) => {
                jar_add_cookie_str(&self.jar, line, &u);
                self.lines = Ghost(self.lines@.push((line@, url_text@)));
                Ok(())
            },
            Err(e) => Err(e),
        }
    }

    /// The `Cookie` header the jar sends to the URL `url_text` parses to, if
    /// any: none for a text that is not a URL and for a jar that was never
    /// filled, and never an empty text.
    pub fn cookie_header(&self, url_text: &str) -> (res: Option<String>)
        ensures
            url_parse_result(url_text@) is Err ==> res is None,
            self.lines().len() == 0 ==> res is None,
            res matches Some(h) ==> h@.len() > 0,
            url_parse_result(url_text@) is Ok && session_lines(self.lines()) ==> (header_has_sapisid(
                res,
            ) <==> jar_sends_sapisid(self.lines(), url_text@)),
            header_sapisid_of(res) matches Some(v) ==> sets_sapisid(self.lines(), v),
    {
        match parse_url(url_text) {
            Ok(u) => jar_cookie_header(self, &u, url_text),
            Err(_) => None,
        }
    }

    /// The `reqwest` jar, to be given to an HTTP client.
    pub fn into_jar(self) -> reqwest::cookie::Jar {
        self.jar
    }
}

/// What `Url::parse` gives for a text: the parsed URL or the parse error.
pub uninterp spec fn url_parse_result(text: Seq<char>) -> Result<url::Url, url::ParseError>;

/// `Url::parse`, a function of the text alone. What it accepts and the URL
/// it builds are not stated here; the result is named
/// [`url_parse_result`].
#[verifier::external_body]
pub(crate) fn parse_url(text: &str) -> (res: Result<url::Url, url::ParseError>)
    ensures
        res == url_parse_result(text@),
{
    url::Url::parse(text)
}

/// `Url::clone`: an equal URL.
#[verifier::external_body]
pub(crate) fn clone_url(u: &url::Url) -> (res: url::Url)
    ensures
        res == *u,
{
    u.clone()
}

/// The URL a cookie for `host` is stored from: `https://<host>/` (leading
/// dots of the host removed) when that parses, otherwise `default_url`.
pub open spec fn cookie_origin(host: Seq<char>, default_url: url::Url) -> url::Url {
    match crate::cookies::origin_url_text(host) {
        Some(t) => match url_parse_result(t) {
            Ok(u) => u,
            Err(_) => default_url,
        },
        None => default_url,
    }
}

/// The URL a cookie for `host` is stored from (see [`cookie_origin`]).
pub fn origin_url_for_cookie(host: &str, default_url: &url::Url) -> (res: url::Url)
    ensures
        res == cookie_origin(host@, *default_url),
{
    match origin_text_for_host(host) {
        Some(text) => match parse_url(text.as_str()) {
            Ok(u) => u,
            Err(_) => clone_url(default_url),
        },
        None => clone_url(default_url),
    }
}

/// The text of the URL a cookie for `host` is stored from: `https://<host>/`
/// (leading dots of the host removed) when that parses, otherwise the
/// YouTube Music origin.
pub open spec fn cookie_origin_text(host: Seq<char>) -> Seq<char> {
    match crate::cookies::origin_url_text(host) {
        Some(t) => if url_parse_result(t) is Ok {
            t
        } else {
            crate::cookies::ytm_domain()
        },
        None => crate::cookies::ytm_domain(),
    }
}

/// The text of the URL a cookie for `host` is stored from (see
/// [`cookie_origin_text`]).
pub fn origin_text_for_cookie(host: &str) -> (res: String)
    ensures
        res@ == cookie_origin_text(host@),
{
    match origin_text_for_host(host) {
        Some(text) => match parse_url(text.as_str()) {
            Ok(_) => text,
            Err(_) => ytm_domain_text().to_string(),
        },
        None => ytm_domain_text().to_string(),
    }
}

/// The `SAPISID` the jar sends to the URL `url_text` parses to: read from
/// the jar's `Cookie` header as [`header_sapisid`] describes; none from a
/// jar that was never filled. For lines that set no expiry there is one
/// exactly when [`jar_sends_sapisid`] says so.
pub fn sapisid_from_jar(jar: &CookieJar, url_text: &str) -> (res: Option<String>)
    ensures
        res matches Some(v) ==> exists|h: Seq<char>| header_sapisid(h) == Some(v@),
        jar.lines().len() == 0 ==> res is None,
        url_parse_result(url_text@) is Ok && session_lines(jar.lines()) ==> (res is Some
            <==> jar_sends_sapisid(jar.lines(), url_text@)),
        res matches Some(v) ==> sets_sapisid(jar.lines(), v@),
        res is Some ==> has_sapisid_line(jar.lines()),
{
    match jar.cookie_header(url_text) {
        Some(h) => {
            let r = sapisid_from_cookie_header(h.as_str());
            proof {
                if r is Some {
                    lemma_sets_has(jar.lines(), r->0@);
                }
            }
            r
        },
        None => None,
    }
}

/// The text of the YouTube Music origin.
pub fn ytm_domain_text() -> (res: &'static str)
    ensures
        res@ == crate::cookies::ytm_domain(),
{
    "https://music.youtube.com"
}

/// The line a Chromium cookie puts into a jar, with the text of the URL it
/// is stored from.
pub open spec fn chromium_jar_line(c: BrowserCookie) -> (Seq<char>, Seq<char>) {
    (
        crate::cookies::set_cookie_line(
            c.name@,
            c.value@,
            c.domain@,
            c.path@,
            c.secure,
            c.http_only,
        ),
        cookie_origin_text(c.domain@),
    )
}

/// The lines Chromium cookies put into a jar, in order.
pub open spec fn chromium_jar_lines(cs: Seq<BrowserCookie>) -> Seq<(Seq<char>, Seq<char>)>
    decreases cs.len(),
{
    if cs.len() == 0 {
        Seq::empty()
    } else {
        chromium_jar_lines(cs.drop_last()).push(chromium_jar_line(cs.last()))
    }
}

/// The line a Gecko cookie puts into a jar, with the text of the URL it is
/// stored from.
pub open spec fn gecko_jar_line(c: GeckoCookie) -> (Seq<char>, Seq<char>) {
    (
        crate::cookies::set_cookie_line(
            c.name@,
            c.value@,
            c.host@,
            c.path@,
            c.is_secure,
            c.is_http_only,
        ),
        cookie_origin_text(c.host@),
    )
}

/// The lines Gecko cookies put into a jar, in order.
pub open spec fn gecko_jar_lines(cs: Seq<GeckoCookie>) -> Seq<(Seq<char>, Seq<char>)>
    decreases cs.len(),
{
    if cs.len() == 0 {
        Seq::empty()
    } else {
        gecko_jar_lines(cs.drop_last()).push(gecko_jar_line(cs.last()))
    }
}

/// No piece of any Chromium cookie holds a `;`.
pub open spec fn plain_chromium(cs: Seq<BrowserCookie>) -> bool {
    forall|i: int|
        0 <= i < cs.len() ==> plain_fields(
            (#[trigger] cs[i]).name@,
            cs[i].value@,
            cs[i].domain@,
            cs[i].path@,
        )
}

/// No piece of any Gecko cookie holds a `;`.
pub open spec fn plain_gecko(cs: Seq<GeckoCookie>) -> bool {
    forall|i: int|
        0 <= i < cs.len() ==> plain_fields(
            (#[trigger] cs[i]).name@,
            cs[i].value@,
            cs[i].host@,
            cs[i].path@,
        )
}

pub proof fn lemma_chromium_session_lines(cs: Seq<BrowserCookie>)
    requires
        plain_chromium(cs),
    ensures
        session_lines(chromium_jar_lines(cs)),
        chromium_jar_lines(cs).len() == cs.len(),
    decreases cs.len(),
{
    if cs.len() > 0 {
        let p = cs.drop_last();
        assert(plain_chromium(p)) by {
            assert forall|i: int| 0 <= i < p.len() implies plain_fields(
                (#[trigger] p[i]).name@,
                p[i].value@,
                p[i].domain@,
                p[i].path@,
            ) by {
                assert(p[i] == cs[i]);
            }
        }
        lemma_chromium_session_lines(p);
        let c = cs.last();
        assert(plain_fields(cs[cs.len() - 1].name@, cs[cs.len() - 1].value@, cs[cs.len() - 1].domain@, cs[cs.len() - 1].path@));
        let l = chromium_jar_line(c).0;
        assert(l == crate::cookies::set_cookie_line(
            c.name@,
            c.value@,
            c.domain@,
            c.path@,
            c.secure,
            c.http_only,
        ));
        assert(session_line(l));
        let all = chromium_jar_lines(cs);
        assert forall|i: int| 0 <= i < all.len() implies session_line(#[trigger] all[i].0) by {
            if i < all.len() - 1 {
                assert(all[i] == chromium_jar_lines(p)[i]);
            }
        }
    }
}

pub proof fn lemma_gecko_session_lines(cs: Seq<GeckoCookie>)
    requires
        plain_gecko(cs),
    ensures
        session_lines(gecko_jar_lines(cs)),
        gecko_jar_lines(cs).len() == cs.len(),
    decreases cs.len(),
{
    if cs.len() > 0 {
        let p = cs.drop_last();
        assert(plain_gecko(p)) by {
            assert forall|i: int| 0 <= i < p.len() implies plain_fields(
                (#[trigger] p[i]).name@,
                p[i].value@,
                p[i].host@,
                p[i].path@,
            ) by {
                assert(p[i] == cs[i]);
            }
        }
        lemma_gecko_session_lines(p);
        let c = cs.last();
        assert(plain_fields(cs[cs.len() - 1].name@, cs[cs.len() - 1].value@, cs[cs.len() - 1].host@, cs[cs.len() - 1].path@));
        let l = gecko_jar_line(c).0;
        assert(l == crate::cookies::set_cookie_line(
            c.name@,
            c.value@,
            c.host@,
            c.path@,
            c.is_secure,
            c.is_http_only,
        ));
        assert(session_line(l));
        let all = gecko_jar_lines(cs);
        assert forall|i: int| 0 <= i < all.len() implies session_line(#[trigger] all[i].0) by {
            if i < all.len() - 1 {
                assert(all[i] == gecko_jar_lines(p)[i]);
            }
        }
    }
}

/// Some Gecko cookie is named `SAPISID` (its name trimmed).
pub open spec fn gecko_names_sapisid(cs: Seq<GeckoCookie>) -> bool {
    exists|i: int| 0 <= i < cs.len() && trim((#[trigger] cs[i]).name@) == "SAPISID"@
}

/// Some Chromium cookie is named `SAPISID` (its name trimmed).
pub open spec fn chromium_names_sapisid(cs: Seq<BrowserCookie>) -> bool {
    exists|i: int| 0 <= i < cs.len() && trim((#[trigger] cs[i]).name@) == "SAPISID"@
}

proof fn lemma_gecko_jar_lines_len(cs: Seq<GeckoCookie>)
    ensures
        gecko_jar_lines(cs).len() == cs.len(),
    decreases cs.len(),
{
    if cs.len() > 0 {
        lemma_gecko_jar_lines_len(cs.drop_last());
    }
}

proof fn lemma_gecko_jar_lines_index(cs: Seq<GeckoCookie>, i: int)
    requires
        0 <= i < cs.len(),
    ensures
        gecko_jar_lines(cs)[i] == gecko_jar_line(cs[i]),
    decreases cs.len(),
{
    let p = cs.drop_last();
    lemma_gecko_jar_lines_len(p);
    if i < p.len() {
        lemma_gecko_jar_lines_index(p, i);
        assert(p[i] == cs[i]);
    }
}

proof fn lemma_chromium_jar_lines_len(cs: Seq<BrowserCookie>)
    ensures
        chromium_jar_lines(cs).len() == cs.len(),
    decreases cs.len(),
{
    if cs.len() > 0 {
        lemma_chromium_jar_lines_len(cs.drop_last());
    }
}

proof fn lemma_chromium_jar_lines_index(cs: Seq<BrowserCookie>, i: int)
    requires
        0 <= i < cs.len(),
    ensures
        chromium_jar_lines(cs)[i] == chromium_jar_line(cs[i]),
    decreases cs.len(),
{
    let p = cs.drop_last();
    lemma_chromium_jar_lines_len(p);
    if i < p.len() {
        lemma_chromium_jar_lines_index(p, i);
        assert(p[i] == cs[i]);
    }
}

/// A jar filled from Gecko cookies with plain pieces holds a line setting a
/// `SAPISID` cookie only when one of the cookies is named `SAPISID`: a jar
/// without such a cookie never yields a `SAPISID`.
pub proof fn lemma_gecko_sapisid_needs_name(cs: Seq<GeckoCookie>)
    requires
        plain_gecko(cs),
        has_sapisid_line(gecko_jar_lines(cs)),
    ensures
        gecko_names_sapisid(cs),
{
    let lines = gecko_jar_lines(cs);
    lemma_gecko_jar_lines_len(cs);
    let i = choose|i: int| 0 <= i < lines.len() && line_cookie_name(#[trigger] lines[i].0) == "SAPISID"@;
    lemma_gecko_jar_lines_index(cs, i);
    assert(plain_fields(cs[i].name@, cs[i].value@, cs[i].host@, cs[i].path@));
    lemma_line_cookie_name(cs[i].name@, cs[i].value@, cs[i].host@, cs[i].path@, cs[i].is_secure, cs[i].is_http_only);
}

/// The same for Chromium cookies.
pub proof fn lemma_chromium_sapisid_needs_name(cs: Seq<BrowserCookie>)
    requires
        plain_chromium(cs),
        has_sapisid_line(chromium_jar_lines(cs)),
    ensures
        chromium_names_sapisid(cs),
{
    let lines = chromium_jar_lines(cs);
    lemma_chromium_jar_lines_len(cs);
    let i = choose|i: int| 0 <= i < lines.len() && line_cookie_name(#[trigger] lines[i].0) == "SAPISID"@;
    lemma_chromium_jar_lines_index(cs, i);
    assert(plain_fields(cs[i].name@, cs[i].value@, cs[i].domain@, cs[i].path@));
    lemma_line_cookie_name(cs[i].name@, cs[i].value@, cs[i].domain@, cs[i].path@, cs[i].secure, cs[i].http_only);
}

/// Some Gecko cookie is named `SAPISID` and has the value `v` (name and
/// value trimmed).
pub open spec fn gecko_sapisid_value(cs: Seq<GeckoCookie>, v: Seq<char>) -> bool {
    exists|i: int|
        0 <= i < cs.len() && trim((#[trigger] cs[i]).name@) == "SAPISID"@ && trim(cs[i].value@) == v
}

/// Some Chromium cookie is named `SAPISID` and has the value `v` (name and
/// value trimmed).
pub open spec fn chromium_sapisid_value(cs: Seq<BrowserCookie>, v: Seq<char>) -> bool {
    exists|i: int|
        0 <= i < cs.len() && trim((#[trigger] cs[i]).name@) == "SAPISID"@ && trim(cs[i].value@) == v
}

/// The `SAPISID` value a jar filled from Gecko cookies with plain pieces can
/// carry is the value of one of those cookies named `SAPISID`.
pub proof fn lemma_gecko_sapisid_from_cookie(cs: Seq<GeckoCookie>, v: Seq<char>)
    requires
        plain_gecko(cs),
        sets_sapisid(gecko_jar_lines(cs), v),
    ensures
        gecko_sapisid_value(cs, v),
{
    let lines = gecko_jar_lines(cs);
    lemma_gecko_jar_lines_len(cs);
    let i = choose|i: int|
        0 <= i < lines.len() && line_cookie_name(#[trigger] lines[i].0) == "SAPISID"@
            && line_cookie_value(lines[i].0) == v;
    lemma_gecko_jar_lines_index(cs, i);
    assert(plain_fields(cs[i].name@, cs[i].value@, cs[i].host@, cs[i].path@));
    lemma_line_cookie_name(cs[i].name@, cs[i].value@, cs[i].host@, cs[i].path@, cs[i].is_secure, cs[i].is_http_only);
}

/// The same for Chromium cookies.
pub proof fn lemma_chromium_sapisid_from_cookie(cs: Seq<BrowserCookie>, v: Seq<char>)
    requires
        plain_chromium(cs),
        sets_sapisid(chromium_jar_lines(cs), v),
    ensures
        chromium_sapisid_value(cs, v),
{
    let lines = chromium_jar_lines(cs);
    lemma_chromium_jar_lines_len(cs);
    let i = choose|i: int|
        0 <= i < lines.len() && line_cookie_name(#[trigger] lines[i].0) == "SAPISID"@
            && line_cookie_value(lines[i].0) == v;
    lemma_chromium_jar_lines_index(cs, i);
    assert(plain_fields(cs[i].name@, cs[i].value@, cs[i].domain@, cs[i].path@));
    lemma_line_cookie_name(cs[i].name@, cs[i].value@, cs[i].domain@, cs[i].path@, cs[i].secure, cs[i].http_only);
}

/// What a jar built from cookies holds and reports: on success the jar holds
/// `lines`; the `SAPISID` is one the jar's `Cookie` header carries, there is
/// none without cookies, and for cookies without `;` in their pieces there
/// is one exactly when the jar sends one to YouTube Music
/// ([`jar_sends_sapisid`]). Building fails exactly when the YouTube Music
/// origin does not parse.
pub open spec fn built_session(
    res: YResult<Session>,
    n: nat,
    plain: bool,
    lines: Seq<(Seq<char>, Seq<char>)>,
) -> bool {
    &&& res is Ok <==> url_parse_result(crate::cookies::ytm_domain()) is Ok
    &&& res matches Err(e) ==> e is UrlParseError
    &&& res matches Ok((jar, sapisid)) ==> {
        &&& jar.lines() == lines
        &&& sapisid matches Some(v) ==> exists|h: Seq<char>| header_sapisid(h) == Some(v@)
        &&& n == 0 ==> sapisid is None
        &&& sapisid is Some ==> has_sapisid_line(lines)
        &&& sapisid matches Some(v) ==> sets_sapisid(lines, v@)
        &&& plain ==> (sapisid is Some <==> jar_sends_sapisid(lines, crate::cookies::ytm_domain()))
    }
}

/// Fills a new jar with the `Set-Cookie` line of each cookie (see
/// [`crate::cookies::set_cookie_line`]), each stored from the origin of its
/// host, and reads back the `SAPISID` the jar sends to YouTube Music.
/// Fails only when the YouTube Music origin does not parse.
pub fn build_jar_from_chromium_cookies(cookies: &Vec<BrowserCookie>) -> (res: YResult<Session>)
    ensures
        built_session(res, cookies@.len(), plain_chromium(cookies@), chromium_jar_lines(cookies@)),
        plain_chromium(cookies@) ==> (res matches Ok((_, Some(v))) ==> chromium_sapisid_value(
            cookies@,
            v@,
        )),
{
    let mut jar = CookieJar::new();
    let ytm = ytm_domain_text();
    match parse_url(ytm) {
        Ok(_) => {},
        Err(e) => {
            return Err(YError::UrlParseError(e));
        },
    }
    let mut i: usize = 0;
    while i < cookies.len()
        invariant
            i <= cookies@.len(),
            url_parse_result(crate::cookies::ytm_domain()) is Ok,
            jar.lines() == chromium_jar_lines(cookies@.take(i as int)),
        decreases cookies@.len() - i,
    {
        let c = &cookies[i];
        let line = browser_cookie_to_set_cookie(c);
        let origin = origin_text_for_cookie(c.domain.as_str());
        match jar.add_cookie_str(line.as_str(), origin.as_str()) {
            Ok(()) => {},
            Err(e) => {
                assert(false);
                return Err(YError::UrlParseError(e));
            },
        }
        proof {
            assert(cookies@.take(i + 1).drop_last() =~= cookies@.take(i as int));
            assert(cookies@.take(i + 1).last() == cookies@[i as int]);
        }
        i += 1;
    }
    assert(cookies@.take(i as int) =~= cookies@);
    proof {
        if plain_chromium(cookies@) {
            lemma_chromium_session_lines(cookies@);
        }
    }
    let sapisid = sapisid_from_jar(&jar, ytm);
    proof {
        if sapisid is Some && plain_chromium(cookies@) {
            lemma_chromium_sapisid_from_cookie(cookies@, sapisid->0@);
        }
    }
    Ok((jar, sapisid))
}

/// The `Set-Cookie` line of a Chromium cookie.
pub fn browser_cookie_to_set_cookie(cookie: &BrowserCookie) -> (res: String)
    ensures
        res@ == crate::cookies::set_cookie_line(
            cookie.name@,
            cookie.value@,
            cookie.domain@,
            cookie.path@,
            cookie.secure,
            cookie.http_only,
        ),
{
    cookie_to_set_cookie(
        cookie.name.as_str(),
        cookie.value.as_str(),
        cookie.domain.as_str(),
        cookie.path.as_str(),
        cookie.secure,
        cookie.http_only,
    )
}

/// Fills a new jar from Gecko cookies exactly as
/// [`build_jar_from_chromium_cookies`] does, using each cookie's host.
pub fn build_jar_from_gecko_cookies(cookies: &Vec<GeckoCookie>) -> (res: YResult<Session>)
    ensures
        built_session(res, cookies@.len(), plain_gecko(cookies@), gecko_jar_lines(cookies@)),
        plain_gecko(cookies@) ==> (res matches Ok((_, Some(v))) ==> gecko_sapisid_value(
            cookies@,
            v@,
        )),
{
    let mut jar = CookieJar::new();
    let ytm = ytm_domain_text();
    match parse_url(ytm) {
        Ok(_) => {},
        Err(e) => {
            return Err(YError::UrlParseError(e));
        },
    }
    let mut i: usize = 0;
    while i < cookies.len()
        invariant
            i <= cookies@.len(),
            url_parse_result(crate::cookies::ytm_domain()) is Ok,
            jar.lines() == gecko_jar_lines(cookies@.take(i as int)),
        decreases cookies@.len() - i,
    {
        let c = &cookies[i];
        let line = cookie_to_set_cookie(
            c.name.as_str(),
            c.value.as_str(),
            c.host.as_str(),
            c.path.as_str(),
            c.is_secure,
            c.is_http_only,
        );
        let origin = origin_text_for_cookie(c.host.as_str());
        match jar.add_cookie_str(line.as_str(), origin.as_str()) {
            Ok(()) => {},
            Err(e) => {
                assert(false);
                return Err(YError::UrlParseError(e));
            },
        }
        proof {
            assert(cookies@.take(i + 1).drop_last() =~= cookies@.take(i as int));
            assert(cookies@.take(i + 1).last() == cookies@[i as int]);
        }
        i += 1;
    }
    assert(cookies@.take(i as int) =~= cookies@);
    proof {
        if plain_gecko(cookies@) {
            lemma_gecko_session_lines(cookies@);
        }
    }
    let sapisid = sapisid_from_jar(&jar, ytm);
    proof {
        if sapisid is Some && plain_gecko(cookies@) {
            lemma_gecko_sapisid_from_cookie(cookies@, sapisid->0@);
        }
    }
    Ok((jar, sapisid))
}

// ---------------------------------------------------------------------------
// Choosing among candidate sessions
// ---------------------------------------------------------------------------

/// One candidate offered to the search for a session: an authenticated
/// candidate is chosen (first part); an anonymous one is chosen by nobody
/// but becomes the remembered first anonymous candidate (second part) when
/// none was remembered yet.
pub open spec fn offer(candidate: Session, first: Option<Session>) -> (Option<Session>, Option<
    Session,
>) {
    if candidate.1 is Some {
        (Some(candidate), first)
    } else {
        (None, if first is None {
            Some(candidate)
        } else {
            first
        })
    }
}

/// Offers one candidate session: an authenticated candidate (one with a
/// `SAPISID`) is chosen at once; an anonymous one is remembered if it is the
/// first anonymous candidate seen, and the search goes on.
pub fn select_authenticated_candidate(
    candidate: Session,
    first_anonymous: &mut Option<Session>,
) -> (res: Option<Session>)
    ensures
        (res, *final(first_anonymous)) == offer(candidate, *old(first_anonymous)),
{
    if candidate.1.is_some() {
        return Some(candidate);
    }
    if first_anonymous.is_none() {
        *first_anonymous = Some(candidate);
    }
    None
}

/// The session chosen between the Gecko and the Chromium candidates:
/// an authenticated Gecko session, else an authenticated Chromium session,
/// else an anonymous Gecko session, else an anonymous Chromium session;
/// none when neither family has a candidate.
pub open spec fn cross_family_choice(gecko: Option<Session>, chromium: Option<Session>) -> Option<
    Session,
> {
    if gecko matches Some((_, Some(_))) {
        gecko
    } else if chromium matches Some((_, Some(_))) {
        chromium
    } else if gecko is Some {
        gecko
    } else if chromium is Some {
        chromium
    } else {
        None
    }
}

/// Chooses the session across browser families (see
/// [`cross_family_choice`]); with no candidate at all, an empty anonymous
/// session. The chosen candidate is returned whole: cookies of the two
/// families are never merged.
pub fn select_cross_family_session(gecko: Option<Session>, chromium: Option<Session>) -> (res:
    Session)
    ensures
        cross_family_choice(gecko, chromium) matches Some(s) ==> res == s,
        cross_family_choice(gecko, chromium) is None ==> res.1 is None && res.0.lines().len() == 0,
{
    match gecko {
        Some((jar, Some(sapisid))) => {
            return (jar, Some(sapisid));
        },
        Some((jar, None)) => {
            match chromium {
                Some((cjar, Some(sapisid))) => {
                    return (cjar, Some(sapisid));
                },
                _ => {
                    return (jar, None);
                },
            }
        },
        None => {},
    }
    match chromium {
        Some((jar, Some(sapisid))) => (jar, Some(sapisid)),
        Some((jar, None)) => (jar, None),
        None => (CookieJar::new(), None),
    }
}

/// The Gecko candidate is authenticated, so no Chromium browser needs to be
/// read: it wins whatever they hold.
pub fn gecko_session_is_authenticated(gecko: &Option<Session>) -> (res: bool)
    ensures
        res == (gecko matches Some((_, Some(_)))),
{
    match gecko {
        Some((_, Some(_))) => true,
        _ => false,
    }
}

// ---------------------------------------------------------------------------
// Gecko containers
// ---------------------------------------------------------------------------

/// A copy of a Gecko cookie.
pub fn copy_gecko_cookie(c: &GeckoCookie) -> (res: GeckoCookie)
    ensures
        res == *c,
{
    GeckoCookie {
        name: c.name.clone(),
        value: c.value.clone(),
        host: c.host.clone(),
        path: c.path.clone(),
        expiry: c.expiry,
        is_secure: c.is_secure,
        is_http_only: c.is_http_only,
        same_site: c.same_site,
        origin_attributes: c.origin_attributes.clone(),
    }
}

/// The container identities (`originAttributes`) present, in character
/// order, each once.
pub open spec fn origin_keys(cookies: Seq<GeckoCookie>) -> Seq<Seq<char>> {
    sort_lex(dedup(cookies.map_values(|c: GeckoCookie| c.origin_attributes@)))
}

/// The cookies of one container identity, in their given order.
pub open spec fn origin_group(cookies: Seq<GeckoCookie>, key: Seq<char>) -> Seq<GeckoCookie> {
    cookies.filter(has_origin(key))
}

/// The cookie belongs to the container identity `key`.
pub open spec fn has_origin(key: Seq<char>) -> spec_fn(GeckoCookie) -> bool {
    |c: GeckoCookie| c.origin_attributes@ == key
}

/// The cookies split by container identity, identities in character order.
pub struct OriginGroup {
    pub origin: String,
    pub cookies: Vec<GeckoCookie>,
}

/// The cookies of `cookies` whose identity is `key`, copied, in order.
fn cookies_of_origin(cookies: &Vec<GeckoCookie>, key: &String) -> (res: Vec<GeckoCookie>)
    ensures
        res@ == origin_group(cookies@, key@),
{
    let ghost pred = has_origin(key@);
    let kc = str_chars(key.as_str());
    let mut out: Vec<GeckoCookie> = Vec::new();
    let mut i: usize = 0;
    while i < cookies.len()
        invariant
            i <= cookies@.len(),
            kc@ == key@,
            pred == has_origin(key@),
            out@ == cookies@.take(i as int).filter(pred),
        decreases cookies@.len() - i,
    {
        let keep = chars_eq(
            str_chars(cookies[i].origin_attributes.as_str()).as_slice(),
            kc.as_slice(),
        );
        if keep {
            out.push(copy_gecko_cookie(&cookies[i]));
        }
        proof {
            reveal_with_fuel(Seq::filter, 1);
            let t = cookies@.take(i + 1);
            assert(t.drop_last() =~= cookies@.take(i as int));
            assert(t.last() == cookies@[i as int]);
        }
        i += 1;
    }
    assert(cookies@.take(i as int) =~= cookies@);
    out
}

/// The cookies grouped by container identity: one group per identity, in
/// character order of the identities, each group in the given order.
pub fn group_by_origin(cookies: &Vec<GeckoCookie>) -> (res: Vec<OriginGroup>)
    ensures
        res@.len() == origin_keys(cookies@).len(),
        cookies@.len() > 0 ==> res@.len() > 0,
        forall|i: int|
            0 <= i < res@.len() ==> {
                &&& (#[trigger] res@[i]).origin@ == origin_keys(cookies@)[i]
                &&& res@[i].cookies@ == origin_group(cookies@, origin_keys(cookies@)[i])
                &&& res@[i].cookies@.len() > 0
            },
{
    let mut origins: Vec<String> = Vec::new();
    let ghost ov = cookies@.map_values(|c: GeckoCookie| c.origin_attributes@);
    assert(string_views(origins@) =~= dedup(ov.take(0)));
    let mut i: usize = 0;
    while i < cookies.len()
        invariant
            i <= cookies@.len(),
            ov == cookies@.map_values(|c: GeckoCookie| c.origin_attributes@),
            string_views(origins@) == dedup(ov.take(i as int)),
        decreases cookies@.len() - i,
    {
        let o = cookies[i].origin_attributes.clone();
        proof {
            let t = ov.take(i + 1);
            assert(t.drop_last() =~= ov.take(i as int));
            assert(t.last() == o@);
        }
        crate::paths::push_new(&mut origins, o);
        i += 1;
    }
    assert(ov.take(i as int) =~= ov);
    let ghost before_sort = string_views(origins@);
    let keys = sort_names(origins);
    proof {
        vstd::seq_lib::to_multiset_len(string_views(keys@));
        vstd::seq_lib::to_multiset_len(before_sort);
        assert(string_views(keys@).len() == before_sort.len());
        if cookies@.len() > 0 {
            crate::paths::lemma_dedup_unique(ov);
            assert(ov.contains(ov[0]));
            assert(dedup(ov).contains(ov[0]));
        }
    }
    let mut out: Vec<OriginGroup> = Vec::new();
    let mut j: usize = 0;
    while j < keys.len()
        invariant
            j <= keys@.len(),
            string_views(keys@) == origin_keys(cookies@),
            out@.len() == j,
            forall|t: int|
                0 <= t < j ==> {
                    &&& (#[trigger] out@[t]).origin@ == origin_keys(cookies@)[t]
                    &&& out@[t].cookies@ == origin_group(cookies@, origin_keys(cookies@)[t])
                    &&& out@[t].cookies@.len() > 0
                },
            before_sort == dedup(ov),
            string_views(keys@).to_multiset() == before_sort.to_multiset(),
            ov == cookies@.map_values(|c: GeckoCookie| c.origin_attributes@),
        decreases keys@.len() - j,
    {
        let group = cookies_of_origin(cookies, &keys[j]);
        assert(keys@[j as int]@ == string_views(keys@)[j as int]);
        proof {
            lemma_key_has_cookies(cookies@, ov, before_sort, string_views(keys@), j as int);
        }
        out.push(OriginGroup { origin: keys[j].clone(), cookies: group });
        j += 1;
    }
    out
}

proof fn lemma_key_has_cookies(
    cookies: Seq<GeckoCookie>,
    ov: Seq<Seq<char>>,
    d: Seq<Seq<char>>,
    kv: Seq<Seq<char>>,
    j: int,
)
    requires
        0 <= j < kv.len(),
        d == dedup(ov),
        kv.to_multiset() == d.to_multiset(),
        ov == cookies.map_values(|c: GeckoCookie| c.origin_attributes@),
    ensures
        origin_group(cookies, kv[j]).len() > 0,
{
    broadcast use vstd::seq_lib::group_to_multiset_ensures;
    broadcast use vstd::seq_lib::group_filter_ensures;

    assert(kv.contains(kv[j]));
    assert(kv.to_multiset().count(kv[j]) > 0);
    assert(d.contains(kv[j]));
    crate::paths::lemma_dedup_unique(ov);
    assert(ov.contains(kv[j]));
    let m = choose|m: int| 0 <= m < ov.len() && ov[m] == kv[j];
    assert(cookies[m].origin_attributes@ == kv[j]);
    assert(has_origin(kv[j])(cookies[m]));
    assert(cookies.filter(has_origin(kv[j])).contains(cookies[m]));
}

/// Number of `true` entries.
pub open spec fn count_true(s: Seq<bool>) -> nat
    decreases s.len(),
{
    if s.len() == 0 {
        0
    } else {
        count_true(s.drop_last()) + if s.last() {
            1nat
        } else {
            0nat
        }
    }
}

/// The first index at or after `i` holding `true`.
pub open spec fn first_true_from(s: Seq<bool>, i: int) -> Option<int>
    decreases s.len() - i,
{
    if i < 0 || i >= s.len() {
        None
    } else if s[i] {
        Some(i)
    } else {
        first_true_from(s, i + 1)
    }
}

/// The first index at or after `i` whose key is empty.
pub open spec fn empty_key_from(keys: Seq<Seq<char>>, i: int) -> Option<int>
    decreases keys.len() - i,
{
    if i < 0 || i >= keys.len() {
        None
    } else if keys[i].len() == 0 {
        Some(i)
    } else {
        empty_key_from(keys, i + 1)
    }
}

/// Which container's cookies to use, given for each identity (in order)
/// whether its cookies carry a session: more than one authenticated
/// identity is a conflict; exactly one is used; with none, the default
/// identity (empty key) is used if present, otherwise the first identity;
/// with no identities, no group at all.
pub open spec fn container_choice(keys: Seq<Seq<char>>, authed: Seq<bool>) -> Option<Option<int>> {
    if count_true(authed) > 1 {
        None
    } else if count_true(authed) == 1 {
        Some(first_true_from(authed, 0))
    } else if empty_key_from(keys, 0) is Some {
        Some(empty_key_from(keys, 0))
    } else if keys.len() > 0 {
        Some(Some(0))
    } else {
        Some(None)
    }
}

pub open spec fn group_keys(groups: Seq<OriginGroup>) -> Seq<Seq<char>> {
    groups.map_values(|g: OriginGroup| g.origin@)
}

/// Picks the container's cookies (see [`container_choice`]): `authed[i]`
/// tells whether the cookies of `groups[i]` carry a session.
pub fn choose_container_group(groups: Vec<OriginGroup>, authed: &Vec<bool>) -> (res: YResult<
    Vec<GeckoCookie>,
>)
    requires
        authed@.len() == groups@.len(),
    ensures
        match container_choice(group_keys(groups@), authed@) {
            None => (res matches Err(e) && e is ConflictingContainerIdentities),
            Some(None) => (res matches Ok(v) && v@.len() == 0),
            Some(Some(k)) => (res matches Ok(v) && 0 <= k < groups@.len() && v@ == groups@[k].cookies@),
        },
{
    let ghost keys = group_keys(groups@);
    let ghost g0 = groups@;
    let mut count: usize = 0;
    let mut first: Option<usize> = None;
    let mut i: usize = 0;
    while i < authed.len()
        invariant
            i <= authed@.len(),
            count == count_true(authed@.take(i as int)),
            count <= i,
            first_true_from(authed@, 0) == match first {
                Some(f) => Some(f as int),
                None => first_true_from(authed@, i as int),
            },
            first matches Some(f) ==> f < authed@.len(),
        decreases authed@.len() - i,
    {
        proof {
            assert(authed@.take(i + 1).drop_last() =~= authed@.take(i as int));
        }
        if authed[i] {
            count += 1;
            if first.is_none() {
                first = Some(i);
            }
        }
        i += 1;
    }
    assert(authed@.take(i as int) =~= authed@);
    if count > 1 {
        return Err(YError::ConflictingContainerIdentities);
    }
    let mut gs = groups;
    if count == 1 {
        match first {
            Some(f) => {
                let g = gs.remove(f);
                return Ok(g.cookies);
            },
            None => {
                proof {
                    lemma_first_true_exists(authed@, 0);
                }
                return Ok(Vec::new());
            },
        }
    }
    assert(count == 0);
    let mut idx: usize = 0;
    while idx < gs.len()
        invariant
            idx <= gs@.len(),
            g0 == gs@,
            g0 == groups@,
            keys == group_keys(g0),
            count_true(authed@) == 0,
            empty_key_from(keys, 0) == empty_key_from(keys, idx as int),
        decreases gs@.len() - idx,
    {
        if gs[idx].origin.as_str().is_empty() {
            assert(keys[idx as int] == gs@[idx as int].origin@);
            assert(keys[idx as int].len() == 0);
            assert(empty_key_from(keys, idx as int) == Some(idx as int));
            assert(container_choice(keys, authed@) == Some(Some(idx as int)));
            let g = gs.remove(idx);
            assert(g == g0[idx as int]);
            return Ok(g.cookies);
        }
        assert(keys[idx as int] == gs@[idx as int].origin@);
        idx += 1;
    }
    if gs.len() > 0 {
        let g = gs.remove(0);
        Ok(g.cookies)
    } else {
        Ok(Vec::new())
    }
}

proof fn lemma_first_true_exists(s: Seq<bool>, i: int)
    requires
        0 <= i <= s.len(),
        count_true(s.subrange(i, s.len() as int)) > 0,
    ensures
        first_true_from(s, i) is Some,
    decreases s.len() - i,
{
    if i == s.len() {
        assert(s.subrange(i, s.len() as int).len() == 0);
    } else if !s[i] {
        lemma_count_true_drop_first(s.subrange(i, s.len() as int));
        assert(s.subrange(i, s.len() as int).drop_first() =~= s.subrange(i + 1, s.len() as int));
        lemma_first_true_exists(s, i + 1);
    }
}

proof fn lemma_count_true_drop_first(s: Seq<bool>)
    requires
        s.len() > 0,
    ensures
        count_true(s) == count_true(s.drop_first()) + if s[0] {
            1nat
        } else {
            0nat
        },
    decreases s.len(),
{
    if s.len() > 1 {
        let dl = s.drop_last();
        let df = s.drop_first();
        lemma_count_true_drop_first(dl);
        assert(dl.drop_first() =~= df.drop_last());
        assert(df.last() == s.last());
        assert(dl[0] == s[0]);
        assert(count_true(df) == count_true(df.drop_last()) + if df.last() {
            1nat
        } else {
            0nat
        });
        assert(count_true(s) == count_true(dl) + if s.last() {
            1nat
        } else {
            0nat
        });
    } else {
        assert(s.drop_first().len() == 0);
        assert(s.drop_last().len() == 0);
        assert(count_true(s) == count_true(s.drop_last()) + if s.last() {
            1nat
        } else {
            0nat
        });
    }
}

/// The container's cookies that the choice (see [`container_choice`]) makes
/// when `authed[i]` tells whether the cookies of the `i`-th identity (in
/// [`origin_keys`] order) carry a session.
pub open spec fn container_result(
    cookies: Seq<GeckoCookie>,
    authed: Seq<bool>,
    res: YResult<Vec<GeckoCookie>>,
) -> bool {
    match container_choice(origin_keys(cookies), authed) {
        None => (res matches Err(e) && e is ConflictingContainerIdentities),
        Some(None) => (res matches Ok(v) && v@.len() == 0),
        Some(Some(k)) => (res matches Ok(v) && 0 <= k < origin_keys(cookies).len() && v@
            == origin_group(cookies, origin_keys(cookies)[k])),
    }
}

/// For each container identity (in [`origin_keys`] order), whether the jar
/// filled with its cookies sends a `SAPISID` to YouTube Music.
pub open spec fn container_flags(cookies: Seq<GeckoCookie>) -> Seq<bool> {
    Seq::new(
        origin_keys(cookies).len(),
        |k: int|
            jar_sends_sapisid(
                gecko_jar_lines(origin_group(cookies, origin_keys(cookies)[k])),
                crate::cookies::ytm_domain(),
            ),
    )
}

/// The cookies of one container are cookies of the table, so they hold no
/// `;` when the table's cookies hold none.
proof fn lemma_plain_group(cookies: Seq<GeckoCookie>, key: Seq<char>)
    requires
        plain_gecko(cookies),
    ensures
        plain_gecko(origin_group(cookies, key)),
{
    broadcast use vstd::seq_lib::group_filter_ensures;

    let g = origin_group(cookies, key);
    assert forall|i: int| 0 <= i < g.len() implies plain_fields(
        (#[trigger] g[i]).name@,
        g[i].value@,
        g[i].host@,
        g[i].path@,
    ) by {
        assert(g.contains(g[i]));
        cookies.lemma_filter_contains_rev(has_origin(key), g[i]);
        assert(cookies.contains(g[i]));
        let m = choose|m: int| 0 <= m < cookies.len() && cookies[m] == g[i];
        assert(plain_fields(cookies[m].name@, cookies[m].value@, cookies[m].host@, cookies[m].path@));
    }
}

/// A `SAPISID` cookie of one container is a `SAPISID` cookie of the table.
proof fn lemma_group_sapisid_value(cookies: Seq<GeckoCookie>, key: Seq<char>, v: Seq<char>)
    requires
        gecko_sapisid_value(origin_group(cookies, key), v),
    ensures
        gecko_sapisid_value(cookies, v),
{
    broadcast use vstd::seq_lib::group_filter_ensures;

    let g = origin_group(cookies, key);
    let i = choose|i: int|
        0 <= i < g.len() && trim((#[trigger] g[i]).name@) == "SAPISID"@ && trim(g[i].value@) == v;
    assert(g.contains(g[i]));
    cookies.lemma_filter_contains_rev(has_origin(key), g[i]);
    let m = choose|m: int| 0 <= m < cookies.len() && cookies[m] == g[i];
    assert(trim(cookies[m].name@) == "SAPISID"@);
}

/// Keeps the cookies of one container identity (`originAttributes`): the one
/// whose cookies carry a session, or — when none does — the default
/// identity, or else the first identity in character order. Two identities
/// with a session are a conflict.
///
/// An identity's cookies carry a session when the jar filled with them
/// (see [`build_jar_from_gecko_cookies`]) sends a `SAPISID` to YouTube
/// Music ([`container_flags`]). That is stated for cookies whose pieces hold
/// no `;`; for others the contract gives the choice for the answers the jars
/// gave (see [`container_result`]), and [`choose_container_group`] states it
/// for every answer.
pub fn select_gecko_container_cookies(cookies: Vec<GeckoCookie>) -> (res: YResult<
    Vec<GeckoCookie>,
>)
    ensures
        cookies@.len() == 0 ==> (res matches Ok(v) && v@.len() == 0),
        cookies@.len() > 0 ==> (res matches Ok(v) ==> v@.len() > 0 && exists|k: Seq<char>|
            origin_keys(cookies@).contains(k) && v@ == origin_group(cookies@, k)),
        cookies@.len() > 0 && url_parse_result(crate::cookies::ytm_domain()) is Err ==> (res matches Err(
            e,
        ) && e is UrlParseError),
        cookies@.len() > 0 && url_parse_result(crate::cookies::ytm_domain()) is Ok ==> exists|
            authed: Seq<bool>,
        |
            authed.len() == origin_keys(cookies@).len() && #[trigger] container_result(
                cookies@,
                authed,
                res,
            ),
        cookies@.len() > 0 && url_parse_result(crate::cookies::ytm_domain()) is Ok && plain_gecko(
            cookies@,
        ) ==> container_result(cookies@, container_flags(cookies@), res),
        cookies@.len() > 0 && url_parse_result(crate::cookies::ytm_domain()) is Ok && plain_gecko(
            cookies@,
        ) ==> forall|k: int|
            0 <= k < origin_keys(cookies@).len() && #[trigger] container_flags(cookies@)[k]
                ==> gecko_names_sapisid(origin_group(cookies@, origin_keys(cookies@)[k])),
        res matches Err(e) ==> e is ConflictingContainerIdentities || e is UrlParseError,
{
    if cookies.len() == 0 {
        return Ok(Vec::new());
    }
    let groups = group_by_origin(&cookies);
    let ghost keys = origin_keys(cookies@);
    let ghost flags = container_flags(cookies@);
    let mut authed: Vec<bool> = Vec::new();
    let mut i: usize = 0;
    while i < groups.len()
        invariant
            cookies@.len() > 0,
            i <= groups@.len(),
            authed@.len() == i,
            i > 0 ==> url_parse_result(crate::cookies::ytm_domain()) is Ok,
            keys == origin_keys(cookies@),
            flags == container_flags(cookies@),
            groups@.len() == keys.len(),
            forall|t: int|
                0 <= t < groups@.len() ==> (#[trigger] groups@[t]).cookies@ == origin_group(
                    cookies@,
                    keys[t],
                ),
            plain_gecko(cookies@) ==> forall|t: int| 0 <= t < i ==> authed@[t] == flags[t],
            plain_gecko(cookies@) ==> forall|t: int|
                0 <= t < i && #[trigger] authed@[t] ==> gecko_names_sapisid(
                    origin_group(cookies@, keys[t]),
                ),
        decreases groups@.len() - i,
    {
        match build_jar_from_gecko_cookies(&groups[i].cookies) {
            Ok((_, sapisid)) => {
                proof {
                    if plain_gecko(cookies@) {
                        lemma_plain_group(cookies@, keys[i as int]);
                        assert(groups@[i as int].cookies@ == origin_group(cookies@, keys[i as int]));
                        if sapisid is Some {
                            lemma_gecko_sapisid_needs_name(origin_group(cookies@, keys[i as int]));
                        }
                    }
                }
                authed.push(sapisid.is_some());
            },
            Err(e) => {
                return Err(e);
            },
        }
        i += 1;
    }
    let ghost gv = groups@;
    assert(group_keys(gv) =~= origin_keys(cookies@));
    proof {
        if plain_gecko(cookies@) {
            assert(authed@ =~= flags);
        }
    }
    let res = choose_container_group(groups, &authed);
    proof {
        match container_choice(group_keys(gv), authed@) {
            Some(Some(k)) => {
                assert(gv[k].origin@ == origin_keys(cookies@)[k]);
                assert(origin_keys(cookies@).contains(origin_keys(cookies@)[k]));
            },
            Some(None) => {
                assert(group_keys(gv).len() > 0);
                if count_true(authed@) == 1 {
                    assert(authed@.subrange(0, authed@.len() as int) =~= authed@);
                    lemma_first_true_exists(authed@, 0);
                }
            },
            None => {},
        }
        assert(container_result(cookies@, authed@, res));
    }
    res
}

/// The session a Gecko table gives for its kept cookies `kept`, when their
/// pieces hold no `;` and the YouTube Music origin parses: a conflict when
/// two containers send a `SAPISID`; otherwise the chosen container's jar,
/// with a `SAPISID` exactly when that container sends one.
pub open spec fn gecko_session_outcome(kept: Seq<GeckoCookie>, res: YResult<Option<Session>>) -> bool {
    match container_choice(origin_keys(kept), container_flags(kept)) {
        None => (res matches Err(e) && e is ConflictingContainerIdentities),
        Some(None) => (res matches Ok(None)),
        Some(Some(k)) => (res matches Ok(Some((jar, s))) && jar.lines() == gecko_jar_lines(
            origin_group(kept, origin_keys(kept)[k]),
        ) && (s is Some <==> container_flags(kept)[k])),
    }
}

/// The session a Gecko cookie table yields: its rows filtered as
/// [`crate::cookies::gecko_kept_at`] describes, then reduced to one
/// container identity (see [`select_gecko_container_cookies`]), in a new
/// jar; none when no cookie is left.
pub fn gecko_session_from_rows(rows: Vec<GeckoCookie>, now_secs: i64) -> (res: YResult<
    Option<Session>,
>)
    ensures
        rows@.filter(crate::cookies::gecko_kept_at(now_secs)).len() == 0
            ==> res matches Ok(None),
        rows@.filter(crate::cookies::gecko_kept_at(now_secs)).len() > 0 ==> !(res matches Ok(None)),
        res matches Err(e) ==> e is ConflictingContainerIdentities || e is UrlParseError,
        res matches Ok(Some((_, Some(v)))) ==> exists|h: Seq<char>| header_sapisid(h) == Some(v@),
        res matches Ok(Some((jar, _))) ==> ({
            let kept = rows@.filter(crate::cookies::gecko_kept_at(now_secs));
            exists|k: Seq<char>|
                origin_keys(kept).contains(k) && jar.lines() == gecko_jar_lines(
                    #[trigger] origin_group(kept, k),
                )
        }),
        res matches Err(e) && e is ConflictingContainerIdentities ==> exists|authed: Seq<bool>|
            authed.len() == origin_keys(rows@.filter(crate::cookies::gecko_kept_at(now_secs))).len()
                && #[trigger] container_choice(
                origin_keys(rows@.filter(crate::cookies::gecko_kept_at(now_secs))),
                authed,
            ) is None,
        ({
            let kept = rows@.filter(crate::cookies::gecko_kept_at(now_secs));
            kept.len() > 0 && url_parse_result(crate::cookies::ytm_domain()) is Ok && plain_gecko(kept)
        }) ==> gecko_session_outcome(rows@.filter(crate::cookies::gecko_kept_at(now_secs)), res),
        plain_gecko(rows@.filter(crate::cookies::gecko_kept_at(now_secs))) ==> (res matches Ok(
            Some((_, Some(v))),
        ) ==> gecko_sapisid_value(rows@.filter(crate::cookies::gecko_kept_at(now_secs)), v@)),
        ({
            let kept = rows@.filter(crate::cookies::gecko_kept_at(now_secs));
            kept.len() > 0 && url_parse_result(crate::cookies::ytm_domain()) is Ok && plain_gecko(kept)
        }) ==> forall|k: int|
            0 <= k < origin_keys(rows@.filter(crate::cookies::gecko_kept_at(now_secs))).len()
                && #[trigger] container_flags(rows@.filter(crate::cookies::gecko_kept_at(now_secs)))[k]
                ==> gecko_names_sapisid(
                origin_group(
                    rows@.filter(crate::cookies::gecko_kept_at(now_secs)),
                    origin_keys(rows@.filter(crate::cookies::gecko_kept_at(now_secs)))[k],
                ),
            ),
{
    let kept = filter_gecko_cookies(rows, now_secs);
    if kept.len() == 0 {
        return Ok(None);
    }
    let ghost kv = kept@;
    let selected = match select_gecko_container_cookies(kept) {
        Ok(v) => v,
        Err(e) => {
            proof {
                if e is ConflictingContainerIdentities {
                    let authed = choose|authed: Seq<bool>|
                        authed.len() == origin_keys(kv).len() && #[trigger] container_result(
                            kv,
                            authed,
                            Err(e),
                        );
                    assert(container_choice(origin_keys(kv), authed) is None);
                }
            }
            return Err(e);
        },
    };
    if selected.len() == 0 {
        return Ok(None);
    }
    let ghost sv = selected@;
    match build_jar_from_gecko_cookies(&selected) {
        Ok(session) => {
            proof {
                if plain_gecko(kv) && session.1 is Some {
                    let k = choose|k: Seq<char>|
                        origin_keys(kv).contains(k) && sv == origin_group(kv, k);
                    lemma_plain_group(kv, k);
                    lemma_group_sapisid_value(kv, k, session.1->0@);
                }
                if url_parse_result(crate::cookies::ytm_domain()) is Ok && plain_gecko(kv) {
                    let flags = container_flags(kv);
                    if let Some(Some(k)) = container_choice(origin_keys(kv), flags) {
                        assert(sv == origin_group(kv, origin_keys(kv)[k]));
                        lemma_plain_group(kv, origin_keys(kv)[k]);
                        assert(flags[k] == jar_sends_sapisid(
                            gecko_jar_lines(origin_group(kv, origin_keys(kv)[k])),
                            crate::cookies::ytm_domain(),
                        ));
                    }
                }
            }
            Ok(Some(session))
        },
        Err(e) => Err(e),
    }
}

/// The session the cookies of one Chromium browser yield: the cookies
/// [`filter_chromium_cookies`] keeps, in a new jar; none when no cookie is
/// kept.
pub fn chromium_session_from_cookies(raw: Vec<BrowserCookie>, now_secs: i64) -> (res: YResult<
    Option<Session>,
>)
    ensures
        raw@.filter(crate::cookies::chromium_kept_at(now_secs)).len()
            == 0 ==> res matches Ok(None),
        raw@.filter(crate::cookies::chromium_kept_at(now_secs)).len() > 0 ==> (res is Ok
            <==> url_parse_result(crate::cookies::ytm_domain()) is Ok) && !(res matches Ok(None)),
        res matches Ok(Some((_, Some(v)))) ==> exists|h: Seq<char>| header_sapisid(h) == Some(v@),
        res matches Ok(Some((jar, _))) ==> jar.lines() == chromium_jar_lines(
            raw@.filter(crate::cookies::chromium_kept_at(now_secs)),
        ),
        plain_chromium(raw@.filter(crate::cookies::chromium_kept_at(now_secs))) ==> (res matches Ok(
            Some((_, s)),
        ) ==> (s is Some <==> jar_sends_sapisid(
            chromium_jar_lines(raw@.filter(crate::cookies::chromium_kept_at(now_secs))),
            crate::cookies::ytm_domain(),
        ))),
        plain_chromium(raw@.filter(crate::cookies::chromium_kept_at(now_secs))) ==> (res matches Ok(
            Some((_, Some(v))),
        ) ==> chromium_sapisid_value(raw@.filter(crate::cookies::chromium_kept_at(now_secs)), v@)),
        res matches Err(e) ==> e is UrlParseError,
{
    let kept = filter_chromium_cookies(raw, now_secs);
    if kept.len() == 0 {
        return Ok(None);
    }
    match build_jar_from_chromium_cookies(&kept) {
        Ok(session) => Ok(Some(session)),
        Err(e) => Err(e),
    }
}

// ---------------------------------------------------------------------------
// Laws of session selection
// ---------------------------------------------------------------------------

/// The outcome of offering `cands` in turn, stopping at the first chosen
/// one, when `first` was remembered before: the chosen candidate, or else
/// the first anonymous candidate remembered.
pub open spec fn search_candidates(cands: Seq<Session>, first: Option<Session>) -> Option<Session>
    decreases cands.len(),
{
    if cands.len() == 0 {
        first
    } else {
        let (chosen, f) = offer(cands[0], first);
        if chosen is Some {
            chosen
        } else {
            search_candidates(cands.drop_first(), f)
        }
    }
}

/// The first candidate that carries a `SAPISID`.
pub open spec fn first_authenticated(cands: Seq<Session>) -> Option<Session>
    decreases cands.len(),
{
    if cands.len() == 0 {
        None
    } else if cands[0].1 is Some {
        Some(cands[0])
    } else {
        first_authenticated(cands.drop_first())
    }
}

proof fn lemma_search_remembered(cands: Seq<Session>, f: Session)
    ensures
        search_candidates(cands, Some(f)) == match first_authenticated(cands) {
            Some(s) => Some(s),
            None => Some(f),
        },
    decreases cands.len(),
{
    if cands.len() > 0 && cands[0].1 is None {
        lemma_search_remembered(cands.drop_first(), f);
    }
}

/// Searching candidate sessions in order with
/// [`select_authenticated_candidate`] yields the first authenticated
/// candidate; when there is none, the first candidate (anonymous) is used
/// for logged-out browsing; with no candidates, none. Either way one
/// candidate is returned whole: cookies of different profiles or browsers
/// are never merged.
pub proof fn lemma_search_prefers_first_authenticated(cands: Seq<Session>)
    ensures
        search_candidates(cands, None) == match first_authenticated(cands) {
            Some(s) => Some(s),
            None => if cands.len() > 0 {
                Some(cands[0])
            } else {
                None
            },
        },
        search_candidates(cands, None) matches Some(s) ==> cands.contains(s),
{
    if cands.len() > 0 {
        if cands[0].1 is None {
            lemma_search_remembered(cands.drop_first(), cands[0]);
        }
        lemma_first_authenticated_in(cands);
        assert(cands.contains(cands[0])) by {
            assert(cands[0] == cands[0]);
        }
    }
}

proof fn lemma_first_authenticated_in(cands: Seq<Session>)
    ensures
        first_authenticated(cands) matches Some(s) ==> cands.contains(s) && s.1 is Some,
    decreases cands.len(),
{
    if cands.len() > 0 {
        lemma_first_authenticated_in(cands.drop_first());
        if cands[0].1 is None {
            if let Some(s) = first_authenticated(cands.drop_first()) {
                let k = choose|k: int| 0 <= k < cands.drop_first().len() && cands.drop_first()[k] == s;
                assert(cands[k + 1] == s);
            }
        } else {
            assert(cands[0] == cands[0]);
        }
    }
}

/// Choosing across browser families returns one of the two candidates
/// whole (the families' cookies are never merged), returns something
/// whenever there is a candidate, always prefers an authenticated candidate
/// to an anonymous one, and between candidates of the same kind prefers
/// the Gecko one.
pub proof fn lemma_cross_family_choice(gecko: Option<Session>, chromium: Option<Session>)
    ensures
        cross_family_choice(gecko, chromium) matches Some(s) ==> (gecko == Some(s) || chromium
            == Some(s)),
        cross_family_choice(gecko, chromium) is Some <==> (gecko is Some || chromium is Some),
        (gecko matches Some((_, Some(_))) || chromium matches Some((_, Some(_))))
            ==> cross_family_choice(gecko, chromium) matches Some((_, Some(_))),
        gecko matches Some((_, Some(_))) ==> cross_family_choice(gecko, chromium) == gecko,
        (gecko is Some && !(chromium matches Some((_, Some(_))))) ==> cross_family_choice(
            gecko,
            chromium,
        ) == gecko,
{
}

/// A Gecko cookie and a Chromium cookie that say the same: same name,
/// value, host, path and flags.
pub open spec fn same_cookie(g: GeckoCookie, c: BrowserCookie) -> bool {
    &&& g.name@ == c.name@
    &&& g.value@ == c.value@
    &&& g.host@ == c.domain@
    &&& g.path@ == c.path@
    &&& g.is_secure == c.secure
    &&& g.is_http_only == c.http_only
}

/// The same cookies read from a Gecko and from a Chromium browser, in the
/// same order, fill a jar with the same lines stored from the same URLs, so
/// the two jars agree on whether they send a `SAPISID` to YouTube Music: a
/// session does not depend on the browser family the cookies came from.
pub proof fn lemma_family_parity(gs: Seq<GeckoCookie>, cs: Seq<BrowserCookie>)
    requires
        gs.len() == cs.len(),
        forall|i: int| 0 <= i < gs.len() ==> same_cookie(#[trigger] gs[i], cs[i]),
    ensures
        gecko_jar_lines(gs) == chromium_jar_lines(cs),
        jar_sends_sapisid(gecko_jar_lines(gs), crate::cookies::ytm_domain()) == jar_sends_sapisid(
            chromium_jar_lines(cs),
            crate::cookies::ytm_domain(),
        ),
    decreases gs.len(),
{
    if gs.len() > 0 {
        let gp = gs.drop_last();
        let cp = cs.drop_last();
        assert forall|i: int| 0 <= i < gp.len() implies same_cookie(#[trigger] gp[i], cp[i]) by {
            assert(gp[i] == gs[i] && cp[i] == cs[i]);
        }
        lemma_family_parity(gp, cp);
        assert(same_cookie(gs[gs.len() - 1], cs[cs.len() - 1]));
    }
}

/// When the cookies name `SAPISID` at most once, a `SAPISID` read back from
/// a jar filled from the Gecko cookies and one read back from a jar filled
/// from the same cookies of a Chromium browser are the same value (each is
/// the value of a cookie named `SAPISID`, see
/// [`build_jar_from_gecko_cookies`] and [`build_jar_from_chromium_cookies`]).
pub proof fn lemma_family_sapisid_value(
    gs: Seq<GeckoCookie>,
    cs: Seq<BrowserCookie>,
    v1: Seq<char>,
    v2: Seq<char>,
)
    requires
        gs.len() == cs.len(),
        forall|i: int| 0 <= i < gs.len() ==> same_cookie(#[trigger] gs[i], cs[i]),
        forall|i: int, j: int|
            0 <= i < gs.len() && 0 <= j < gs.len() && trim(#[trigger] gs[i].name@) == "SAPISID"@
                && trim(#[trigger] gs[j].name@) == "SAPISID"@ ==> i == j,
        gecko_sapisid_value(gs, v1),
        chromium_sapisid_value(cs, v2),
    ensures
        v1 == v2,
{
    let i = choose|i: int|
        0 <= i < gs.len() && trim((#[trigger] gs[i]).name@) == "SAPISID"@ && trim(gs[i].value@) == v1;
    let j = choose|j: int|
        0 <= j < cs.len() && trim((#[trigger] cs[j]).name@) == "SAPISID"@ && trim(cs[j].value@) == v2;
    assert(same_cookie(gs[j], cs[j]));
    assert(trim(gs[j].name@) == "SAPISID"@);
}

/// A container's cookies all carry its identity, and every cookie with
/// that identity is among them: the selected container is never mixed with
/// another one.
pub proof fn lemma_origin_group(cookies: Seq<GeckoCookie>, key: Seq<char>)
    ensures
        forall|i: int|
            0 <= i < origin_group(cookies, key).len() ==> (#[trigger] origin_group(
                cookies,
                key,
            )[i]).origin_attributes@ == key,
        forall|c: GeckoCookie|
            cookies.contains(c) && c.origin_attributes@ == key ==> #[trigger] origin_group(
                cookies,
                key,
            ).contains(c),
{
    broadcast use vstd::seq_lib::group_filter_ensures;

    let pred = has_origin(key);
    assert forall|i: int| 0 <= i < origin_group(cookies, key).len() implies (#[trigger] origin_group(
        cookies,
        key,
    )[i]).origin_attributes@ == key by {
        assert(pred(cookies.filter(pred)[i]));
    }
    assert forall|c: GeckoCookie|
        cookies.contains(c) && c.origin_attributes@ == key implies #[trigger] origin_group(
        cookies,
        key,
    ).contains(c) by {
        let k = choose|k: int| 0 <= k < cookies.len() && cookies[k] == c;
        assert(pred(cookies[k]));
    }
}

proof fn lemma_first_true_from(s: Seq<bool>, i: int)
    requires
        0 <= i,
    ensures
        first_true_from(s, i) matches Some(k) ==> i <= k < s.len() && s[k],
    decreases s.len() - i,
{
    if i < s.len() && !s[i] {
        lemma_first_true_from(s, i + 1);
    }
}

proof fn lemma_empty_key_from(keys: Seq<Seq<char>>, i: int)
    requires
        0 <= i,
    ensures
        empty_key_from(keys, i) matches Some(k) ==> i <= k < keys.len() && keys[k].len() == 0,
        empty_key_from(keys, i) is None ==> forall|j: int| i <= j < keys.len() ==> keys[j].len() > 0,
    decreases keys.len() - i,
{
    if i < keys.len() && keys[i].len() > 0 {
        lemma_empty_key_from(keys, i + 1);
    }
}

/// The container choice: two or more identities with a session are a
/// conflict and nothing else is; with exactly one, that identity is chosen;
/// with none, the default identity (empty key) is chosen when present, and
/// otherwise the first identity.
pub proof fn lemma_container_choice(keys: Seq<Seq<char>>, authed: Seq<bool>)
    requires
        keys.len() == authed.len(),
    ensures
        container_choice(keys, authed) is None <==> count_true(authed) > 1,
        count_true(authed) == 1 ==> (container_choice(keys, authed) matches Some(Some(k)) && 0
            <= k < authed.len() && authed[k]),
        count_true(authed) == 0 && keys.len() > 0 ==> (container_choice(keys, authed) matches Some(
            Some(k),
        ) && 0 <= k < keys.len() && (keys[k].len() == 0 || (k == 0 && forall|j: int|
            0 <= j < keys.len() ==> keys[j].len() > 0))),
{
    lemma_first_true_from(authed, 0);
    lemma_empty_key_from(keys, 0);
    if count_true(authed) == 1 {
        assert(authed.subrange(0, authed.len() as int) =~= authed);
        lemma_first_true_exists(authed, 0);
    }
}

} // verus!
