//! The YouTube Music data-access layer: bootstrapping a session from the
//! start page, and the fixed parts of every InnerTube request (URL, headers,
//! request kinds, how a response status is read).

use vstd::prelude::*;

use crate::session::{build_http_client, CookieJar, HttpClient};
use crate::error::{YError, YResult};
use crate::text::{
    contains, find, lemma_find_from, push_str, slice_chars, spec_contains, spec_find,
    str_chars, string_from_chars,
};

verus! {

#[verifier::external_type_specification]
#[verifier::external_body]
pub struct ExClient(reqwest::Client);

#[verifier::external_type_specification]
#[verifier::external_body]
#[verifier::reject_recursive_types(T)]
pub struct ExHeaderMap<T>(reqwest::header::HeaderMap<T>);

#[verifier::external_type_specification]
#[verifier::external_body]
pub struct ExHeaderValue(reqwest::header::HeaderValue);

/// The text between the first occurrence of `start` in `source` and the
/// next occurrence of `end` after it.
pub open spec fn spec_extract_between(source: Seq<char>, start: Seq<char>, end: Seq<char>) -> Option<
    Seq<char>,
> {
    match spec_find(source, start) {
        Some(i) => {
            let from = i + start.len();
            match spec_find(source.subrange(from, source.len() as int), end) {
                Some(j) => Some(source.subrange(from, from + j)),
                None => None,
            }
        },
        None => None,
    }
}

/// The text between `start` and `end` (see [`spec_extract_between`]).
pub fn extract_between(source: &str, start: &str, end: &str) -> (res: Option<String>)
    ensures
        match (res, spec_extract_between(source@, start@, end@)) {
            (Some(r), Some(e)) => r@ == e,
            (None, None) => true,
            _ => false,
        },
{
    let s = str_chars(source);
    let a = str_chars(start);
    let b = str_chars(end);
    let n = s.len();
    match find(s.as_slice(), a.as_slice()) {
        Some(i) => {
            proof {
                lemma_find_from(s@, a@, 0);
            }
            let from = i + a.len();
            let rest = slice_chars(s.as_slice(), from, n);
            match find(rest.as_slice(), b.as_slice()) {
                Some(j) => {
                    proof {
                        lemma_find_from(rest@, b@, 0);
                    }
                    let piece = slice_chars(s.as_slice(), from, from + j);
                    Some(string_from_chars(piece.as_slice()))
                },
                None => None,
            }
        },
        None => None,
    }
}

/// Whether the server answered a request with a success status is up to
/// the server; given that answer, a request without a useful body succeeds
/// exactly when the status does, and otherwise fails with the request's
/// label.
pub fn status_outcome(success: bool, label: &str) -> (res: YResult<()>)
    ensures
        success ==> res is Ok,
        !success ==> (res matches Err(YError::BadStatus(m)) && m@ == label@),
{
    if success {
        Ok(())
    } else {
        Err(YError::BadStatus(label.to_string()))
    }
}

/// The outcome of an edit of a playlist: a failure status fails with the
/// request's label; with a success status the edit took effect when the
/// body reports `STATUS_SUCCEEDED`, and otherwise the song already was in
/// the playlist.
pub fn edit_playlist_outcome(success: bool, body: Option<&str>, label: &str) -> (res: YResult<()>)
    ensures
        !success ==> (res matches Err(YError::BadStatus(m)) && m@ == label@),
        success ==> match body {
            Some(b) => if spec_contains(b@, "STATUS_SUCCEEDED"@) {
                res is Ok
            } else {
                res matches Err(e) && e is AlreadyInPlaylist
            },
            None => (res matches Err(e) && e is AlreadyInPlaylist),
        },
{
    if !success {
        return Err(YError::BadStatus(label.to_string()));
    }
    match body {
        Some(b) => {
            let text = str_chars(b);
            let marker = str_chars("STATUS_SUCCEEDED");
            if contains(text.as_slice(), marker.as_slice()) {
                Ok(())
            } else {
                Err(YError::AlreadyInPlaylist)
            }
        },
        None => Err(YError::AlreadyInPlaylist),
    }
}

/// The server-reported login state agrees with the cookies: a session that
/// carries a `SAPISID` but is not logged in is an invalid cookie; every other
/// combination is acceptable.
pub fn validate_bootstrap_auth_state(has_sapisid: bool, logged_in: bool) -> (res: YResult<()>)
    ensures
        has_sapisid && !logged_in ==> (res matches Err(e) && e is InvalidCookie),
        !(has_sapisid && !logged_in) ==> res is Ok,
{
    if has_sapisid && !logged_in {
        Err(YError::InvalidCookie)
    } else {
        Ok(())
    }
}

/// The connection to YouTube Music.
pub struct YTDao {
    pub http: HttpClient,
    pub sapisid: Option<String>,
    pub innertube_api_key: String,
    pub client_version: String,
}

/// The user agent the client presents.
pub open spec fn user_agent() -> Seq<char> {
    "Mozilla/5.0 (X11; Linux x86_64) AppleWebKit/537.36 (KHTML, like Gecko) Chrome/120.0.0.0 Safari/537.36"@
}

/// The marker of the API key on the start page, and of the client version.
pub open spec fn api_key_marker() -> Seq<char> {
    "INNERTUBE_API_KEY\":\""@
}

pub open spec fn client_version_marker() -> Seq<char> {
    "INNERTUBE_CLIENT_VERSION\":\""@
}

pub open spec fn logged_in_marker() -> Seq<char> {
    "\"LOGGED_IN\":true"@
}

/// What the start page says of a session: the API key and the client
/// version (each the text up to the next quote after its marker). Without
/// the key or the version the page is unusable: with a `SAPISID` that means
/// the cookies are not valid, without one the page is reported as an invalid
/// response. A usable page must agree with the session: a `SAPISID` on a page
/// that does not report a logged-in user is an invalid cookie.
pub open spec fn bootstrap_outcome(page: Seq<char>, has_sapisid: bool) -> Result<
    (Seq<char>, Seq<char>),
    Option<Seq<char>>,
> {
    match spec_extract_between(page, api_key_marker(), "\""@) {
        None => Err(if has_sapisid {
            None
        } else {
            Some("YouTube Music bootstrap data (INNERTUBE_API_KEY)"@)
        }),
        Some(key) => match spec_extract_between(page, client_version_marker(), "\""@) {
            None => Err(if has_sapisid {
                None
            } else {
                Some("YouTube Music bootstrap data (INNERTUBE_CLIENT_VERSION)"@)
            }),
            Some(version) => if has_sapisid && !spec_contains(page, logged_in_marker()) {
                Err(None)
            } else {
                Ok((key, version))
            },
        },
    }
}

impl YTDao {
    /// The HTTP client of a session: `reqwest` with the session's jar and the
    /// client's user agent.
    pub fn http_client_for(jar: CookieJar) -> (res: YResult<HttpClient>)
        ensures
            res matches Ok(c) ==> c.jar_lines() == jar.lines() && c.agent() == user_agent(),
            res matches Err(e) ==> e is ReqwestError,
    {
        match build_http_client(
            jar,
            "Mozilla/5.0 (X11; Linux x86_64) AppleWebKit/537.36 (KHTML, like Gecko) Chrome/120.0.0.0 Safari/537.36",
        ) {
            Ok(c) => Ok(c),
            Err(e) => Err(YError::ReqwestError(e)),
        }
    }

    /// The connection described by the YouTube Music start page `page`,
    /// fetched with `http` for a session whose `SAPISID` is `sapisid`
    /// (see [`bootstrap_outcome`]).
    pub fn from_bootstrap_page(http: HttpClient, sapisid: Option<String>, page: &str) -> (res:
        YResult<YTDao>)
        ensures
            match bootstrap_outcome(page@, sapisid is Some) {
                Ok((key, version)) => res matches Ok(d) && d.innertube_api_key@ == key
                    && d.client_version@ == version && d.http == http && d.sapisid == sapisid,
                Err(None) => (res matches Err(e) && e is InvalidCookie),
                Err(Some(m)) => (res matches Err(YError::InvalidResponse(t)) && t@ == m),
            },
    {
        let has_auth = sapisid.is_some();
        let key = match extract_between(page, "INNERTUBE_API_KEY\":\"", "\"") {
            Some(k) => k,
            None => {
                if has_auth {
                    return Err(YError::InvalidCookie);
                } else {
                    return Err(
                        YError::InvalidResponse(
                            "YouTube Music bootstrap data (INNERTUBE_API_KEY)".to_string(),
                        ),
                    );
                }
            },
        };
        let version = match extract_between(page, "INNERTUBE_CLIENT_VERSION\":\"", "\"") {
            Some(v) => v,
            None => {
                if has_auth {
                    return Err(YError::InvalidCookie);
                } else {
                    return Err(
                        YError::InvalidResponse(
                            "YouTube Music bootstrap data (INNERTUBE_CLIENT_VERSION)".to_string(),
                        ),
                    );
                }
            },
        };
        let text = str_chars(page);
        let marker = str_chars("\"LOGGED_IN\":true");
        let logged_in = contains(text.as_slice(), marker.as_slice());
        match validate_bootstrap_auth_state(has_auth, logged_in) {
            Err(e) => Err(e),
            Ok(()) => Ok(YTDao { http, sapisid, innertube_api_key: key, client_version: version }),
        }
    }

    /// The URL of an InnerTube endpoint, carrying the connection's API key.
    pub fn api_url(&self, endpoint: &str) -> (res: String)
        ensures
            res@ == api_url_text(endpoint@, self.innertube_api_key@),
    {
        let mut out: Vec<char> = Vec::new();
        push_str(&mut out, "https://music.youtube.com");
        push_str(&mut out, "/youtubei/v1/");
        push_str(&mut out, endpoint);
        push_str(&mut out, "?key=");
        push_str(&mut out, self.innertube_api_key.as_str());
        push_str(&mut out, "&alt=json");
        string_from_chars(out.as_slice())
    }

    /// The headers of an InnerTube request: JSON content, the YouTube Music
    /// origin, the first signed-in account, and — for a logged-in connection —
    /// the `SAPISIDHASH` authorization made at the current time.
    pub fn get_api_headers(&self) -> (res: reqwest::header::HeaderMap)
        ensures
            exists|t: u64|
                header_entries(res) == api_header_entries(opt_string(self.sapisid), t),
    {
        let mut headers = header_map_new();
        proof {
            reveal_strlit("Content-Type");
            reveal_strlit("application/json");
            reveal_strlit("Origin");
            reveal_strlit("https://music.youtube.com");
            reveal_strlit("X-Goog-AuthUser");
            reveal_strlit("0");
            reveal_strlit("Authorization");
        }
        header_insert(&mut headers, "Content-Type", "application/json");
        header_insert(&mut headers, "Origin", "https://music.youtube.com");
        header_insert(&mut headers, "X-Goog-AuthUser", "0");
        let ghost mut stamp: u64 = 0;
        match &self.sapisid {
            Some(sapisid) => {
                let now = unix_time_secs();
                proof {
                    stamp = now;
                }
                let hash = sapi_hash(now, sapisid.as_str());
                let mut value: Vec<char> = Vec::new();
                push_str(&mut value, "SAPISIDHASH ");
                push_str(&mut value, hash.as_str());
                proof {
                    assert(value@ =~= "SAPISIDHASH "@ + sapi_hash_text(now, sapisid@));
                    reveal_strlit("SAPISIDHASH ");
                    assert(header_value_chars_ok(value@)) by {
                        assert forall|i: int| 0 <= i < value@.len() implies header_char_ok(
                            #[trigger] value@[i],
                        ) by {
                            if i >= 12 {
                                assert(value@[i] == sapi_hash_text(now, sapisid@)[i - 12]);
                            }
                        }
                    }
                }
                let text = string_from_chars(value.as_slice());
                header_insert(&mut headers, "Authorization", text.as_str());
            },
            None => {},
        }
        assert(header_entries(headers) == api_header_entries(opt_string(self.sapisid), stamp));
        headers
    }

    /// Whether the connection is logged in.
    pub fn is_authenticated(&self) -> (res: bool)
        ensures
            res == (self.sapisid is Some),
    {
        self.sapisid.is_some()
    }
}

/// The InnerTube requests the client makes.
#[derive(Clone, Copy, Debug, PartialEq, Eq, Structural)]
pub enum ApiRequest {
    LibraryLists,
    Continuation,
    Songs,
    SearchWithParams,
    Search,
    NextParams,
    CreatePlaylist,
    RelatedSongs,
    SaveAlbum,
    UnsaveCustomPlaylist,
    UnsaveAlbum,
    SaveToPlaylist,
    UnsaveFromPlaylist,
    UnlikeSong,
    LikeSong,
}

/// The endpoint each request goes to.
pub open spec fn endpoint_text(r: ApiRequest) -> Seq<char> {
    match r {
        ApiRequest::LibraryLists => "browse"@,
        ApiRequest::Continuation => "browse"@,
        ApiRequest::Songs => "browse"@,
        ApiRequest::SearchWithParams => "search"@,
        ApiRequest::Search => "search"@,
        ApiRequest::NextParams => "next"@,
        ApiRequest::CreatePlaylist => "playlist/create"@,
        ApiRequest::RelatedSongs => "next"@,
        ApiRequest::SaveAlbum => "like/like"@,
        ApiRequest::UnsaveCustomPlaylist => "playlist/delete"@,
        ApiRequest::UnsaveAlbum => "like/removelike"@,
        ApiRequest::SaveToPlaylist => "browse/edit_playlist"@,
        ApiRequest::UnsaveFromPlaylist => "browse/edit_playlist"@,
        ApiRequest::UnlikeSong => "like/removelike"@,
        ApiRequest::LikeSong => "like/like"@,
    }
}

/// The endpoint of a request (see [`endpoint_text`]).
pub fn endpoint(r: ApiRequest) -> (res: &'static str)
    ensures
        res@ == endpoint_text(r),
{
    match r {
        ApiRequest::LibraryLists => "browse",
        ApiRequest::Continuation => "browse",
        ApiRequest::Songs => "browse",
        ApiRequest::SearchWithParams => "search",
        ApiRequest::Search => "search",
        ApiRequest::NextParams => "next",
        ApiRequest::CreatePlaylist => "playlist/create",
        ApiRequest::RelatedSongs => "next",
        ApiRequest::SaveAlbum => "like/like",
        ApiRequest::UnsaveCustomPlaylist => "playlist/delete",
        ApiRequest::UnsaveAlbum => "like/removelike",
        ApiRequest::SaveToPlaylist => "browse/edit_playlist",
        ApiRequest::UnsaveFromPlaylist => "browse/edit_playlist",
        ApiRequest::UnlikeSong => "like/removelike",
        ApiRequest::LikeSong => "like/like",
    }
}

/// The label a failed status of a request is reported with; the requests
/// whose answer is read as text have none.
pub open spec fn failure_label_text(r: ApiRequest) -> Option<Seq<char>> {
    match r {
        ApiRequest::SaveAlbum => Some("Unsave custom playlist"@),
        ApiRequest::UnsaveCustomPlaylist => Some("Unsave custom playlist"@),
        ApiRequest::UnsaveAlbum => Some("Unsave album"@),
        ApiRequest::SaveToPlaylist => Some("Save song to playlist"@),
        ApiRequest::UnsaveFromPlaylist => Some("Unsave song to playlist"@),
        ApiRequest::UnlikeSong => Some("Unlike Song"@),
        ApiRequest::LikeSong => Some("Like Song"@),
        _ => None,
    }
}

/// The failure label of a request (see [`failure_label_text`]).
pub fn failure_label(r: ApiRequest) -> (res: Option<&'static str>)
    ensures
        match (res, failure_label_text(r)) {
            (Some(a), Some(b)) => a@ == b,
            (None, None) => true,
            _ => false,
        },
{
    match r {
        ApiRequest::SaveAlbum => Some("Unsave custom playlist"),
        ApiRequest::UnsaveCustomPlaylist => Some("Unsave custom playlist"),
        ApiRequest::UnsaveAlbum => Some("Unsave album"),
        ApiRequest::SaveToPlaylist => Some("Save song to playlist"),
        ApiRequest::UnsaveFromPlaylist => Some("Unsave song to playlist"),
        ApiRequest::UnlikeSong => Some("Unlike Song"),
        ApiRequest::LikeSong => Some("Like Song"),
        _ => None,
    }
}

/// The search filter: songs for kind 1, albums for any other kind.
pub open spec fn search_params_text(rtype: u8) -> Seq<char> {
    if rtype == 1 {
        "EgWKAQIIAWoMEAQQAxAFEAkQEBAK"@
    } else {
        "EgWKAQIYAWoMEAQQAxAFEAkQEBAK"@
    }
}

/// The search filter of a search kind (see [`search_params_text`]).
pub fn search_params(rtype: u8) -> (res: &'static str)
    ensures
        res@ == search_params_text(rtype),
{
    if rtype == 1 {
        "EgWKAQIIAWoMEAQQAxAFEAkQEBAK"
    } else {
        "EgWKAQIYAWoMEAQQAxAFEAkQEBAK"
    }
}

/// Visibility of a playlist.
#[derive(Clone, Copy, Debug, PartialEq, Eq, Structural)]
pub enum PlayListPrivacy {
    Public,
    Unlisted,
    Private,
}

/// The privacy status a new playlist is created with: none (the server's
/// default, private) for a private playlist.
pub fn create_playlist_privacy(privacy: PlayListPrivacy) -> (res: Option<PlayListPrivacy>)
    ensures
        res == (if privacy == PlayListPrivacy::Private {
            None
        } else {
            Some(privacy)
        }),
{
    match privacy {
        PlayListPrivacy::Private => None,
        _ => Some(privacy),
    }
}

/// The description a new playlist is created with: none when empty.
pub fn create_playlist_description(desc: &str) -> (res: Option<&str>)
    ensures
        res == (if desc@.len() == 0 {
            None
        } else {
            Some(desc)
        }),
{
    if desc.is_empty() {
        None
    } else {
        Some(desc)
    }
}

/// The URL text of an InnerTube endpoint.
pub open spec fn api_url_text(endpoint: Seq<char>, key: Seq<char>) -> Seq<char> {
    "https://music.youtube.com"@ + "/youtubei/v1/"@ + endpoint + "?key="@ + key + "&alt=json"@
}

pub open spec fn opt_string(o: Option<String>) -> Option<Seq<char>> {
    match o {
        Some(s) => Some(s@),
        None => None,
    }
}

// ---------------------------------------------------------------------------
// Numbers as text
// ---------------------------------------------------------------------------

pub open spec fn digit_char(d: nat) -> char {
    if d == 0 {
        '0'
    } else if d == 1 {
        '1'
    } else if d == 2 {
        '2'
    } else if d == 3 {
        '3'
    } else if d == 4 {
        '4'
    } else if d == 5 {
        '5'
    } else if d == 6 {
        '6'
    } else if d == 7 {
        '7'
    } else if d == 8 {
        '8'
    } else {
        '9'
    }
}

fn digit(d: u64) -> (res: char)
    requires
        d < 10,
    ensures
        res == digit_char(d as nat),
{
    if d == 0 {
        '0'
    } else if d == 1 {
        '1'
    } else if d == 2 {
        '2'
    } else if d == 3 {
        '3'
    } else if d == 4 {
        '4'
    } else if d == 5 {
        '5'
    } else if d == 6 {
        '6'
    } else if d == 7 {
        '7'
    } else if d == 8 {
        '8'
    } else {
        '9'
    }
}

/// The decimal digits of `n`, most significant first.
pub open spec fn decimal(n: nat) -> Seq<char>
    decreases n,
{
    if n < 10 {
        seq![digit_char(n)]
    } else {
        decimal(n / 10).push(digit_char(n % 10))
    }
}

/// The decimal text of `n`.
pub fn u64_decimal(n: u64) -> (res: Vec<char>)
    ensures
        res@ == decimal(n as nat),
    decreases n,
{
    if n < 10 {
        let c = digit(n);
        let v = vec![c];
        assert(v@ =~= seq![c]);
        v
    } else {
        let mut v = u64_decimal(n / 10);
        let d = digit(n % 10);
        v.push(d);
        v
    }
}

pub proof fn lemma_decimal_digits(n: nat)
    ensures
        forall|i: int| 0 <= i < decimal(n).len() ==> '0' <= #[trigger] decimal(n)[i] <= '9',
    decreases n,
{
    if n >= 10 {
        lemma_decimal_digits(n / 10);
        let p = decimal(n / 10);
        assert forall|i: int| 0 <= i < decimal(n).len() implies '0' <= #[trigger] decimal(n)[i]
            <= '9' by {
            if i < p.len() {
                assert(decimal(n)[i] == p[i]);
            }
        }
    }
}

// ---------------------------------------------------------------------------
// Request authorization
// ---------------------------------------------------------------------------

/// The SHA-1 digest of the UTF-8 text `message`, as lower-case hex.
pub uninterp spec fn sha1_hex_digest(message: Seq<char>) -> Seq<char>;

pub open spec fn is_lower_hex(c: char) -> bool {
    ('0' <= c && c <= '9') || ('a' <= c && c <= 'f')
}

/// `sha1_smol::Sha1::from(message).digest()`, rendered with `Display`: the
/// SHA-1 of the message's UTF-8 bytes as forty lower-case hex digits.
#[verifier::external_body]
fn sha1_hex(message: &str) -> (res: String)
    ensures
        res@ == sha1_hex_digest(message@),
        res@.len() == 40,
        forall|i: int| 0 <= i < res@.len() ==> is_lower_hex(#[trigger] res@[i]),
{
    sha1_smol::Sha1::from(message).digest().to_string()
}

/// The current time in whole seconds since the Unix epoch (zero when the
/// clock is set before it). Nothing is claimed about the value.
#[verifier::external_body]
fn unix_time_secs() -> u64 {
    match std::time::SystemTime::now().duration_since(std::time::UNIX_EPOCH) {
        Ok(d) => d.as_secs(),
        Err(_) => 0,
    }
}

/// The message signed for a `SAPISIDHASH`: time, `SAPISID` and origin
/// separated by spaces.
pub open spec fn sapi_hash_message(timestamp: u64, sapisid: Seq<char>) -> Seq<char> {
    decimal(timestamp as nat) + " "@ + sapisid + " "@ + "https://music.youtube.com"@
}

/// `<time>_<sha1 of the message>`.
pub open spec fn sapi_hash_text(timestamp: u64, sapisid: Seq<char>) -> Seq<char> {
    decimal(timestamp as nat) + "_"@ + sha1_hex_digest(sapi_hash_message(timestamp, sapisid))
}

/// The `SAPISIDHASH` token for a `SAPISID` at a given time
/// (see [`sapi_hash_text`]).
pub fn sapi_hash(timestamp: u64, sapisid: &str) -> (res: String)
    ensures
        res@ == sapi_hash_text(timestamp, sapisid@),
        forall|i: int| 0 <= i < res@.len() ==> header_char_ok(#[trigger] res@[i]),
{
    let stamp = u64_decimal(timestamp);
    let mut msg: Vec<char> = stamp.clone();
    assert(msg@ == stamp@);
    push_str(&mut msg, " ");
    push_str(&mut msg, sapisid);
    push_str(&mut msg, " ");
    push_str(&mut msg, "https://music.youtube.com");
    let msg_text = string_from_chars(msg.as_slice());
    let digest = sha1_hex(msg_text.as_str());
    assert(msg_text@ =~= sapi_hash_message(timestamp, sapisid@));
    let mut out: Vec<char> = stamp;
    push_str(&mut out, "_");
    push_str(&mut out, digest.as_str());
    proof {
        lemma_sapi_hash_header_safe(timestamp, sapisid@);
        assert(out@ =~= sapi_hash_text(timestamp, sapisid@));
    }
    string_from_chars(out.as_slice())
}

/// A character `HeaderValue::from_str` accepts: tab, or anything from space
/// upwards except DEL.
pub open spec fn header_char_ok(c: char) -> bool {
    c == '\t' || (' ' <= c && c != '\u{7f}')
}

pub open spec fn header_value_chars_ok(v: Seq<char>) -> bool {
    forall|i: int| 0 <= i < v.len() ==> header_char_ok(#[trigger] v[i])
}

proof fn lemma_sapi_hash_header_safe(timestamp: u64, sapisid: Seq<char>)
    requires
        forall|i: int|
            0 <= i < sha1_hex_digest(sapi_hash_message(timestamp, sapisid)).len() ==> is_lower_hex(
                #[trigger] sha1_hex_digest(sapi_hash_message(timestamp, sapisid))[i],
            ),
    ensures
        forall|i: int|
            0 <= i < sapi_hash_text(timestamp, sapisid).len() ==> header_char_ok(
                #[trigger] sapi_hash_text(timestamp, sapisid)[i],
            ),
{
    lemma_decimal_digits(timestamp as nat);
    reveal_strlit("_");
    let d = decimal(timestamp as nat);
    let h = sha1_hex_digest(sapi_hash_message(timestamp, sapisid));
    let t = sapi_hash_text(timestamp, sapisid);
    assert forall|i: int| 0 <= i < t.len() implies header_char_ok(#[trigger] t[i]) by {
        if i < d.len() {
            assert(t[i] == d[i]);
        } else if i == d.len() {
            assert(t[i] == '_');
        } else {
            assert(t[i] == h[i - d.len() - 1]);
            assert(is_lower_hex(h[i - d.len() - 1]));
        }
    }
}

// ---------------------------------------------------------------------------
// Header maps
// ---------------------------------------------------------------------------

/// The headers of a `HeaderMap`: lower-cased name to value text.
pub uninterp spec fn header_entries(h: reqwest::header::HeaderMap) -> Map<Seq<char>, Seq<char>>;

pub open spec fn no_headers() -> Map<Seq<char>, Seq<char>> {
    Map::empty()
}

/// `HeaderMap::new`: no headers.
#[verifier::external_body]
fn header_map_new() -> (res: reqwest::header::HeaderMap)
    ensures
        header_entries(res) == no_headers(),
{
    reqwest::header::HeaderMap::new()
}

/// `HeaderMap::insert` of a header built with `HeaderValue::from_str`: the
/// name (lower-cased) now maps to exactly this value, replacing any earlier
/// value. The value is valid and the map small, so neither call panics.
#[verifier::external_body]
fn header_insert(h: &mut reqwest::header::HeaderMap, name: &'static str, value: &str)
    requires
        header_value_chars_ok(value@),
        name@.len() > 0,
        name@.len() < 65536,
        header_entries(*old(h)).dom().finite(),
        header_entries(*old(h)).dom().len() < 1024,
        forall|i: int|
            0 <= i < name@.len() ==> ('a' <= #[trigger] name@[i] <= 'z' || 'A' <= name@[i] <= 'Z'
                || name@[i] == '-'),
    ensures
        header_entries(*final(h)) == header_entries(*old(h)).insert(
            crate::text::lower_seq(name@),
            value@,
        ),
{
    h.insert(name, reqwest::header::HeaderValue::from_str(value).unwrap());
}

/// The headers of an InnerTube request made at time `t`.
pub open spec fn api_header_entries(sapisid: Option<Seq<char>>, t: u64) -> Map<
    Seq<char>,
    Seq<char>,
> {
    let base = no_headers().insert(
        crate::text::lower_seq("Content-Type"@),
        "application/json"@,
    ).insert(crate::text::lower_seq("Origin"@), "https://music.youtube.com"@).insert(
        crate::text::lower_seq("X-Goog-AuthUser"@),
        "0"@,
    );
    match sapisid {
        Some(s) => base.insert(
            crate::text::lower_seq("Authorization"@),
            "SAPISIDHASH "@ + sapi_hash_text(t, s),
        ),
        None => base,
    }
}


/// Liking goes to the like endpoint and unliking to the remove-like
/// endpoint, so liking a song and unliking it never go to the same place;
/// saving and unsaving an album use the same pair, and creating a playlist
/// and deleting one go to different endpoints.
pub proof fn lemma_like_endpoints_differ()
    ensures
        endpoint_text(ApiRequest::LikeSong) == "like/like"@,
        endpoint_text(ApiRequest::UnlikeSong) == "like/removelike"@,
        endpoint_text(ApiRequest::LikeSong) != endpoint_text(ApiRequest::UnlikeSong),
        endpoint_text(ApiRequest::SaveAlbum) == endpoint_text(ApiRequest::LikeSong),
        endpoint_text(ApiRequest::UnsaveAlbum) == endpoint_text(ApiRequest::UnlikeSong),
        endpoint_text(ApiRequest::SaveAlbum) != endpoint_text(ApiRequest::UnsaveAlbum),
        endpoint_text(ApiRequest::CreatePlaylist) != endpoint_text(ApiRequest::UnsaveCustomPlaylist),
{
    reveal_strlit("like/like");
    reveal_strlit("like/removelike");
    reveal_strlit("playlist/create");
    reveal_strlit("playlist/delete");
    assert("like/like"@.len() != "like/removelike"@.len());
    assert("playlist/create"@[9] != "playlist/delete"@[9]);
}

} // verus!
