use gytm::cookies::{
    cookie_domain_applies_to_host, cookie_to_set_cookie, filter_chromium_cookies,
    filter_gecko_cookies, sapisid_from_cookie_header, BrowserCookie, GeckoCookie,
};
use gytm::dao::validate_bootstrap_auth_state;
use gytm::error::{startup_error_message, YError};
use gytm::session::{
    browser_cookie_to_set_cookie, CookieJar, build_jar_from_chromium_cookies, build_jar_from_gecko_cookies,
    chromium_session_from_cookies, gecko_session_from_rows, origin_text_for_cookie, origin_url_for_cookie,
    select_authenticated_candidate, select_cross_family_session, select_gecko_container_cookies,
    ytm_domain_text, Session,
};
use url::Url;

fn make_test_cookie(
    name: &str,
    value: &str,
    domain: &str,
    path: &str,
    secure: bool,
    http_only: bool,
    expires: Option<u64>,
) -> BrowserCookie {
    BrowserCookie {
        domain: domain.to_string(),
        path: path.to_string(),
        secure,
        expires,
        name: name.to_string(),
        value: value.to_string(),
        http_only,
        same_site: 0,
    }
}

fn gecko_row(
    name: &str,
    value: &str,
    host: &str,
    expiry: i64,
    is_secure: bool,
    is_http_only: bool,
    origin_attributes: &str,
) -> GeckoCookie {
    GeckoCookie {
        name: name.to_string(),
        value: value.to_string(),
        host: host.to_string(),
        path: "/".to_string(),
        expiry,
        is_secure,
        is_http_only,
        same_site: 0,
        origin_attributes: origin_attributes.to_string(),
    }
}

fn now_secs() -> i64 {
    std::time::SystemTime::now()
        .duration_since(std::time::UNIX_EPOCH)
        .unwrap()
        .as_secs() as i64
}

fn header_for(jar: &CookieJar, url: &str) -> Option<String> {
    jar.cookie_header(url)
}

/// Loads the candidate sessions in order, as the profile search does.
fn search(candidates: Vec<Vec<GeckoCookie>>, now: i64) -> Option<Session> {
    let mut first_anonymous = None;
    for rows in candidates {
        if let Some(candidate) = gecko_session_from_rows(rows, now).unwrap() {
            if let Some(chosen) = select_authenticated_candidate(candidate, &mut first_anonymous) {
                return Some(chosen);
            }
        }
    }
    first_anonymous
}

#[test]
fn test_domain_preserved() {
    let cookie = make_test_cookie("SID", "val", ".youtube.com", "/", true, true, None);
    let set_cookie = browser_cookie_to_set_cookie(&cookie);
    assert!(
        set_cookie.contains("Domain=.youtube.com"),
        "Expected Domain=.youtube.com in '{set_cookie}'"
    );

    let cookie_no_dot = make_test_cookie("SID", "val", "youtube.com", "/", true, true, None);
    let set_cookie_no_dot = browser_cookie_to_set_cookie(&cookie_no_dot);
    assert!(
        !set_cookie_no_dot.contains("Domain="),
        "Host-only cookie without leading dot must not have Domain= attribute in '{set_cookie_no_dot}'"
    );

    let cookie_empty_domain = make_test_cookie("SID", "val", "", "/", true, true, None);
    let set_cookie_empty = browser_cookie_to_set_cookie(&cookie_empty_domain);
    assert!(
        !set_cookie_empty.contains("Domain="),
        "Expected no Domain attribute in '{set_cookie_empty}'"
    );
}

#[test]
fn test_path_preserved() {
    let cookie = make_test_cookie("SID", "val", ".youtube.com", "/", true, true, None);
    let set_cookie = browser_cookie_to_set_cookie(&cookie);
    assert!(set_cookie.contains("Path=/"), "Expected Path=/ in '{set_cookie}'");

    let cookie_sub = make_test_cookie("SID", "val", ".youtube.com", "/youtubei", true, true, None);
    let set_cookie_sub = browser_cookie_to_set_cookie(&cookie_sub);
    assert!(
        set_cookie_sub.contains("Path=/youtubei"),
        "Expected Path=/youtubei in '{set_cookie_sub}'"
    );
}

#[test]
fn test_secure_true_adds_secure() {
    let cookie = make_test_cookie("SAPISID", "val", ".youtube.com", "/", true, false, None);
    let set_cookie = browser_cookie_to_set_cookie(&cookie);
    assert!(set_cookie.contains("Secure"), "Expected Secure in '{set_cookie}'");
}

#[test]
fn test_secure_false_does_not_add_secure() {
    let cookie = make_test_cookie("PREF", "val", ".youtube.com", "/", false, false, None);
    let set_cookie = browser_cookie_to_set_cookie(&cookie);
    assert!(!set_cookie.contains("Secure"), "Did not expect Secure in '{set_cookie}'");
}

#[test]
fn test_http_only_true_adds_httponly() {
    let cookie = make_test_cookie("HSID", "val", ".youtube.com", "/", true, true, None);
    let set_cookie = browser_cookie_to_set_cookie(&cookie);
    assert!(set_cookie.contains("HttpOnly"), "Expected HttpOnly in '{set_cookie}'");
}

#[test]
fn test_http_only_false_does_not_add_httponly() {
    let cookie = make_test_cookie("SAPISID", "val", ".youtube.com", "/", true, false, None);
    let set_cookie = browser_cookie_to_set_cookie(&cookie);
    assert!(!set_cookie.contains("HttpOnly"), "Did not expect HttpOnly in '{set_cookie}'");
}

#[test]
fn test_name_value_preserved() {
    let cookie = make_test_cookie(
        "__Secure-3PAPISID",
        "abc123XYZ_value!=",
        ".youtube.com",
        "/",
        true,
        false,
        None,
    );
    let set_cookie = browser_cookie_to_set_cookie(&cookie);
    assert!(
        set_cookie.starts_with("__Secure-3PAPISID=abc123XYZ_value!="),
        "Expected name and value preserved in '{set_cookie}'"
    );
}

#[test]
fn test_empty_or_unusual_paths_handled_safely() {
    let cookie_empty = make_test_cookie("c1", "v1", ".youtube.com", "", true, false, None);
    let set_cookie_empty = browser_cookie_to_set_cookie(&cookie_empty);
    assert!(
        set_cookie_empty.contains("Path=/"),
        "Expected empty path to default to Path=/, got '{set_cookie_empty}'"
    );

    let cookie_no_slash =
        make_test_cookie("c2", "v2", ".youtube.com", "relative_path", true, false, None);
    let set_cookie_no_slash = browser_cookie_to_set_cookie(&cookie_no_slash);
    assert!(
        set_cookie_no_slash.contains("Path=/"),
        "Expected unusual path without leading slash to default to Path=/, got '{set_cookie_no_slash}'"
    );
}

#[test]
fn test_invalid_cookie_error_contains_no_secrets() {
    let err = YError::InvalidCookie;
    let err_str = err.message();
    assert_eq!(err_str, "Invalid Cookie");

    let startup_msg = startup_error_message(&err);
    assert_eq!(startup_msg, "Authentication error: invalid or expired session cookies");
}

#[test]
fn test_jar_integration_youtube_domain_applicable_to_music_youtube_com() {
    let mut jar = CookieJar::new();
    let ytm_url = Url::parse("https://music.youtube.com/").unwrap();

    let sapisid =
        make_test_cookie("SAPISID", "test_sapisid_secret", ".youtube.com", "/", true, false, None);
    let ssid = make_test_cookie("SSID", "test_ssid_secret", ".youtube.com", "/", true, true, None);
    let visitor = make_test_cookie(
        "VISITOR_INFO1_LIVE",
        "visitor_secret",
        "music.youtube.com",
        "/",
        false,
        false,
        None,
    );

    let sapisid_str = browser_cookie_to_set_cookie(&sapisid);
    let ssid_str = browser_cookie_to_set_cookie(&ssid);
    let visitor_str = browser_cookie_to_set_cookie(&visitor);

    let yt_url = Url::parse("https://youtube.com").unwrap();
    jar.add_cookie_str(&sapisid_str, yt_url.as_str()).unwrap();
    jar.add_cookie_str(&ssid_str, yt_url.as_str()).unwrap();
    jar.add_cookie_str(&visitor_str, ytm_url.as_str()).unwrap();

    let header_str = jar.cookie_header(ytm_url.as_str()).expect("Cookies must be found for music.youtube.com");

    assert!(
        header_str.contains("SAPISID=test_sapisid_secret"),
        "SAPISID cookie must be applicable to music.youtube.com: {header_str}"
    );
    assert!(
        header_str.contains("SSID=test_ssid_secret"),
        "SSID cookie must be applicable to music.youtube.com: {header_str}"
    );
    assert!(
        header_str.contains("VISITOR_INFO1_LIVE=visitor_secret"),
        "VISITOR_INFO1_LIVE cookie must be applicable to music.youtube.com: {header_str}"
    );
}

#[test]
fn test_chromium_filter_rejects_expired_and_preserves_session() {
    let now = 1_000_000u64;
    let valid_persistent =
        make_test_cookie("c_valid", "v1", ".youtube.com", "/", true, false, Some(now + 1000));
    let expired_persistent =
        make_test_cookie("c_exp", "v2", ".youtube.com", "/", true, false, Some(now - 1000));
    let session_cookie = make_test_cookie("c_sess", "v3", ".youtube.com", "/", true, false, None);
    let wrong_domain = make_test_cookie("c_wrong", "v4", ".example.com", "/", true, false, None);

    let raw = vec![valid_persistent, expired_persistent, session_cookie, wrong_domain];
    let filtered = filter_chromium_cookies(raw, now as i64);

    assert_eq!(filtered.len(), 2);
    assert_eq!(filtered[0].name, "c_valid");
    assert_eq!(filtered[1].name, "c_sess");
}

#[test]
fn test_chromium_authenticated_candidate_preferred_over_anonymous() {
    let now = 1_000_000u64;

    let anon_browser = vec![
        make_test_cookie("PREF", "f1=val", ".youtube.com", "/", false, false, None),
        make_test_cookie("VISITOR", "v123", "music.youtube.com", "/", false, false, None),
    ];
    let anon_filtered = filter_chromium_cookies(anon_browser, now as i64);

    let auth_browser = vec![
        make_test_cookie("SAPISID", "brave_sapisid_token", ".youtube.com", "/", true, false, None),
        make_test_cookie("SID", "brave_sid_token", ".youtube.com", "/", false, false, None),
    ];
    let auth_filtered = filter_chromium_cookies(auth_browser, now as i64);

    let anon_has_auth = anon_filtered.iter().any(|c| c.name == "SAPISID" && !c.value.is_empty());
    assert!(!anon_has_auth, "Browser 1 must be anonymous");

    let auth_has_auth = auth_filtered.iter().any(|c| c.name == "SAPISID" && !c.value.is_empty());
    assert!(auth_has_auth, "Browser 2 must have authentication");

    let (jar, sapisid) = build_jar_from_chromium_cookies(&auth_filtered).unwrap();
    assert_eq!(sapisid, Some("brave_sapisid_token".to_string()));

    let header_str = header_for(&jar, "https://music.youtube.com/").unwrap();
    assert!(header_str.contains("SAPISID=brave_sapisid_token"));
    assert!(!header_str.contains("VISITOR"), "Must not merge cookies from Browser 1");
}

#[test]
fn test_chromium_expired_sapisid_rejected() {
    let now = 1_000_000u64;
    let expired_auth = vec![make_test_cookie(
        "SAPISID",
        "expired_token",
        ".youtube.com",
        "/",
        true,
        false,
        Some(now - 100),
    )];
    let filtered = filter_chromium_cookies(expired_auth, now as i64);
    assert!(filtered.is_empty(), "Expired SAPISID must be rejected");

    let (jar, sapisid) = build_jar_from_chromium_cookies(&filtered).unwrap();
    assert_eq!(sapisid, None);
    assert!(header_for(&jar, "https://music.youtube.com/").is_none());
}

#[test]
fn test_cross_family_selection_gecko_anon_chromium_auth_prefers_chromium() {
    let mut gecko_jar = CookieJar::new();
    let ytm_url = Url::parse("https://music.youtube.com/").unwrap();
    gecko_jar.add_cookie_str("PREF=gecko_anon; Domain=.youtube.com; Path=/", ytm_url.as_str()).unwrap();
    let gecko_candidate = Some((gecko_jar, None));

    let mut chromium_jar = CookieJar::new();
    chromium_jar.add_cookie_str("SAPISID=chromium_sapisid; Domain=.youtube.com; Path=/; Secure", ytm_url.as_str()).unwrap();
    let chromium_candidate = Some((chromium_jar, Some("chromium_sapisid".to_string())));

    let (winning_jar, winning_sapisid) = select_cross_family_session(gecko_candidate, chromium_candidate);

    assert_eq!(winning_sapisid, Some("chromium_sapisid".to_string()));
    let header_str = winning_jar.cookie_header(ytm_url.as_str()).unwrap();
    assert!(header_str.contains("SAPISID=chromium_sapisid"));
    assert!(
        !header_str.contains("PREF=gecko_anon"),
        "Cookies across browser families must never be merged"
    );
}

#[test]
fn test_cross_family_selection_both_authenticated_prefers_gecko() {
    let mut gecko_jar = CookieJar::new();
    let ytm_url = Url::parse("https://music.youtube.com/").unwrap();
    gecko_jar.add_cookie_str("SAPISID=gecko_sapisid; Domain=.youtube.com; Path=/; Secure", ytm_url.as_str()).unwrap();
    let gecko_candidate = Some((gecko_jar, Some("gecko_sapisid".to_string())));

    let mut chromium_jar = CookieJar::new();
    chromium_jar.add_cookie_str("SAPISID=chromium_sapisid; Domain=.youtube.com; Path=/; Secure", ytm_url.as_str()).unwrap();
    let chromium_candidate = Some((chromium_jar, Some("chromium_sapisid".to_string())));

    let (winning_jar, winning_sapisid) = select_cross_family_session(gecko_candidate, chromium_candidate);

    assert_eq!(winning_sapisid, Some("gecko_sapisid".to_string()));
    let header_str = winning_jar.cookie_header(ytm_url.as_str()).unwrap();
    assert!(header_str.contains("SAPISID=gecko_sapisid"));
    assert!(!header_str.contains("chromium_sapisid"));
}

#[test]
fn test_cross_family_selection_both_anonymous_prefers_gecko() {
    let mut gecko_jar = CookieJar::new();
    let ytm_url = Url::parse("https://music.youtube.com/").unwrap();
    gecko_jar.add_cookie_str("PREF=gecko_anon; Domain=.youtube.com; Path=/", ytm_url.as_str()).unwrap();
    let gecko_candidate = Some((gecko_jar, None));

    let mut chromium_jar = CookieJar::new();
    chromium_jar.add_cookie_str("PREF=chrom_anon; Domain=.youtube.com; Path=/", ytm_url.as_str()).unwrap();
    let chromium_candidate = Some((chromium_jar, None));

    let (winning_jar, winning_sapisid) = select_cross_family_session(gecko_candidate, chromium_candidate);

    assert_eq!(winning_sapisid, None);
    let header_str = winning_jar.cookie_header(ytm_url.as_str()).unwrap();
    assert!(header_str.contains("PREF=gecko_anon"));
    assert!(!header_str.contains("chrom_anon"));
}

#[test]
fn test_cross_family_selection_gecko_none_chromium_anon_returns_chromium() {
    let mut chromium_jar = CookieJar::new();
    let ytm_url = Url::parse("https://music.youtube.com/").unwrap();
    chromium_jar.add_cookie_str("PREF=chrom_anon; Domain=.youtube.com; Path=/", ytm_url.as_str()).unwrap();
    let chromium_candidate = Some((chromium_jar, None));

    let (winning_jar, winning_sapisid) = select_cross_family_session(None, chromium_candidate);

    assert_eq!(winning_sapisid, None);
    let header_str = winning_jar.cookie_header(ytm_url.as_str()).unwrap();
    assert!(header_str.contains("PREF=chrom_anon"));
}

#[test]
fn test_validate_bootstrap_auth_state_matrix() {
    assert!(validate_bootstrap_auth_state(true, true).is_ok());

    match validate_bootstrap_auth_state(true, false) {
        Err(YError::InvalidCookie) => {}
        other => panic!("Expected InvalidCookie, got: {other:?}"),
    }

    assert!(validate_bootstrap_auth_state(false, false).is_ok());
    assert!(validate_bootstrap_auth_state(false, true).is_ok());
}

#[test]
fn test_cookie_domain_applies_to_host() {
    let host = "music.youtube.com";

    assert!(cookie_domain_applies_to_host(".youtube.com", host));
    assert!(!cookie_domain_applies_to_host("youtube.com", host));
    assert!(cookie_domain_applies_to_host("music.youtube.com", host));
    assert!(cookie_domain_applies_to_host(".music.youtube.com", host));

    assert!(!cookie_domain_applies_to_host("studio.youtube.com", host));
    assert!(!cookie_domain_applies_to_host(".studio.youtube.com", host));
    assert!(!cookie_domain_applies_to_host("www.youtube.com", host));
    assert!(!cookie_domain_applies_to_host(".www.youtube.com", host));
    assert!(!cookie_domain_applies_to_host("notyoutube.com", host));
    assert!(!cookie_domain_applies_to_host("exampleyoutube.com", host));
    assert!(!cookie_domain_applies_to_host("youtube.com.example.org", host));
    assert!(!cookie_domain_applies_to_host("", host));
}

#[test]
fn test_sapisid_coherence_rejects_non_applicable_domain() {
    let now = 1_000_000u64;

    let wrong_cookie = make_test_cookie(
        "SAPISID",
        "wrong_studio_token",
        "studio.youtube.com",
        "/",
        true,
        false,
        Some(now + 1000),
    );
    let correct_cookie = make_test_cookie(
        "SAPISID",
        "correct_ytm_token",
        ".youtube.com",
        "/",
        true,
        false,
        Some(now + 1000),
    );

    let cookies = vec![wrong_cookie, correct_cookie];
    let filtered = filter_chromium_cookies(cookies, now as i64);

    assert_eq!(filtered.len(), 1, "studio.youtube.com cookie must be filtered out");
    assert_eq!(filtered[0].value, "correct_ytm_token");

    let (jar, sapisid) = build_jar_from_chromium_cookies(&filtered).unwrap();
    assert_eq!(sapisid, Some("correct_ytm_token".to_string()));

    let header_str = header_for(&jar, "https://music.youtube.com/").expect("Cookies must be present");
    assert!(
        header_str.contains("SAPISID=correct_ytm_token"),
        "Cookie header must contain correct SAPISID: {header_str}"
    );
    assert!(
        !header_str.contains("wrong_studio_token"),
        "Cookie header must not contain non-applicable SAPISID: {header_str}"
    );
}

#[test]
fn test_sapisid_notyoutube_rejected() {
    let now = 1_000_000u64;
    let notyt_cookie =
        make_test_cookie("SAPISID", "fake_token", "notyoutube.com", "/", true, false, Some(now + 1000));
    let filtered = filter_chromium_cookies(vec![notyt_cookie], now as i64);
    assert!(filtered.is_empty());
}

#[test]
fn test_host_only_preservation() {
    let cookie = make_test_cookie("ROOT_COOKIE", "root_val", "youtube.com", "/", true, false, None);
    let mut jar = CookieJar::new();
    let default_url = Url::parse(ytm_domain_text()).unwrap();
    let cookie_str = browser_cookie_to_set_cookie(&cookie);
    let origin_url = origin_url_for_cookie(&cookie.domain, &default_url);
    jar.add_cookie_str(&cookie_str, origin_url.as_str()).unwrap();

    let yt_header = header_for(&jar, "https://youtube.com/").expect("Cookie must be present for youtube.com");
    assert!(yt_header.contains("ROOT_COOKIE=root_val"));

    assert!(
        header_for(&jar, "https://music.youtube.com/").is_none(),
        "Host-only cookie for youtube.com must not apply to music.youtube.com"
    );
}

#[test]
fn test_domain_cookie_propagation() {
    let cookie = make_test_cookie("DOMAIN_COOKIE", "dom_val", ".youtube.com", "/", true, false, None);
    let mut jar = CookieJar::new();
    let default_url = Url::parse(ytm_domain_text()).unwrap();
    let cookie_str = browser_cookie_to_set_cookie(&cookie);
    let origin_url = origin_url_for_cookie(&cookie.domain, &default_url);
    jar.add_cookie_str(&cookie_str, origin_url.as_str()).unwrap();

    let yt_header = header_for(&jar, "https://youtube.com/").expect("Cookie must be present for youtube.com");
    assert!(yt_header.contains("DOMAIN_COOKIE=dom_val"));

    let ytm_header =
        header_for(&jar, "https://music.youtube.com/").expect("Cookie must be present for music.youtube.com");
    assert!(ytm_header.contains("DOMAIN_COOKIE=dom_val"));
}

#[test]
fn test_exact_host_cookie() {
    let cookie = make_test_cookie("EXACT_COOKIE", "exact_val", "music.youtube.com", "/", true, false, None);
    let mut jar = CookieJar::new();
    let default_url = Url::parse(ytm_domain_text()).unwrap();
    let cookie_str = browser_cookie_to_set_cookie(&cookie);
    let origin_url = origin_url_for_cookie(&cookie.domain, &default_url);
    jar.add_cookie_str(&cookie_str, origin_url.as_str()).unwrap();

    let ytm_header =
        header_for(&jar, "https://music.youtube.com/").expect("Cookie must be present for music.youtube.com");
    assert!(ytm_header.contains("EXACT_COOKIE=exact_val"));

    assert!(
        header_for(&jar, "https://music.youtube.com/").is_some()
            && header_for(&jar, "https://youtube.com/").is_none(),
        "Host-only cookie for music.youtube.com must not apply to youtube.com"
    );
}

#[test]
fn test_sapisid_path_coherence() {
    let now = 1_000_000u64;

    let wrong_path = make_test_cookie(
        "SAPISID",
        "wrong_path_token",
        ".youtube.com",
        "/foo",
        true,
        false,
        Some(now + 1000),
    );
    let correct_path = make_test_cookie(
        "SAPISID",
        "correct_path_token",
        ".youtube.com",
        "/",
        true,
        false,
        Some(now + 1000),
    );

    let (jar, sapisid) = build_jar_from_chromium_cookies(&vec![wrong_path, correct_path]).unwrap();
    assert_eq!(sapisid, Some("correct_path_token".to_string()));

    let header_str = header_for(&jar, "https://music.youtube.com/").expect("Cookies must be present");
    assert!(
        header_str.contains("SAPISID=correct_path_token"),
        "Header must contain path-matching SAPISID"
    );
    assert!(
        !header_str.contains("wrong_path_token"),
        "Header must not contain non-matching path SAPISID"
    );
}

#[test]
fn test_gecko_and_chromium_parity() {
    let chrom_cookies = vec![
        make_test_cookie("SAPISID", "shared_token", ".youtube.com", "/", true, false, None),
        make_test_cookie("PREF", "shared_pref", "music.youtube.com", "/", false, false, None),
    ];
    let (chrom_jar, chrom_sapisid) = build_jar_from_chromium_cookies(&chrom_cookies).unwrap();

    let gecko_cookies = vec![
        gecko_row("SAPISID", "shared_token", ".youtube.com", 0, true, false, ""),
        gecko_row("PREF", "shared_pref", "music.youtube.com", 0, false, false, ""),
    ];
    let (gecko_jar, gecko_sapisid) = build_jar_from_gecko_cookies(&gecko_cookies).unwrap();

    assert_eq!(chrom_sapisid, gecko_sapisid);
    assert_eq!(chrom_sapisid, Some("shared_token".to_string()));

    let chrom_header_str = header_for(&chrom_jar, "https://music.youtube.com/").unwrap();
    let gecko_header_str = header_for(&gecko_jar, "https://music.youtube.com/").unwrap();

    assert!(chrom_header_str.contains("SAPISID=shared_token"));
    assert!(gecko_header_str.contains("SAPISID=shared_token"));
    assert!(chrom_header_str.contains("PREF=shared_pref"));
    assert!(gecko_header_str.contains("PREF=shared_pref"));
}

#[test]
fn test_valid_persistent_cookie_applies_to_music_youtube() {
    let now = now_secs();
    let future_expiry = now + 100_000;
    let rows = vec![gecko_row("SAPISID", "valid_secret_123", ".youtube.com", future_expiry, true, false, "")];

    let res = gecko_session_from_rows(rows, now).unwrap();
    assert!(res.is_some());
    let (jar, sapisid) = res.unwrap();
    assert_eq!(sapisid, Some("valid_secret_123".to_string()));

    let header = header_for(&jar, "https://music.youtube.com/").expect("Cookies must match YTM domain");
    assert!(header.contains("SAPISID=valid_secret_123"), "SAPISID must be sent to music.youtube.com");
}

#[test]
fn test_expired_cookie_rejected() {
    let now = now_secs();
    let future_expiry = now + 100_000;
    let past_expiry = now - 100_000;
    let rows = vec![
        gecko_row("SAPISID", "active_token", ".youtube.com", future_expiry, true, false, ""),
        gecko_row("ST-expired", "stale_token", ".youtube.com", past_expiry, true, false, ""),
    ];

    let loaded = filter_gecko_cookies(rows, now);
    assert_eq!(loaded.len(), 1, "Expired cookie must be filtered out by SQL");
    assert_eq!(loaded[0].name, "SAPISID");
    assert_eq!(loaded[0].value, "active_token");
}

#[test]
fn test_session_cookie_expiry_zero_valid() {
    let rows = vec![gecko_row("SAPISID", "session_token", ".youtube.com", 0, true, false, "")];
    let loaded = filter_gecko_cookies(rows, now_secs());
    assert_eq!(loaded.len(), 1, "expiry=0 must be retained as session cookie");
    assert_eq!(loaded[0].value, "session_token");
}

#[test]
fn test_millisecond_expiry_compatibility() {
    let now = now_secs();
    let future_ms = (now + 100_000) * 1000 + 123;
    let past_ms = (now - 100_000) * 1000 + 456;
    let rows = vec![
        gecko_row("SAPISID", "valid_ms_token", ".youtube.com", future_ms, true, false, ""),
        gecko_row("ST-expired-ms", "stale_ms_token", ".youtube.com", past_ms, true, false, ""),
    ];

    let loaded = filter_gecko_cookies(rows, now);
    assert_eq!(loaded.len(), 1, "Expired ms cookie must be filtered out");
    assert_eq!(loaded[0].name, "SAPISID");
    assert_eq!(loaded[0].value, "valid_ms_token");
}

#[test]
fn test_conflicting_containers_return_error() {
    let now = now_secs();
    let future_expiry = now + 100_000;
    let rows = vec![
        gecko_row("SAPISID", "token_container_default", ".youtube.com", future_expiry, true, false, ""),
        gecko_row(
            "SAPISID",
            "token_container_personal",
            ".youtube.com",
            future_expiry,
            true,
            false,
            "^userContextId=1",
        ),
    ];

    match gecko_session_from_rows(rows, now) {
        Err(YError::ConflictingContainerIdentities) => {}
        Err(other) => panic!("Expected ConflictingContainerIdentities error, got: {:?}", other),
        Ok(s) => panic!("Expected ConflictingContainerIdentities error, got: {:?}", s.map(|c| c.1)),
    }
}

#[test]
fn test_default_origin_identity_works() {
    let now = now_secs();
    let future_expiry = now + 100_000;
    let rows = vec![
        gecko_row("SAPISID", "token_sapisid", ".youtube.com", future_expiry, true, false, ""),
        gecko_row("SID", "token_sid", ".youtube.com", future_expiry, false, true, ""),
    ];

    let (jar, sapisid) = gecko_session_from_rows(rows, now).unwrap().unwrap();
    assert_eq!(sapisid, Some("token_sapisid".to_string()));

    let header_str = header_for(&jar, "https://music.youtube.com/").unwrap();
    assert!(header_str.contains("SAPISID=token_sapisid"));
    assert!(header_str.contains("SID=token_sid"));
}

#[test]
fn test_flags_secure_and_httponly_semantics() {
    let cookie_plain = gecko_row("test1", "val1", ".youtube.com", 0, false, false, "");
    let set_plain = cookie_to_set_cookie(
        &cookie_plain.name,
        &cookie_plain.value,
        &cookie_plain.host,
        &cookie_plain.path,
        cookie_plain.is_secure,
        cookie_plain.is_http_only,
    );
    assert!(!set_plain.contains("Secure"));
    assert!(!set_plain.contains("HttpOnly"));

    let cookie_flags = gecko_row("test2", "val2", ".youtube.com", 0, true, true, "");
    let set_flags = cookie_to_set_cookie(
        &cookie_flags.name,
        &cookie_flags.value,
        &cookie_flags.host,
        &cookie_flags.path,
        cookie_flags.is_secure,
        cookie_flags.is_http_only,
    );
    assert!(set_flags.contains("Secure"));
    assert!(set_flags.contains("HttpOnly"));
}

#[test]
fn test_anonymous_container_selection_deterministic() {
    let cookie_ctx2 = gecko_row("PREF", "ctx2_val", ".youtube.com", 0, false, false, "^userContextId=2");
    let cookie_ctx1 = gecko_row("PREF", "ctx1_val", ".youtube.com", 0, false, false, "^userContextId=1");

    let list1 = vec![cookie_ctx2.clone(), cookie_ctx1.clone()];
    let selected1 = select_gecko_container_cookies(list1).unwrap();
    assert_eq!(selected1.len(), 1);
    assert_eq!(selected1[0].origin_attributes, "^userContextId=1");

    let list2 = vec![cookie_ctx1, cookie_ctx2];
    let selected2 = select_gecko_container_cookies(list2).unwrap();
    assert_eq!(selected2.len(), 1);
    assert_eq!(selected2[0].origin_attributes, "^userContextId=1");
}

#[test]
fn test_gecko_candidate_selection_prefers_authenticated_over_anonymous() {
    let cookies_anon = vec![gecko_row("PREF", "anon_pref_val", ".youtube.com", 0, false, false, "")];
    let cookies_auth = vec![gecko_row("SAPISID", "auth_token_profile_b", ".youtube.com", 0, true, false, "")];

    let result = search(vec![cookies_anon, cookies_auth], now_secs());
    assert!(result.is_some(), "Must select a candidate");
    let (jar, sapisid) = result.unwrap();

    assert_eq!(
        sapisid,
        Some("auth_token_profile_b".to_string()),
        "Must prefer authenticated Profile B over anonymous Profile A"
    );

    let header_str = header_for(&jar, "https://music.youtube.com/").unwrap();
    assert!(header_str.contains("SAPISID=auth_token_profile_b"));
    assert!(
        !header_str.contains("anon_pref_val"),
        "Cookies from Profile A must not be merged into selected Profile B"
    );
}

#[test]
fn test_gecko_candidate_selection_falls_back_to_first_anonymous() {
    let cookies_anon1 = vec![gecko_row("VISITOR_INFO1_LIVE", "anon1_visitor", ".youtube.com", 0, false, false, "")];
    let cookies_anon2 = vec![gecko_row("PREF", "anon2_pref", ".youtube.com", 0, false, false, "")];

    let result = search(vec![cookies_anon1, cookies_anon2], now_secs());
    assert!(result.is_some());
    let (jar, sapisid) = result.unwrap();
    assert_eq!(sapisid, None);

    let header_str = header_for(&jar, "https://music.youtube.com/").unwrap();
    assert!(header_str.contains("anon1_visitor"), "First anonymous profile must be selected as fallback");
    assert!(!header_str.contains("anon2_pref"), "Must never merge anonymous profiles");
}

#[test]
fn test_gecko_candidate_selection_multiple_authenticated_prefers_first_deterministic() {
    let cookies_auth1 = vec![gecko_row("SAPISID", "token_first_profile", ".youtube.com", 0, true, false, "")];
    let cookies_auth2 = vec![gecko_row("SAPISID", "token_second_profile", ".youtube.com", 0, true, false, "")];

    let (jar, sapisid) = search(vec![cookies_auth1, cookies_auth2], now_secs()).unwrap();
    assert_eq!(sapisid, Some("token_first_profile".to_string()));

    let header_str = header_for(&jar, "https://music.youtube.com/").unwrap();
    assert!(header_str.contains("token_first_profile"));
    assert!(!header_str.contains("token_second_profile"));
}

#[test]
fn test_gecko_sapisid_coherence_rejects_non_applicable_domain() {
    let rows = vec![
        gecko_row("SAPISID", "wrong_studio_token", "studio.youtube.com", 0, true, false, ""),
        gecko_row("SAPISID", "correct_ytm_token", ".youtube.com", 0, true, false, ""),
    ];
    let (jar, sapisid) = gecko_session_from_rows(rows, now_secs()).unwrap().unwrap();
    assert_eq!(sapisid, Some("correct_ytm_token".to_string()));

    let header_str = header_for(&jar, "https://music.youtube.com/").expect("Cookies must be present");
    assert!(header_str.contains("SAPISID=correct_ytm_token"));
    assert!(!header_str.contains("wrong_studio_token"));
}

#[test]
fn domain_rule_ignores_ascii_case() {
    assert!(cookie_domain_applies_to_host(".YouTube.COM", "MUSIC.youtube.com"));
    assert!(cookie_domain_applies_to_host("Music.YouTube.com", "music.youtube.com"));
    assert!(!cookie_domain_applies_to_host(".", "music.youtube.com"));
}

#[test]
fn set_cookie_line_exact_text() {
    assert_eq!(
        cookie_to_set_cookie("SID", "v", ".youtube.com", "/x", true, true),
        "SID=v; Domain=.youtube.com; Path=/x; Secure; HttpOnly"
    );
    assert_eq!(cookie_to_set_cookie("A", "b", "youtube.com", "", false, false), "A=b; Path=/");
}

#[test]
fn sapisid_read_from_header() {
    assert_eq!(sapisid_from_cookie_header("PREF=a; SAPISID=xyz; SID=q"), Some("xyz".to_string()));
    assert_eq!(sapisid_from_cookie_header(" SAPISID = spaced ;x=y"), Some("spaced".to_string()));
    assert_eq!(sapisid_from_cookie_header("SAPISID=; SAPISID=second"), Some("second".to_string()));
    assert_eq!(sapisid_from_cookie_header("PREF=a; OTHER"), None);
    assert_eq!(sapisid_from_cookie_header(""), None);
}

#[test]
fn gecko_hosts_outside_query_are_dropped() {
    let now = 1_000;
    let rows = vec![
        gecko_row("A", "1", ".youtube.com", 0, false, false, ""),
        gecko_row("B", "2", "example.com", 0, false, false, ""),
        gecko_row("C", "3", "music.youtube.com", 2_000, false, false, ""),
        gecko_row("D", "4", "music.youtube.com", 500, false, false, ""),
        gecko_row("E", "5", "www.youtube.com", 0, false, false, ""),
    ];
    let kept: Vec<String> = filter_gecko_cookies(rows, now).into_iter().map(|c| c.name).collect();
    assert_eq!(kept, vec!["A".to_string(), "C".to_string()]);
}

#[test]
fn container_with_session_wins_over_default() {
    let rows = vec![
        gecko_row("PREF", "default_pref", ".youtube.com", 0, false, false, ""),
        gecko_row("SAPISID", "in_container", ".youtube.com", 0, true, false, "^userContextId=3"),
    ];
    let chosen = select_gecko_container_cookies(rows).unwrap();
    assert_eq!(chosen.len(), 1);
    assert_eq!(chosen[0].value, "in_container");
    assert!(select_gecko_container_cookies(Vec::new()).unwrap().is_empty());
}

#[test]
fn default_container_preferred_when_anonymous() {
    let rows = vec![
        gecko_row("PREF", "ctx", ".youtube.com", 0, false, false, "^userContextId=1"),
        gecko_row("PREF", "default", ".youtube.com", 0, false, false, ""),
    ];
    let chosen = select_gecko_container_cookies(rows).unwrap();
    assert_eq!(chosen.len(), 1);
    assert_eq!(chosen[0].value, "default");
}

#[test]
fn candidate_search_steps() {
    let mut first = None;
    let anon = (CookieJar::new(), None);
    assert!(select_authenticated_candidate(anon, &mut first).is_none());
    assert!(first.is_some());
    let anon2 = (CookieJar::new(), None);
    assert!(select_authenticated_candidate(anon2, &mut first).is_none());
    let authed = (CookieJar::new(), Some("t".to_string()));
    let chosen = select_authenticated_candidate(authed, &mut first).unwrap();
    assert_eq!(chosen.1, Some("t".to_string()));
    assert!(first.unwrap().1.is_none());
}

#[test]
fn no_candidates_give_empty_session() {
    let (jar, sapisid) = select_cross_family_session(None, None);
    assert_eq!(sapisid, None);
    assert!(header_for(&jar, "https://music.youtube.com/").is_none());
}

#[test]
fn chromium_session_of_nothing_is_none() {
    let raw = vec![make_test_cookie("X", "y", ".example.com", "/", false, false, None)];
    assert!(chromium_session_from_cookies(raw, 0).unwrap().is_none());
    let raw = vec![make_test_cookie("SAPISID", "s", ".youtube.com", "/", true, false, None)];
    let (_, sapisid) = chromium_session_from_cookies(raw, 0).unwrap().unwrap();
    assert_eq!(sapisid, Some("s".to_string()));
}

#[test]
fn jar_records_only_urls_that_parse() {
    let mut jar = CookieJar::new();
    assert!(jar.add_cookie_str("A=b; Path=/", "not a url").is_err());
    assert!(jar.cookie_header("https://music.youtube.com/").is_none());
    assert!(jar.cookie_header("not a url").is_none());
    jar.add_cookie_str("A=b; Path=/", "https://music.youtube.com/").unwrap();
    assert_eq!(jar.cookie_header("https://music.youtube.com/"), Some("A=b".to_string()));
}

#[test]
fn cookie_origin_texts() {
    assert_eq!(origin_text_for_cookie(".youtube.com"), "https://youtube.com/");
    assert_eq!(origin_text_for_cookie("music.youtube.com"), "https://music.youtube.com/");
    assert_eq!(origin_text_for_cookie("..."), ytm_domain_text());
    assert_eq!(origin_text_for_cookie(""), ytm_domain_text());
    assert_eq!(origin_text_for_cookie("bad host"), ytm_domain_text());
}

#[test]
fn domain_matching_ignores_case_and_widens_with_a_dot() {
    for (d, h) in [
        ("Music.YouTube.com", "music.youtube.COM"),
        (".YOUTUBE.com", "MUSIC.youtube.com"),
        ("youtube.com", "music.youtube.com"),
        ("studio.youtube.com", "music.youtube.com"),
    ] {
        assert_eq!(
            cookie_domain_applies_to_host(d, h),
            cookie_domain_applies_to_host(&d.to_ascii_lowercase(), &h.to_ascii_lowercase())
        );
        if !d.starts_with('.') && cookie_domain_applies_to_host(d, h) {
            assert!(cookie_domain_applies_to_host(&format!(".{d}"), h));
        }
    }
    assert!(cookie_domain_applies_to_host("Music.YouTube.com", "music.youtube.COM"));
    assert!(!cookie_domain_applies_to_host("youtube.com", "music.youtube.com"));
    assert!(cookie_domain_applies_to_host(".youtube.com", "music.youtube.com"));
}

#[test]
fn cookies_without_a_sapisid_name_give_no_sapisid() {
    let rows = vec![
        gecko_row("PREF", "ctx2_val", ".youtube.com", 0, false, false, "^userContextId=2"),
        gecko_row("PREF", "ctx1_val", ".youtube.com", 0, false, false, "^userContextId=1"),
    ];
    let (_, sapisid) = build_jar_from_gecko_cookies(&rows).unwrap();
    assert_eq!(sapisid, None);
    let chosen = select_gecko_container_cookies(rows).unwrap();
    assert_eq!(chosen.len(), 1);
    assert_eq!(chosen[0].origin_attributes, "^userContextId=1");
}

#[test]
fn sapisid_is_the_value_of_the_sapisid_cookie() {
    let cookies = vec![
        make_test_cookie("__Secure-3PAPISID", "other_value", ".youtube.com", "/", true, false, None),
        make_test_cookie("SAPISID", "the_value", ".youtube.com", "/", true, false, None),
        make_test_cookie("APISID", "third", ".youtube.com", "/", false, false, None),
    ];
    let (_, sapisid) = build_jar_from_chromium_cookies(&cookies).unwrap();
    assert_eq!(sapisid, Some("the_value".to_string()));
}
