use gytm::chromium::find_brave_origin_cookie_databases_with_root;
use gytm::gecko::{
    find_gecko_cookie_databases_in_base, find_gecko_cookie_databases_with_roots, gecko_all_roots,
    gecko_probe_paths, gecko_profile_roots, parse_profiles_ini, GeckoBrowser,
};
use gytm::cookies::BrowserCookie;
use gytm::listing::{DirListing, FsSnapshot, TextFile};
use gytm::session::{chromium_session_from_cookies, select_authenticated_candidate, CookieJar, Session};
use gytm::paths::{join_path, path_components, push_unique, sort_names};
use std::path::PathBuf;

fn p(base: &str, rel: &str) -> String {
    PathBuf::from(base).join(rel).to_string_lossy().into_owned()
}

fn snapshot(files: &[String], dirs: &[(String, Vec<&str>)], texts: &[(String, &str)]) -> FsSnapshot {
    FsSnapshot {
        files: files.to_vec(),
        dirs: dirs
            .iter()
            .map(|(d, subs)| DirListing {
                dir: d.clone(),
                sub_dirs: subs.iter().map(|s| s.to_string()).collect(),
            })
            .collect(),
        texts: texts
            .iter()
            .map(|(path, text)| TextFile { path: path.clone(), text: text.to_string() })
            .collect(),
    }
}

#[test]
fn test_profiles_ini_install_default_selection() {
    let base = "/tmp/gytm_test_ini_install/base";
    let ini_content = r#"
[General]
StartWithLastProfile=1

[Profile0]
Name=other-profile
IsRelative=1
Path=Profiles/other.default

[InstallABC123]
Default=Profiles/target.default
Locked=1
"#;
    let profiles = parse_profiles_ini(ini_content, base);
    assert_eq!(profiles.len(), 2);
    assert_eq!(profiles[0], p(base, "Profiles/target.default"));
    assert_eq!(profiles[1], p(base, "Profiles/other.default"));
}

#[test]
fn test_profiles_ini_profile_default_selection() {
    let base = "/tmp/gytm_test_ini_prof_def/base";
    let ini_content = r#"
[General]
StartWithLastProfile=1

[Profile0]
Name=p0
IsRelative=1
Path=Profiles/p0

[Profile1]
Name=p1
IsRelative=1
Path=Profiles/p1
Default=1

[Profile2]
Name=p2
IsRelative=1
Path=Profiles/p2
"#;
    let profiles = parse_profiles_ini(ini_content, base);
    assert_eq!(profiles[0], p(base, "Profiles/p1"));
}

#[test]
fn test_profiles_ini_relative_and_absolute_paths() {
    let base = "/tmp/gytm_test_ini_paths/base";
    let ini_content = r#"
[Profile0]
Name=p_rel
IsRelative=1
Path=relative_path
Default=1

[Profile1]
Name=p_abs
IsRelative=0
Path=/custom/abs/path
"#;
    let profiles = parse_profiles_ini(ini_content, base);
    assert_eq!(profiles[0], p(base, "relative_path"));
    assert_eq!(profiles[1], "/custom/abs/path".to_string());
}

#[test]
fn test_deterministic_profile_discovery_fallback() {
    let temp_dir = "/tmp/gytm_test_fallback";
    let dir_z = p(temp_dir, "z_profile");
    let dir_a = p(temp_dir, "a_profile");
    let dir_m = p(temp_dir, "m_profile");
    let fs = snapshot(
        &[p(&dir_z, "cookies.sqlite"), p(&dir_a, "cookies.sqlite"), p(&dir_m, "cookies.sqlite")],
        &[(temp_dir.to_string(), vec!["z_profile", "a_profile", "m_profile"])],
        &[],
    );

    let candidates = find_gecko_cookie_databases_in_base(temp_dir, &fs);

    assert_eq!(candidates.len(), 3);
    assert_eq!(candidates[0], p(&dir_a, "cookies.sqlite"));
    assert_eq!(candidates[1], p(&dir_m, "cookies.sqlite"));
    assert_eq!(candidates[2], p(&dir_z, "cookies.sqlite"));
}

#[test]
fn test_profiles_ini_valid_candidates_excludes_unregistered_directories() {
    let temp_dir = "/tmp/gytm_test_registered_exclusive";
    let active_dir = p(temp_dir, "active.default");
    let stale_dir = p(temp_dir, "stale.default");
    let ini_content = "\n[Profile0]\nName=active\nIsRelative=1\nPath=active.default\nDefault=1\n";
    let fs = snapshot(
        &[p(&active_dir, "cookies.sqlite"), p(&stale_dir, "cookies.sqlite"), p(temp_dir, "profiles.ini")],
        &[(temp_dir.to_string(), vec!["active.default", "stale.default"])],
        &[(p(temp_dir, "profiles.ini"), ini_content)],
    );

    let candidates = find_gecko_cookie_databases_in_base(temp_dir, &fs);
    assert_eq!(candidates.len(), 1);
    assert_eq!(candidates[0], p(&active_dir, "cookies.sqlite"));
    assert!(
        !candidates.contains(&p(&stale_dir, "cookies.sqlite")),
        "Stale unregistered directory must not be included when profiles.ini has valid candidates"
    );
}

#[test]
fn test_firefox_xdg_discovery() {
    let config_dir = "/tmp/gytm_test_firefox_xdg/config";
    let root = p(config_dir, "mozilla/firefox");
    let db_path = p(config_dir, "mozilla/firefox/abcd1234.default-release/cookies.sqlite");
    let ini_content = "[Profile0]\nName=default-release\nIsRelative=1\nPath=abcd1234.default-release\nDefault=1\n";
    let fs = snapshot(
        &[db_path.clone(), p(&root, "profiles.ini")],
        &[(root.clone(), vec!["abcd1234.default-release"])],
        &[(p(&root, "profiles.ini"), ini_content)],
    );

    let discovered = find_gecko_cookie_databases_with_roots(Some(config_dir), None, &fs);
    assert_eq!(discovered, vec![db_path.clone()]);
}

#[test]
fn test_firefox_legacy_discovery() {
    let home_dir = "/tmp/gytm_test_firefox_legacy/home";
    let root = p(home_dir, ".mozilla/firefox");
    let db_path = p(home_dir, ".mozilla/firefox/efgh5678.default/cookies.sqlite");
    let ini_content = "[Profile0]\nName=default\nIsRelative=1\nPath=efgh5678.default\nDefault=1\n";
    let fs = snapshot(
        &[db_path.clone(), p(&root, "profiles.ini")],
        &[(root.clone(), vec!["efgh5678.default"])],
        &[(p(&root, "profiles.ini"), ini_content)],
    );

    let discovered = find_gecko_cookie_databases_with_roots(None, Some(home_dir), &fs);
    assert_eq!(discovered, vec![db_path.clone()]);
}

#[test]
fn test_librewolf_xdg_discovery() {
    let config_dir = "/tmp/gytm_test_librewolf_xdg/config";
    let root = p(config_dir, "librewolf");
    let db_path = p(config_dir, "librewolf/profile.default/cookies.sqlite");
    let fs = snapshot(&[db_path.clone()], &[(root, vec!["profile.default"])], &[]);

    let discovered = find_gecko_cookie_databases_with_roots(Some(config_dir), None, &fs);
    assert!(discovered.contains(&db_path));
}

#[test]
fn test_zen_browser_xdg_discovery() {
    let config_dir = "/tmp/gytm_test_zen_xdg/config";
    let root = p(config_dir, "zen");
    let db_path = p(config_dir, "zen/default-zen/cookies.sqlite");
    let fs = snapshot(&[db_path.clone()], &[(root, vec!["default-zen"])], &[]);

    let discovered = find_gecko_cookie_databases_with_roots(Some(config_dir), None, &fs);
    assert!(discovered.contains(&db_path));
}

#[test]
fn test_gecko_profile_roots_cover_supported_linux_layouts() {
    let config_dir = "/tmp/gytm-test-config";
    let home_dir = "/tmp/gytm-test-home";

    assert_eq!(
        gecko_profile_roots(GeckoBrowser::Firefox, Some(config_dir), Some(home_dir)),
        vec![
            p(config_dir, "mozilla/firefox"),
            p(home_dir, ".mozilla/firefox"),
            p(home_dir, "snap/firefox/common/.mozilla/firefox"),
            p(home_dir, ".var/app/org.mozilla.firefox/.mozilla/firefox"),
            p(home_dir, ".var/app/org.mozilla.firefox/config/mozilla/firefox"),
        ]
    );
    assert_eq!(
        gecko_profile_roots(GeckoBrowser::LibreWolf, Some(config_dir), Some(home_dir)),
        vec![
            p(config_dir, "librewolf"),
            p(config_dir, "librewolf/librewolf"),
            p(home_dir, ".librewolf"),
            p(home_dir, "snap/librewolf/common/.librewolf"),
            p(home_dir, ".var/app/io.gitlab.librewolf-community/.librewolf"),
        ]
    );
    assert_eq!(
        gecko_profile_roots(GeckoBrowser::Zen, Some(config_dir), Some(home_dir)),
        vec![
            p(config_dir, "zen"),
            p(config_dir, "zen/zen"),
            p(home_dir, ".zen"),
            p(home_dir, ".var/app/app.zen_browser.zen/zen"),
            p(home_dir, ".var/app/app.zen_browser.zen/.zen"),
            p(home_dir, ".var/app/app.zen_browser.zen/config/zen"),
            p(home_dir, ".var/app/io.github.zen_browser.zen/.zen"),
        ]
    );
    assert_eq!(
        gecko_profile_roots(GeckoBrowser::Cachy, Some(config_dir), Some(home_dir)),
        vec![p(home_dir, ".cachy")]
    );
}

#[test]
fn test_gecko_browser_precedence_and_duplicate_database_handling() {
    let temp_root = "/tmp/gytm_test_gecko_precedence";
    let config_dir = p(temp_root, "config");
    let home_dir = p(temp_root, "home");

    let browsers = [
        (GeckoBrowser::LibreWolf, "librewolf"),
        (GeckoBrowser::Zen, "zen"),
        (GeckoBrowser::Firefox, "mozilla/firefox"),
    ];
    let mut expected = Vec::new();
    let mut files = Vec::new();
    let mut dirs = Vec::new();
    let mut texts = Vec::new();
    for (browser, relative_root) in browsers {
        let root = p(&config_dir, relative_root);
        let db_path = p(&root, "profile.default/cookies.sqlite");
        files.push(db_path.clone());
        files.push(p(&root, "profiles.ini"));
        dirs.push((root.clone(), vec!["profile.default"]));
        texts.push((p(&root, "profiles.ini"), "[Profile0]\nIsRelative=1\nPath=profile.default\nDefault=1\n"));
        expected.push(db_path);
        assert!(gecko_profile_roots(browser, Some(&config_dir), Some(&home_dir)).contains(&root));
    }
    let fs = snapshot(&files, &dirs, &texts);

    let discovered = find_gecko_cookie_databases_with_roots(Some(&config_dir), Some(&home_dir), &fs);
    assert_eq!(discovered, expected);

    let shared_profile = p(temp_root, "shared.default");
    let shared_db = p(&shared_profile, "cookies.sqlite");
    let duplicate_config_dir = p(temp_root, "duplicate-config");
    let ini = format!("[Profile0]\nIsRelative=0\nPath={}\nDefault=1\n", shared_profile);
    let roots = [p(&duplicate_config_dir, "librewolf"), p(&duplicate_config_dir, "mozilla/firefox")];
    let fs = FsSnapshot {
        files: vec![shared_db.clone(), p(&roots[0], "profiles.ini"), p(&roots[1], "profiles.ini")],
        dirs: Vec::new(),
        texts: roots
            .iter()
            .map(|r| TextFile { path: p(r, "profiles.ini"), text: ini.clone() })
            .collect(),
    };
    assert_eq!(
        find_gecko_cookie_databases_with_roots(Some(&duplicate_config_dir), None, &fs),
        vec![shared_db]
    );
}

#[test]
fn test_brave_origin_discovery_and_isolated_candidate() {
    let config_dir = "/tmp/gytm_test_brave_origin/config";
    let base = p(config_dir, "BraveSoftware/Brave-Origin");
    let db_path = p(config_dir, "BraveSoftware/Brave-Origin/Default/Network/Cookies");
    let fs = snapshot(&[db_path.clone()], &[(base, vec!["Default"])], &[]);

    let discovered = find_brave_origin_cookie_databases_with_root(Some(config_dir), &fs);
    assert_eq!(discovered, vec![db_path.clone()]);
}

#[test]
fn brave_origin_prefers_network_database_and_lists_direct_ones_last() {
    let config_dir = "/cfg";
    let base = p(config_dir, "BraveSoftware/Brave-Origin");
    let fs = snapshot(
        &[
            p(&base, "Profile 1/Cookies"),
            p(&base, "Default/Network/Cookies"),
            p(&base, "Default/Cookies"),
            p(&base, "cookies.sqlite"),
        ],
        &[(base.clone(), vec!["Profile 1", "Default", "Empty"])],
        &[],
    );
    assert_eq!(
        find_brave_origin_cookie_databases_with_root(Some(config_dir), &fs),
        vec![p(&base, "Default/Network/Cookies"), p(&base, "Profile 1/Cookies"), p(&base, "cookies.sqlite")]
    );
    assert!(find_brave_origin_cookie_databases_with_root(None, &fs).is_empty());
}

#[test]
fn profile_roots_without_directories() {
    assert!(gecko_profile_roots(GeckoBrowser::Firefox, None, None).is_empty());
    assert_eq!(gecko_profile_roots(GeckoBrowser::Cachy, Some("/c"), None), Vec::<String>::new());
    assert_eq!(gecko_profile_roots(GeckoBrowser::Zen, Some("/c/"), None), vec!["/c/zen".to_string(), "/c/zen/zen".to_string()]);
}

#[test]
fn profile_roots_are_config_roots_then_home_roots() {
    for b in [GeckoBrowser::LibreWolf, GeckoBrowser::Zen, GeckoBrowser::Firefox, GeckoBrowser::Cachy] {
        let both = gecko_profile_roots(b, Some("/c"), Some("/h"));
        let mut parts = gecko_profile_roots(b, Some("/c"), None);
        for r in gecko_profile_roots(b, None, Some("/h")) {
            push_unique(&mut parts, r);
        }
        assert_eq!(both, parts);
    }
    assert_eq!(gecko_profile_roots(GeckoBrowser::Cachy, Some("/c"), Some("/h")), vec!["/h/.cachy".to_string()]);
    // the configuration directory inside the home directory: a shared root counts once
    let shared = gecko_profile_roots(GeckoBrowser::Firefox, Some("/h/.var/app/org.mozilla.firefox/config/"), Some("/h"));
    assert_eq!(shared.len(), 4);
    assert_eq!(shared[0], "/h/.var/app/org.mozilla.firefox/config/mozilla/firefox");
}

#[test]
fn all_roots_in_browser_order() {
    let roots = gecko_all_roots(Some("/c"), Some("/h"));
    assert_eq!(roots.len(), 5 + 7 + 5 + 1);
    assert_eq!(roots[0], "/c/librewolf");
    assert_eq!(roots[5], "/c/zen");
    assert_eq!(roots[12], "/c/mozilla/firefox");
    assert_eq!(roots[17], "/h/.cachy");
}

#[test]
fn probes_cover_registered_and_fallback_candidates() {
    let fs = snapshot(&[], &[("/h/.cachy".to_string(), vec!["x"])], &[]);
    let probes = gecko_probe_paths(None, Some("/h"), &fs);
    assert!(probes.contains(&"/h/.cachy/x/cookies.sqlite".to_string()));
    assert!(probes.contains(&"/h/.cachy/cookies.sqlite".to_string()));
}

#[test]
fn profiles_ini_drops_repeated_and_pathless_profiles() {
    let ini = "[Profile0]\nPath=a\n[Profile1]\nName=nopath\n[Profile2]\nPath=a\nDefault=1\n[Install1]\nDefault=/abs\n";
    assert_eq!(parse_profiles_ini(ini, "/b"), vec!["/abs".to_string(), "/b/a".to_string()]);
    assert!(parse_profiles_ini("", "/b").is_empty());
    let crlf = "[Profile0]\r\nPath=win\r\n";
    assert_eq!(parse_profiles_ini(crlf, "/b"), vec!["/b/win".to_string()]);
}

#[test]
fn join_follows_unix_rules() {
    assert_eq!(join_path("/a", "b"), "/a/b");
    assert_eq!(join_path("/a/", "b"), "/a/b");
    assert_eq!(join_path("/a", "/b"), "/b");
    assert_eq!(join_path("", "b"), "b");
}

#[test]
fn push_unique_keeps_first() {
    let mut v = vec!["x".to_string()];
    push_unique(&mut v, "y".to_string());
    push_unique(&mut v, "x".to_string());
    push_unique(&mut v, "y".to_string());
    assert_eq!(v, vec!["x".to_string(), "y".to_string()]);
}

#[test]
fn push_unique_compares_paths_not_texts() {
    let mut v = vec!["/base/p".to_string()];
    push_unique(&mut v, "/base/p/".to_string());
    push_unique(&mut v, "/base//p".to_string());
    push_unique(&mut v, "/base/./p".to_string());
    push_unique(&mut v, "/base/q".to_string());
    assert_eq!(v, vec!["/base/p".to_string(), "/base/q".to_string()]);
    for (a, b) in [("/base/p", "/base/p/"), ("/data//prof", "/data/prof"), ("./x", "./x/."), ("a/b", "a//b/")] {
        assert_eq!(PathBuf::from(a), PathBuf::from(b));
        let ca: Vec<char> = a.chars().collect();
        let cb: Vec<char> = b.chars().collect();
        assert_eq!(path_components(&ca), path_components(&cb));
    }
    for (a, b) in [("/x", "x"), ("./x", "x"), ("a/..", "a"), ("ab", "a/b")] {
        assert_ne!(PathBuf::from(a), PathBuf::from(b));
        let ca: Vec<char> = a.chars().collect();
        let cb: Vec<char> = b.chars().collect();
        assert_ne!(path_components(&ca), path_components(&cb));
    }
}

#[test]
fn profiles_ini_same_profile_in_two_spellings_counts_once() {
    let ini = "[Profile0]\nPath=p\n[Profile1]\nPath=p/\n[Profile2]\nIsRelative=0\nPath=/data/prof\n[Profile3]\nIsRelative=0\nPath=/data//prof\n";
    assert_eq!(parse_profiles_ini(ini, "/base"), vec!["/base/p".to_string(), "/data/prof".to_string()]);
}

#[test]
fn registered_database_in_two_spellings_counts_once() {
    let base = "/r";
    let ini = "[Profile0]\nIsRelative=0\nPath=/data/prof\n[Profile1]\nIsRelative=0\nPath=/data//prof\n";
    let fs = snapshot(
        &["/data/prof/cookies.sqlite".to_string(), "/data//prof/cookies.sqlite".to_string()],
        &[],
        &[("/r/profiles.ini".to_string(), ini)],
    );
    assert_eq!(find_gecko_cookie_databases_in_base(base, &fs), vec!["/data/prof/cookies.sqlite".to_string()]);
}

#[test]
fn names_sorted_by_characters() {
    let v = sort_names(vec!["b".to_string(), "B".to_string(), "a".to_string(), "ab".to_string(), "a".to_string()]);
    assert_eq!(v, vec!["B", "a", "a", "ab", "b"]);
}

#[test]
fn snapshot_queries() {
    let fs = snapshot(&["/f".to_string()], &[("/d".to_string(), vec!["s"])], &[("/t".to_string(), "text")]);
    assert!(fs.is_file("/f"));
    assert!(!fs.is_file("/g"));
    assert_eq!(fs.sub_dirs("/d"), vec!["s".to_string()]);
    assert!(fs.sub_dirs("/e").is_empty());
    assert_eq!(fs.text("/t"), Some("text".to_string()));
    assert_eq!(fs.text("/u"), None);
}

/// A Chromium cookie row as the cookie reader hands it over: expiry in Unix
/// seconds, none for a session cookie.
fn chromium_row(host: &str, name: &str, value: &str, expires: Option<u64>, secure: bool) -> BrowserCookie {
    BrowserCookie {
        domain: host.to_string(),
        path: "/".to_string(),
        secure,
        expires,
        name: name.to_string(),
        value: value.to_string(),
        http_only: false,
        same_site: 0,
    }
}

fn now_secs() -> i64 {
    std::time::SystemTime::now().duration_since(std::time::UNIX_EPOCH).unwrap().as_secs() as i64
}

fn ytm_header(jar: &CookieJar) -> String {
    jar.cookie_header("https://music.youtube.com/").unwrap()
}

/// Offers the cookies of each browser in turn, as the Chromium search does.
fn chromium_search(browsers: Vec<Vec<BrowserCookie>>) -> Option<Session> {
    let mut first_anonymous = None;
    for raw in browsers {
        if let Some(candidate) = chromium_session_from_cookies(raw, now_secs()).unwrap() {
            if let Some(chosen) = select_authenticated_candidate(candidate, &mut first_anonymous) {
                return Some(chosen);
            }
        }
    }
    first_anonymous
}

#[test]
fn test_brave_origin_expiry_and_domain_filtering() {
    let config_dir = "/tmp/gytm_test_brave_origin_filtering/config";
    let base = p(config_dir, "BraveSoftware/Brave-Origin");
    let db_path = p(config_dir, "BraveSoftware/Brave-Origin/Profile 1/Cookies");
    let fs = snapshot(&[db_path.clone()], &[(base, vec!["Profile 1"])], &[]);
    assert_eq!(find_brave_origin_cookie_databases_with_root(Some(config_dir), &fs), vec![db_path]);

    let year_2040: u64 = 2208988800;
    let year_2020: u64 = 1577836800;
    let rows = vec![
        chromium_row(".youtube.com", "SAPISID", "valid_session_sapisid", None, true),
        chromium_row("music.youtube.com", "PREF", "valid_future_pref", Some(year_2040), false),
        chromium_row("music.youtube.com", "EXPIRED_COOKIE", "expired_value", Some(year_2020), false),
        chromium_row(".example.com", "FOREIGN_COOKIE", "foreign_value", None, false),
    ];
    let candidate = chromium_session_from_cookies(rows, now_secs()).unwrap();
    assert!(candidate.is_some());
    let (jar, sapisid) = candidate.unwrap();
    assert_eq!(sapisid, Some("valid_session_sapisid".to_string()));

    let header_str = ytm_header(&jar);
    assert!(header_str.contains("SAPISID=valid_session_sapisid"));
    assert!(header_str.contains("PREF=valid_future_pref"));
    assert!(!header_str.contains("EXPIRED_COOKIE"));
    assert!(!header_str.contains("FOREIGN_COOKIE"));
}

#[test]
fn test_brave_origin_expired_sapisid_rejected() {
    let year_2020: u64 = 1577836800;
    let rows = vec![
        chromium_row(".youtube.com", "SAPISID", "expired_sapisid_token", Some(year_2020), true),
        chromium_row("music.youtube.com", "PREF", "anon_pref_token", None, false),
    ];
    let candidate = chromium_session_from_cookies(rows, now_secs()).unwrap();
    assert!(candidate.is_some());
    let (jar, sapisid) = candidate.unwrap();
    assert_eq!(sapisid, None);

    let header_str = ytm_header(&jar);
    assert!(!header_str.contains("SAPISID"));
    assert!(header_str.contains("PREF=anon_pref_token"));
}

#[test]
fn test_brave_origin_candidate_precedence_matrix() {
    let brave_origin = vec![chromium_row(".youtube.com", "SAPISID", "brave_origin_auth_token", None, true)];
    let authed_normal = vec![chromium_row(".youtube.com", "SAPISID", "normal_loader_auth_token", None, true)];
    let anon_normal = vec![chromium_row("music.youtube.com", "PREF", "normal_loader_anon_token", None, false)];

    let (jar, sapisid) = chromium_search(vec![authed_normal, brave_origin.clone()]).unwrap();
    assert_eq!(sapisid, Some("normal_loader_auth_token".to_string()));
    assert!(ytm_header(&jar).contains("normal_loader_auth_token"));

    let (jar, sapisid) = chromium_search(vec![anon_normal, brave_origin]).unwrap();
    assert_eq!(sapisid, Some("brave_origin_auth_token".to_string()));
    assert!(ytm_header(&jar).contains("brave_origin_auth_token"));
}
