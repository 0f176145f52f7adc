use gytm::bus::{
    mark_custom_playlists, merge_top_songs, related_playlist_id, with_seed_song, LibraryPages, Playlist, Song,
    YTBus,
};
use gytm::dao::{
    create_playlist_description, create_playlist_privacy, edit_playlist_outcome, endpoint,
    extract_between, failure_label, sapi_hash, search_params, status_outcome, u64_decimal,
    ApiRequest, PlayListPrivacy, YTDao,
};
use gytm::error::YError;
use gytm::snapshot::{
    attempt_dir_name, failure_message, quick_check_passed, source_missing_error, temp_dir_error,
    temp_dir_name, temp_dir_tries, AttemptFailure, SnapshotAttempts,
};
use gytm::session::CookieJar;

fn song(id: &str) -> Song {
    Song { video_id: id.to_string(), set_video_id: format!("set-{id}"), title: format!("T{id}") }
}

fn playlist(id: &str, custom: bool) -> Playlist {
    Playlist { playlist_id: id.to_string(), title: format!("P{id}"), is_custom: custom, is_saved: false }
}

fn dao(sapisid: Option<&str>, page: &str) -> Result<YTDao, YError> {
    let http = YTDao::http_client_for(CookieJar::new()).unwrap();
    YTDao::from_bootstrap_page(http, sapisid.map(|s| s.to_string()), page)
}

const PAGE: &str = r#"x "INNERTUBE_API_KEY":"KEY123","INNERTUBE_CLIENT_VERSION":"1.2024","LOGGED_IN":true y"#;

#[test]
fn client_presents_the_browser_user_agent() {
    let client = YTDao::http_client_for(CookieJar::new()).unwrap();
    assert_eq!(
        client.agent_text(),
        "Mozilla/5.0 (X11; Linux x86_64) AppleWebKit/537.36 (KHTML, like Gecko) Chrome/120.0.0.0 Safari/537.36"
    );
}

#[test]
fn extract_between_finds_first_markers() {
    assert_eq!(extract_between("a[b]c[d]", "[", "]"), Some("b".to_string()));
    assert_eq!(extract_between("a[b", "[", "]"), None);
    assert_eq!(extract_between("abc", "x", "c"), None);
    assert_eq!(extract_between("k=\"\"", "k=\"", "\""), Some(String::new()));
}

#[test]
fn bootstrap_reads_key_version_and_login() {
    let d = dao(Some("sap"), PAGE).unwrap();
    assert_eq!(d.innertube_api_key, "KEY123");
    assert_eq!(d.client_version, "1.2024");
    assert_eq!(d.sapisid, Some("sap".to_string()));
    assert!(d.is_authenticated());
}

#[test]
fn bootstrap_without_login_marker_is_anonymous() {
    let page = r#""INNERTUBE_API_KEY":"K","INNERTUBE_CLIENT_VERSION":"V","LOGGED_IN":false"#;
    let d = dao(None, page).unwrap();
    assert_eq!(d.sapisid, None);
    assert!(!d.is_authenticated());
    let marked = dao(None, PAGE).unwrap();
    assert_eq!(marked.sapisid, None);
}

#[test]
fn bootstrap_sapisid_without_login_marker_is_invalid_cookie() {
    let page = r#""INNERTUBE_API_KEY":"K","INNERTUBE_CLIENT_VERSION":"V","LOGGED_IN":false"#;
    match dao(Some("sap"), page) {
        Err(YError::InvalidCookie) => {}
        other => panic!("unexpected {:?}", other.map(|d| d.innertube_api_key)),
    }
}

#[test]
fn bootstrap_errors() {
    match dao(Some("sap"), "nothing") {
        Err(YError::InvalidCookie) => {}
        other => panic!("unexpected {:?}", other.map(|d| d.innertube_api_key)),
    }
    match dao(None, "nothing") {
        Err(YError::InvalidResponse(m)) => {
            assert_eq!(m, "YouTube Music bootstrap data (INNERTUBE_API_KEY)")
        }
        other => panic!("unexpected {:?}", other.map(|d| d.innertube_api_key)),
    }
    match dao(None, r#""INNERTUBE_API_KEY":"K""#) {
        Err(YError::InvalidResponse(m)) => {
            assert_eq!(m, "YouTube Music bootstrap data (INNERTUBE_CLIENT_VERSION)")
        }
        other => panic!("unexpected {:?}", other.map(|d| d.innertube_api_key)),
    }
}

#[test]
fn api_url_carries_key() {
    let d = dao(None, PAGE).unwrap();
    assert_eq!(
        d.api_url(endpoint(ApiRequest::LibraryLists)),
        "https://music.youtube.com/youtubei/v1/browse?key=KEY123&alt=json"
    );
    assert_eq!(endpoint(ApiRequest::CreatePlaylist), "playlist/create");
    assert_eq!(endpoint(ApiRequest::UnsaveFromPlaylist), "browse/edit_playlist");
}

#[test]
fn api_headers_with_and_without_login() {
    let anon = dao(None, PAGE).unwrap();
    let h = anon.get_api_headers();
    assert_eq!(h.get("content-type").unwrap(), "application/json");
    assert_eq!(h.get("origin").unwrap(), "https://music.youtube.com");
    assert_eq!(h.get("x-goog-authuser").unwrap(), "0");
    assert!(h.get("authorization").is_none());
    assert_eq!(h.len(), 3);

    let authed = dao(Some("abc"), PAGE).unwrap();
    let h = authed.get_api_headers();
    let auth = h.get("authorization").unwrap().to_str().unwrap().to_string();
    let token = auth.strip_prefix("SAPISIDHASH ").unwrap();
    let (stamp, digest) = token.split_once('_').unwrap();
    assert!(stamp.chars().all(|c| c.is_ascii_digit()));
    assert_eq!(digest.len(), 40);
    assert_eq!(token, sapi_hash(stamp.parse().unwrap(), "abc"));
}

#[test]
fn sapi_hash_exact() {
    assert_eq!(sapi_hash(1700000000, "abc"), "1700000000_2f3ec011e870f3fbd0238c090c2062c208cead32");
    assert_eq!(sapi_hash(0, "x"), "0_e4bb4047c3f4f9151ef882945b8811767e6c4c54");
}

#[test]
fn decimal_text() {
    assert_eq!(u64_decimal(0).into_iter().collect::<String>(), "0");
    assert_eq!(u64_decimal(1203).into_iter().collect::<String>(), "1203");
    assert_eq!(u64_decimal(u64::MAX).into_iter().collect::<String>(), u64::MAX.to_string());
}

#[test]
fn request_outcomes() {
    assert!(status_outcome(true, "Like Song").is_ok());
    match status_outcome(false, "Like Song") {
        Err(YError::BadStatus(m)) => assert_eq!(m, "Like Song"),
        other => panic!("unexpected {other:?}"),
    }
    assert!(edit_playlist_outcome(true, Some("..STATUS_SUCCEEDED.."), "Save song to playlist").is_ok());
    assert!(matches!(
        edit_playlist_outcome(true, Some("{}"), "Save song to playlist"),
        Err(YError::AlreadyInPlaylist)
    ));
    match edit_playlist_outcome(false, None, "Save song to playlist") {
        Err(YError::BadStatus(m)) => assert_eq!(m, "Save song to playlist"),
        other => panic!("unexpected {other:?}"),
    }
    assert_eq!(failure_label(ApiRequest::SaveAlbum), Some("Unsave custom playlist"));
    assert_eq!(failure_label(ApiRequest::Search), None);
}

#[test]
fn playlist_creation_fields() {
    assert_eq!(create_playlist_privacy(PlayListPrivacy::Private), None);
    assert_eq!(create_playlist_privacy(PlayListPrivacy::Public), Some(PlayListPrivacy::Public));
    assert_eq!(create_playlist_description(""), None);
    assert_eq!(create_playlist_description("d"), Some("d"));
    assert_eq!(search_params(1), "EgWKAQIIAWoMEAQQAxAFEAkQEBAK");
    assert_eq!(search_params(2), "EgWKAQIYAWoMEAQQAxAFEAkQEBAK");
}

#[test]
fn library_features_need_login() {
    let bus = YTBus::new(dao(None, PAGE).unwrap());
    assert!(matches!(bus.check_auth(), Err(YError::UnavailableFeature)));
    let bus = YTBus::new(dao(Some("s"), PAGE).unwrap());
    assert!(bus.check_auth().is_ok());
    assert_eq!(bus.connection().innertube_api_key, "KEY123");
}

#[test]
fn liked_songs_become_editable() {
    let (lists, positions) =
        mark_custom_playlists(vec![playlist("PL1", false), playlist("LM", false), playlist("PL2", true)]);
    assert!(lists[1].is_custom);
    assert!(!lists[0].is_custom);
    assert_eq!(positions, vec![1, 2]);
}

#[test]
fn top_results_merged_in_front_without_repeats() {
    let merged = merge_top_songs(vec![song("a"), song("b")], vec![song("x"), song("b"), song("y")]);
    let ids: Vec<&str> = merged.iter().map(|s| s.video_id.as_str()).collect();
    assert_eq!(ids, vec!["x", "y", "a", "b"]);
}

#[test]
fn radio_of_a_song() {
    assert_eq!(related_playlist_id("abc"), "RDAMVMabc");
    let list = with_seed_song(song("s"), vec![song("r1")]);
    assert_eq!(list[0].video_id, "s");
    assert_eq!(list[1].video_id, "r1");
}

#[test]
fn snapshot_names_and_errors() {
    assert_eq!(temp_dir_tries(), 10);
    assert_eq!(temp_dir_name(12, 345, 6), "gytm_gecko_12_345_6");
    assert_eq!(attempt_dir_name(2), "attempt-2");
    assert!(quick_check_passed("ok"));
    assert!(!quick_check_passed("corrupt"));
    assert_eq!(
        failure_message(&AttemptFailure::Copy { path: "/a".into(), error: "denied".into() }),
        "Failed to copy /a: denied"
    );
    assert_eq!(failure_message(&AttemptFailure::Integrity("bad".into())), "Snapshot failed integrity check: bad");
    match source_missing_error("/x/cookies.sqlite") {
        YError::DatabaseError(m) => assert_eq!(m, "Gecko cookie database not found at /x/cookies.sqlite"),
        other => panic!("unexpected {other:?}"),
    }
    match temp_dir_error() {
        YError::DatabaseError(m) => {
            assert_eq!(m, "Failed to securely create temporary directory for cookie snapshot")
        }
        other => panic!("unexpected {other:?}"),
    }
}

#[test]
fn snapshot_attempts_stop_after_three() {
    let mut a = SnapshotAttempts::new();
    assert_eq!(a.next(), Some((0, false)));
    a.failed(&AttemptFailure::Open("e0".into()));
    assert_eq!(a.next(), Some((1, true)));
    a.failed(&AttemptFailure::Query("e1".into()));
    assert_eq!(a.next(), Some((2, true)));
    a.failed(&AttemptFailure::CreateDir("e2".into()));
    assert_eq!(a.next(), None);
    match a.final_error() {
        YError::DatabaseError(m) => assert_eq!(m, "Failed to create attempt directory: e2"),
        other => panic!("unexpected {other:?}"),
    }
    match SnapshotAttempts::new().final_error() {
        YError::DatabaseError(m) => assert_eq!(m, "Failed to create valid SQLite snapshot after 3 attempts"),
        other => panic!("unexpected {other:?}"),
    }
}

#[test]
fn library_pages_are_gathered_in_order() {
    let mut pages = LibraryPages::new();
    let next = pages.add_page(vec![playlist("A1", false)], vec![playlist("P1", false)], Some("t1".to_string()));
    assert_eq!(next, Some("t1".to_string()));
    let next = pages.add_page(vec![playlist("A2", false)], vec![playlist("LM", false), playlist("P2", true)], None);
    assert_eq!(next, None);
    let ids = |v: &Vec<Playlist>| v.iter().map(|p| p.playlist_id.clone()).collect::<Vec<_>>();
    assert_eq!(ids(&pages.albums), vec!["A1", "A2"]);
    assert_eq!(ids(&pages.playlists), vec!["P1", "LM", "P2"]);
    let (marked, custom) = mark_custom_playlists(pages.playlists);
    assert!(marked[1].is_custom);
    assert_eq!(custom, vec![1, 2]);
}
