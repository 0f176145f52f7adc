use gytm::error::{startup_error_message, YError};

#[test]
fn test_startup_error_reporting() {
    let auth_err = YError::InvalidCookie;
    assert_eq!(
        startup_error_message(&auth_err),
        "Authentication error: invalid or expired session cookies"
    );

    let container_err = YError::ConflictingContainerIdentities;
    assert_eq!(
        startup_error_message(&container_err),
        "Authentication error: multiple conflicting browser container identities found"
    );

    let db_err = YError::DatabaseError("failed to create SQLite snapshot".to_string());
    let db_msg = startup_error_message(&db_err);
    assert_eq!(db_msg, "Database error: failed to create SQLite snapshot");
    assert!(
        !db_msg.contains("Connection failure"),
        "Database error must not be mislabeled as network failure"
    );

    let init_err = YError::InvalidResponse("YouTube Music bootstrap data".to_string());
    assert_eq!(
        startup_error_message(&init_err),
        "Initialization error: Invalid Response from: YouTube Music bootstrap data"
    );
}

#[test]
fn test_invalid_cookie_message_contains_no_cookie_data() {
    let err = YError::InvalidCookie;
    let msg = startup_error_message(&err);
    assert_eq!(msg, "Authentication error: invalid or expired session cookies");
}

#[test]
fn test_database_error_message_preserves_context() {
    let context = "query execution failed at index 3";
    let err = YError::DatabaseError(context.to_string());
    let msg = startup_error_message(&err);
    assert_eq!(msg, format!("Database error: {context}"));
    assert_eq!(err.message(), format!("Database error: {context}"));
}

#[test]
fn messages_of_every_plain_error() {
    assert_eq!(YError::InvalidPath("p".into()).message(), "Invalid File Path: p");
    assert_eq!(YError::MpvSocketError("s".into()).message(), "MPV Socket Error: s");
    assert_eq!(YError::BadStatus("Like Song".into()).message(), "Bad Status from: Like Song");
    assert_eq!(YError::AlreadyInPlaylist.message(), "Song alredy saved in playlist");
    assert_eq!(YError::UnavailableFeature.message(), "Unavailable Feature");
    assert_eq!(
        YError::ConflictingContainerIdentities.message(),
        "Conflicting browser container identities: multiple containers contain active YouTube sessions"
    );
}

#[test]
fn messages_of_wrapped_errors_start_with_their_kind() {
    let url_err = url::Url::parse("not a url").unwrap_err();
    let text = url_err.to_string();
    let err = YError::UrlParseError(url_err);
    assert_eq!(err.message(), format!("URL parsing failed: {text}"));
    assert!(startup_error_message(&err).starts_with("Initialization error: URL parsing failed: "));

    let io = std::io::Error::new(std::io::ErrorKind::Other, "disk gone");
    assert_eq!(YError::IoError(io).message(), "IO Error: disk gone");
}

#[test]
fn unavailable_feature_reported_as_initialization_error() {
    assert_eq!(
        startup_error_message(&YError::UnavailableFeature),
        "Initialization error: Unavailable Feature"
    );
}
