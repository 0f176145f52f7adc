//! The library's error type and the messages shown for it.

use vstd::prelude::*;

use crate::text::{push_str, string_from_chars};

verus! {

#[verifier::external_type_specification]
#[verifier::external_body]
pub struct ExIoError(std::io::Error);

#[verifier::external_type_specification]
#[verifier::external_body]
pub struct ExJsonError(serde_json::Error);

#[verifier::external_type_specification]
#[verifier::external_body]
pub struct ExReqwestError(reqwest::Error);

#[verifier::external_type_specification]
#[verifier::external_body]
pub struct ExInvalidHeaderValue(reqwest::header::InvalidHeaderValue);

#[verifier::external_type_specification]
#[verifier::external_body]
pub struct ExUrlParseError(url::ParseError);

/// Everything that can go wrong in the client.
#[derive(Debug)]
pub enum YError {
    InvalidPath(String),
    InvalidResponse(String),
    IoError(std::io::Error),
    JsonError(serde_json::Error),
    ReqwestError(reqwest::Error),
    InvalidHeader(reqwest::header::InvalidHeaderValue),
    MpvSocketError(String),
    InvalidCookie,
    ConflictingContainerIdentities,
    DatabaseError(String),
    UrlParseError(url::ParseError),
    AlreadyInPlaylist,
    BadStatus(String),
    UnavailableFeature,
}

pub type YResult<T> = Result<T, YError>;

/// `Display` of `std::io::Error`: the text of the error, as the standard
/// library renders it; nothing is claimed about that text.
#[verifier::external_body]
fn io_error_text(e: &std::io::Error) -> String {
    format!("{e}")
}

/// `Display` of `serde_json::Error`; nothing is claimed about the text.
#[verifier::external_body]
fn json_error_text(e: &serde_json::Error) -> String {
    format!("{e}")
}

/// `Display` of `reqwest::Error`; nothing is claimed about the text.
#[verifier::external_body]
fn reqwest_error_text(e: &reqwest::Error) -> String {
    format!("{e}")
}

/// `Display` of `reqwest::header::InvalidHeaderValue`; nothing is claimed
/// about the text.
#[verifier::external_body]
fn invalid_header_text(e: &reqwest::header::InvalidHeaderValue) -> String {
    format!("{e}")
}

/// `Display` of `url::ParseError`; nothing is claimed about the text.
#[verifier::external_body]
fn url_parse_error_text(e: &url::ParseError) -> String {
    format!("{e}")
}

/// `reqwest::Error::is_connect`: whether the request failed while
/// connecting. Nothing is claimed about which errors those are.
#[verifier::external_body]
fn reqwest_error_is_connect(e: &reqwest::Error) -> bool {
    e.is_connect()
}

/// `reqwest::Error::is_timeout`: whether the request timed out. Nothing is
/// claimed about which errors those are.
#[verifier::external_body]
fn reqwest_error_is_timeout(e: &reqwest::Error) -> bool {
    e.is_timeout()
}

/// The fixed part of the message of an error: its whole message for the
/// variants without a payload, the text in front of the payload otherwise.
pub open spec fn message_head(e: YError) -> Seq<char> {
    match e {
        YError::InvalidPath(_) => "Invalid File Path: "@,
        YError::InvalidResponse(_) => "Invalid Response from: "@,
        YError::IoError(_) => "IO Error: "@,
        YError::JsonError(_) => "JSON Error: "@,
        YError::ReqwestError(_) => "Request Error: "@,
        YError::InvalidHeader(_) => "Request Header Inval: "@,
        YError::MpvSocketError(_) => "MPV Socket Error: "@,
        YError::InvalidCookie => "Invalid Cookie"@,
        YError::ConflictingContainerIdentities => "Conflicting browser container identities: multiple containers contain active YouTube sessions"@,
        YError::DatabaseError(_) => "Database error: "@,
        YError::UrlParseError(_) => "URL parsing failed: "@,
        YError::AlreadyInPlaylist => "Song alredy saved in playlist"@,
        YError::BadStatus(_) => "Bad Status from: "@,
        YError::UnavailableFeature => "Unavailable Feature"@,
    }
}

/// The text payload of an error whose payload is a string; none for the
/// variants without a payload or with an error of another crate.
pub open spec fn message_payload(e: YError) -> Option<Seq<char>> {
    match e {
        YError::InvalidPath(s) => Some(s@),
        YError::InvalidResponse(s) => Some(s@),
        YError::MpvSocketError(s) => Some(s@),
        YError::DatabaseError(s) => Some(s@),
        YError::BadStatus(s) => Some(s@),
        _ => None,
    }
}

/// The variant carries an error of another crate, whose text follows the
/// fixed part of the message.
pub open spec fn wraps_outside_error(e: YError) -> bool {
    e is IoError || e is JsonError || e is ReqwestError || e is InvalidHeader || e is UrlParseError
}

/// The message of an error: the fixed part, followed by the string payload
/// or by the text of the wrapped error.
pub open spec fn message_matches(e: YError, m: Seq<char>) -> bool {
    match message_payload(e) {
        Some(p) => m == message_head(e) + p,
        None => if wraps_outside_error(e) {
            m.len() >= message_head(e).len() && m.subrange(0, message_head(e).len() as int)
                == message_head(e)
        } else {
            m == message_head(e)
        },
    }
}

impl YError {
    /// The human-readable message of the error (its `Display` text).
    pub fn message(&self) -> (res: String)
        ensures
            message_matches(*self, res@),
    {
        let mut out: Vec<char> = Vec::new();
        match self {
            YError::InvalidPath(s) => {
                push_str(&mut out, "Invalid File Path: ");
                push_str(&mut out, s.as_str());
            },
            YError::InvalidResponse(s) => {
                push_str(&mut out, "Invalid Response from: ");
                push_str(&mut out, s.as_str());
            },
            YError::IoError(e) => {
                push_str(&mut out, "IO Error: ");
                push_str(&mut out, io_error_text(e).as_str());
            },
            YError::JsonError(e) => {
                push_str(&mut out, "JSON Error: ");
                push_str(&mut out, json_error_text(e).as_str());
            },
            YError::ReqwestError(e) => {
                push_str(&mut out, "Request Error: ");
                push_str(&mut out, reqwest_error_text(e).as_str());
            },
            YError::InvalidHeader(e) => {
                push_str(&mut out, "Request Header Inval: ");
                push_str(&mut out, invalid_header_text(e).as_str());
            },
            YError::MpvSocketError(s) => {
                push_str(&mut out, "MPV Socket Error: ");
                push_str(&mut out, s.as_str());
            },
            YError::InvalidCookie => {
                push_str(&mut out, "Invalid Cookie");
            },
            YError::ConflictingContainerIdentities => {
                push_str(
                    &mut out,
                    "Conflicting browser container identities: multiple containers contain active YouTube sessions",
                );
            },
            YError::DatabaseError(s) => {
                push_str(&mut out, "Database error: ");
                push_str(&mut out, s.as_str());
            },
            YError::UrlParseError(e) => {
                push_str(&mut out, "URL parsing failed: ");
                push_str(&mut out, url_parse_error_text(e).as_str());
            },
            YError::AlreadyInPlaylist => {
                push_str(&mut out, "Song alredy saved in playlist");
            },
            YError::BadStatus(s) => {
                push_str(&mut out, "Bad Status from: ");
                push_str(&mut out, s.as_str());
            },
            YError::UnavailableFeature => {
                push_str(&mut out, "Unavailable Feature");
            },
        }
        proof {
            let h = message_head(*self);
            if wraps_outside_error(*self) {
                assert(out@.subrange(0, h.len() as int) =~= h);
            } else {
                assert(out@ =~= h + message_payload(*self).unwrap_or(Seq::empty())) ;
            }
        }
        string_from_chars(out.as_slice())
    }
}

/// The line printed when the client cannot start, by kind of error:
/// network failures, authentication problems and database problems each get
/// their own wording; any other error is reported with its message.
pub open spec fn startup_message_matches(e: YError, m: Seq<char>) -> bool {
    match e {
        YError::ReqwestError(_) => {
            ||| m == "Connection failure: unable to connect to YouTube Music"@
            ||| (m.len() >= "HTTP request error: "@.len() && m.subrange(
                0,
                "HTTP request error: "@.len() as int,
            ) == "HTTP request error: "@)
        },
        YError::InvalidCookie => m == "Authentication error: invalid or expired session cookies"@,
        YError::ConflictingContainerIdentities => m
            == "Authentication error: multiple conflicting browser container identities found"@,
        YError::DatabaseError(msg) => m == "Database error: "@ + msg@,
        _ => exists|inner: Seq<char>|
            message_matches(e, inner) && m == "Initialization error: "@ + inner,
    }
}

/// The line printed when the client cannot start
/// (see [`startup_message_matches`]).
pub fn startup_error_message(err: &YError) -> (res: String)
    ensures
        startup_message_matches(*err, res@),
{
    let mut out: Vec<char> = Vec::new();
    match err {
        YError::ReqwestError(e) => {
            if reqwest_error_is_connect(e) || reqwest_error_is_timeout(e) {
                push_str(&mut out, "Connection failure: unable to connect to YouTube Music");
            } else {
                push_str(&mut out, "HTTP request error: ");
                push_str(&mut out, reqwest_error_text(e).as_str());
                assert(out@.subrange(0, "HTTP request error: "@.len() as int) =~= "HTTP request error: "@);
            }
        },
        YError::InvalidCookie => {
            push_str(&mut out, "Authentication error: invalid or expired session cookies");
        },
        YError::ConflictingContainerIdentities => {
            push_str(
                &mut out,
                "Authentication error: multiple conflicting browser container identities found",
            );
        },
        YError::DatabaseError(msg) => {
            push_str(&mut out, "Database error: ");
            push_str(&mut out, msg.as_str());
        },
        _ => {
            let inner = err.message();
            push_str(&mut out, "Initialization error: ");
            push_str(&mut out, inner.as_str());
        },
    }
    string_from_chars(out.as_slice())
}

} // verus!
