//! The decisions of taking a private snapshot of a browser's cookie
//! database: how many times to try, what each attempt is called, and what
//! is reported when it fails. The copying itself is file-system work done by
//! the caller between the steps.

use vstd::prelude::*;

use crate::dao::{decimal, u64_decimal};
use crate::error::YError;
use crate::text::{chars_eq, push_all, push_str, str_chars, string_from_chars};

verus! {

/// How many unique temporary directory names are tried.
pub fn temp_dir_tries() -> (res: u32)
    ensures
        res == 10,
{
    10
}

/// How many times a snapshot is attempted.
pub open spec fn max_attempts() -> u32 {
    3
}

/// The name of a private temporary directory: process id, time in
/// nanoseconds and a counter, separated by underscores.
pub fn temp_dir_name(pid: u64, nanos: u64, count: u64) -> (res: String)
    ensures
        res@ == "gytm_gecko_"@ + decimal(pid as nat) + "_"@ + decimal(nanos as nat) + "_"@
            + decimal(count as nat),
{
    let mut out: Vec<char> = Vec::new();
    push_str(&mut out, "gytm_gecko_");
    push_all(&mut out, u64_decimal(pid).as_slice());
    push_str(&mut out, "_");
    push_all(&mut out, u64_decimal(nanos).as_slice());
    push_str(&mut out, "_");
    push_all(&mut out, u64_decimal(count).as_slice());
    string_from_chars(out.as_slice())
}

/// The directory of attempt `n`, inside the temporary directory.
pub fn attempt_dir_name(n: u32) -> (res: String)
    ensures
        res@ == "attempt-"@ + decimal(n as nat),
{
    let mut out: Vec<char> = Vec::new();
    push_str(&mut out, "attempt-");
    push_all(&mut out, u64_decimal(n as u64).as_slice());
    string_from_chars(out.as_slice())
}

/// Why one snapshot attempt did not produce a usable copy. Paths and
/// errors are carried as the text they are displayed with.
pub enum AttemptFailure {
    /// The attempt's directory could not be created.
    CreateDir(String),
    /// A file (the database or its write-ahead log) could not be copied.
    Copy { path: String, error: String },
    /// The copy's integrity check reported something other than `ok`.
    Integrity(String),
    /// The integrity check could not be run.
    Query(String),
    /// The copy could not be opened.
    Open(String),
}

/// The text an attempt failure is reported with.
pub open spec fn failure_text(f: AttemptFailure) -> Seq<char> {
    match f {
        AttemptFailure::CreateDir(e) => "Failed to create attempt directory: "@ + e@,
        AttemptFailure::Copy { path, error } => "Failed to copy "@ + path@ + ": "@ + error@,
        AttemptFailure::Integrity(other) => "Snapshot failed integrity check: "@ + other@,
        AttemptFailure::Query(e) => "Snapshot integrity query failed: "@ + e@,
        AttemptFailure::Open(e) => "Failed to open snapshot: "@ + e@,
    }
}

/// The report of an attempt failure (see [`failure_text`]).
pub fn failure_message(f: &AttemptFailure) -> (res: String)
    ensures
        res@ == failure_text(*f),
{
    let mut out: Vec<char> = Vec::new();
    match f {
        AttemptFailure::CreateDir(e) => {
            push_str(&mut out, "Failed to create attempt directory: ");
            push_str(&mut out, e.as_str());
        },
        AttemptFailure::Copy { path, error } => {
            push_str(&mut out, "Failed to copy ");
            push_str(&mut out, path.as_str());
            push_str(&mut out, ": ");
            push_str(&mut out, error.as_str());
        },
        AttemptFailure::Integrity(other) => {
            push_str(&mut out, "Snapshot failed integrity check: ");
            push_str(&mut out, other.as_str());
        },
        AttemptFailure::Query(e) => {
            push_str(&mut out, "Snapshot integrity query failed: ");
            push_str(&mut out, e.as_str());
        },
        AttemptFailure::Open(e) => {
            push_str(&mut out, "Failed to open snapshot: ");
            push_str(&mut out, e.as_str());
        },
    }
    string_from_chars(out.as_slice())
}

/// The integrity check passed: SQLite's `quick_check` answered `ok`.
pub fn quick_check_passed(answer: &str) -> (res: bool)
    ensures
        res == (answer@ == "ok"@),
{
    chars_eq(str_chars(answer).as_slice(), str_chars("ok").as_slice())
}

/// The error for a database that is not a regular file.
pub fn source_missing_error(display: &str) -> (res: YError)
    ensures
        res matches YError::DatabaseError(m) && m@ == "Gecko cookie database not found at "@
            + display@,
{
    let mut out: Vec<char> = Vec::new();
    push_str(&mut out, "Gecko cookie database not found at ");
    push_str(&mut out, display);
    YError::DatabaseError(string_from_chars(out.as_slice()))
}

/// The error when no private temporary directory could be created.
pub fn temp_dir_error() -> (res: YError)
    ensures
        res matches YError::DatabaseError(m) && m@
            == "Failed to securely create temporary directory for cookie snapshot"@,
{
    YError::DatabaseError(
        "Failed to securely create temporary directory for cookie snapshot".to_string(),
    )
}

/// The attempts at a snapshot made so far.
pub struct SnapshotAttempts {
    pub made: u32,
    /// The report of the latest failed attempt.
    pub last_error: Option<String>,
}

impl SnapshotAttempts {
    pub fn new() -> (res: Self)
        ensures
            res.made == 0,
            res.last_error is None,
    {
        SnapshotAttempts { made: 0, last_error: None }
    }

    /// The next attempt to make, and whether to pause before it (every
    /// attempt but the first waits); none once all attempts are made.
    pub fn next(&self) -> (res: Option<(u32, bool)>)
        ensures
            self.made < max_attempts() ==> res == Some((self.made, self.made > 0)),
            self.made >= max_attempts() ==> res is None,
    {
        if self.made < 3 {
            Some((self.made, self.made > 0))
        } else {
            None
        }
    }

    /// Records that the current attempt failed.
    pub fn failed(&mut self, f: &AttemptFailure)
        requires
            old(self).made < max_attempts(),
        ensures
            final(self).made == old(self).made + 1,
            final(self).last_error matches Some(m) && m@ == failure_text(*f),
    {
        self.made = self.made + 1;
        self.last_error = Some(failure_message(f));
    }

    /// The error once every attempt failed: the report of the last failure,
    /// or a general one if no attempt was made.
    pub fn final_error(self) -> (res: YError)
        ensures
            res matches YError::DatabaseError(m) && match self.last_error {
                Some(e) => m@ == e@,
                None => m@ == "Failed to create valid SQLite snapshot after 3 attempts"@,
            },
    {
        match self.last_error {
            Some(e) => YError::DatabaseError(e),
            None => YError::DatabaseError(
                "Failed to create valid SQLite snapshot after 3 attempts".to_string(),
            ),
        }
    }
}

} // verus!
