//! The gateway's unified error type and its human-readable rendering.

use vstd::prelude::*;

verus! {

/// Unified error type used across the gateway.
#[derive(Debug)]
pub enum SentinelError {
    /// SQLite / SQLCipher errors.
    Database(String),
    /// Authenticated encryption / decryption failures.
    Crypto(String),
    /// File I/O errors.
    Io(String),
    /// JSON serialization / deserialization errors.
    Serialization(String),
    /// A lock was poisoned by a thread that panicked while holding it.
    LockPoisoned(String),
    /// System clock errors.
    SystemTime(String),
    /// Errors that fit no other variant.
    Other(String),
}

impl SentinelError {
    /// The text that prefixes the detail message of each variant.
    pub open spec fn spec_prefix(&self) -> Seq<char> {
        match self {
            SentinelError::Database(_) => "Database error: "@,
            SentinelError::Crypto(_) => "Crypto error: "@,
            SentinelError::Io(_) => "I/O error: "@,
            SentinelError::Serialization(_) => "Serialization error: "@,
            SentinelError::LockPoisoned(_) => "Lock poisoned: "@,
            SentinelError::SystemTime(_) => "System time error: "@,
            SentinelError::Other(_) => "Error: "@,
        }
    }

    /// The detail message carried by the error.
    pub open spec fn spec_detail(&self) -> Seq<char> {
        match self {
            SentinelError::Database(m) => m@,
            SentinelError::Crypto(m) => m@,
            SentinelError::Io(m) => m@,
            SentinelError::Serialization(m) => m@,
            SentinelError::LockPoisoned(m) => m@,
            SentinelError::SystemTime(m) => m@,
            SentinelError::Other(m) => m@,
        }
    }

    /// The full human-readable rendering: prefix followed by the detail.
    pub open spec fn spec_message(&self) -> Seq<char> {
        self.spec_prefix() + self.spec_detail()
    }

    /// Renders the error for people, e.g. `Database error: no such table`.
    pub fn to_message(&self) -> (s: String)
        ensures
            s@ == self.spec_message(),
    {
        let (prefix, detail) = match self {
            SentinelError::Database(m) => ("Database error: ", m),
            SentinelError::Crypto(m) => ("Crypto error: ", m),
            SentinelError::Io(m) => ("I/O error: ", m),
            SentinelError::Serialization(m) => ("Serialization error: ", m),
            SentinelError::LockPoisoned(m) => ("Lock poisoned: ", m),
            SentinelError::SystemTime(m) => ("System time error: ", m),
            SentinelError::Other(m) => ("Error: ", m),
        };
        let mut s = prefix.to_owned();
        s.append(detail.as_str());
        s
    }
}

impl From<String> for SentinelError {
    fn from(s: String) -> (e: Self)
        ensures
            e == SentinelError::Other(s),
    {
        SentinelError::Other(s)
    }
}

impl vstd::std_specs::convert::FromSpecImpl<String> for SentinelError {
    open spec fn obeys_from_spec() -> bool {
        true
    }

    open spec fn from_spec(s: String) -> Self {
        SentinelError::Other(s)
    }
}

impl<'a> From<&'a str> for SentinelError {
    fn from(s: &'a str) -> (e: Self)
        ensures
            e matches SentinelError::Other(m) && m@ == s@,
    {
        SentinelError::Other(s.to_owned())
    }
}

/// The `&str` conversion is described by the `ensures` of `from` itself: its
/// message is the argument's text, which a spec function cannot turn into a
/// `String` value.
impl<'a> vstd::std_specs::convert::FromSpecImpl<&'a str> for SentinelError {
    open spec fn obeys_from_spec() -> bool {
        false
    }

    open spec fn from_spec(s: &'a str) -> Self {
        arbitrary()
    }
}

#[verifier::external_type_specification]
#[verifier::external_body]
pub struct ExIoError(std::io::Error);

/// Calls `<std::io::Error as ToString>::to_string`; its text is the error's
/// `Display` rendering, of which nothing is stated here.
#[verifier::external_body]
fn io_error_text(e: &std::io::Error) -> String {
    e.to_string()
}

impl From<std::io::Error> for SentinelError {
    fn from(e: std::io::Error) -> (r: Self)
        ensures
            r is Io,
    {
        SentinelError::Io(io_error_text(&e))
    }
}

/// The I/O conversion is described by the `ensures` of `from` itself: the
/// variant is `Io`; the text is the I/O error's own rendering.
impl vstd::std_specs::convert::FromSpecImpl<std::io::Error> for SentinelError {
    open spec fn obeys_from_spec() -> bool {
        false
    }

    open spec fn from_spec(e: std::io::Error) -> Self {
        arbitrary()
    }
}

#[verifier::external_type_specification]
#[verifier::external_body]
pub struct ExSqliteError(rusqlite::Error);

/// Calls `<rusqlite::Error as ToString>::to_string`: SQLite's rendering of
/// the error, of which nothing is stated here.
#[verifier::external_body]
fn sqlite_error_text(e: &rusqlite::Error) -> String {
    e.to_string()
}

impl From<rusqlite::Error> for SentinelError {
    fn from(e: rusqlite::Error) -> (r: Self)
        ensures
            r is Database,
    {
        SentinelError::Database(sqlite_error_text(&e))
    }
}

/// The database conversion is described by the `ensures` of `from` itself:
/// the variant is `Database`; the text is SQLite's own rendering.
impl vstd::std_specs::convert::FromSpecImpl<rusqlite::Error> for SentinelError {
    open spec fn obeys_from_spec() -> bool {
        false
    }

    open spec fn from_spec(e: rusqlite::Error) -> Self {
        arbitrary()
    }
}

#[verifier::external_type_specification]
#[verifier::external_body]
pub struct ExJsonError(serde_json::Error);

/// Calls `<serde_json::Error as ToString>::to_string`: the parser's
/// rendering of the error, of which nothing is stated here.
#[verifier::external_body]
fn json_error_text(e: &serde_json::Error) -> String {
    e.to_string()
}

impl From<serde_json::Error> for SentinelError {
    fn from(e: serde_json::Error) -> (r: Self)
        ensures
            r is Serialization,
    {
        SentinelError::Serialization(json_error_text(&e))
    }
}

/// The JSON conversion is described by the `ensures` of `from` itself: the
/// variant is `Serialization`; the text is the parser's own rendering.
impl vstd::std_specs::convert::FromSpecImpl<serde_json::Error> for SentinelError {
    open spec fn obeys_from_spec() -> bool {
        false
    }

    open spec fn from_spec(e: serde_json::Error) -> Self {
        arbitrary()
    }
}

#[verifier::external_type_specification]
#[verifier::external_body]
pub struct ExSystemTimeError(std::time::SystemTimeError);

/// The text that a clock error's `Display` renders.
pub uninterp spec fn system_time_error_message(e: &std::time::SystemTimeError) -> Seq<char>;

/// Calls `<std::time::SystemTimeError as ToString>::to_string`: the error's
/// `Display` rendering (`system_time_error_message`).
#[verifier::external_body]
fn system_time_error_text(e: &std::time::SystemTimeError) -> (s: String)
    ensures
        s@ == system_time_error_message(e),
{
    e.to_string()
}

impl From<std::time::SystemTimeError> for SentinelError {
    fn from(e: std::time::SystemTimeError) -> (r: Self)
        ensures
            r matches SentinelError::SystemTime(t) && t@ == system_time_error_message(&e),
    {
        SentinelError::SystemTime(system_time_error_text(&e))
    }
}

/// The clock conversion is described by the `ensures` of `from` itself: the
/// variant is `SystemTime` and the text is the clock error's rendering, which
/// a spec function cannot turn into a `String` value.
impl vstd::std_specs::convert::FromSpecImpl<std::time::SystemTimeError> for SentinelError {
    open spec fn obeys_from_spec() -> bool {
        false
    }

    open spec fn from_spec(e: std::time::SystemTimeError) -> Self {
        arbitrary()
    }
}

#[verifier::external_type_specification]
#[verifier::external_body]
#[verifier::reject_recursive_types(T)]
pub struct ExPoisonError<T>(std::sync::PoisonError<T>);

/// Calls `<std::sync::PoisonError<T> as ToString>::to_string`: a rendering
/// of the poisoned lock, of which nothing is stated here.
#[verifier::external_body]
fn poison_error_text<T>(e: &std::sync::PoisonError<T>) -> String {
    e.to_string()
}

impl<T> From<std::sync::PoisonError<T>> for SentinelError {
    fn from(e: std::sync::PoisonError<T>) -> (r: Self)
        ensures
            r is LockPoisoned,
    {
        SentinelError::LockPoisoned(poison_error_text(&e))
    }
}

/// The lock conversion is described by the `ensures` of `from` itself: the
/// variant is `LockPoisoned`; the text is the lock error's own rendering.
impl<T> vstd::std_specs::convert::FromSpecImpl<std::sync::PoisonError<T>> for SentinelError {
    open spec fn obeys_from_spec() -> bool {
        false
    }

    open spec fn from_spec(e: std::sync::PoisonError<T>) -> Self {
        arbitrary()
    }
}

} // verus!
