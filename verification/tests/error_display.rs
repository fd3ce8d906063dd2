use sentinel::error::SentinelError;

#[test]
fn display_database_variant() {
    let e = SentinelError::Database("no such table".to_string());
    assert_eq!(e.to_message(), "Database error: no such table");
}

#[test]
fn display_crypto_variant() {
    let e = SentinelError::Crypto("nonce too short".to_string());
    assert_eq!(e.to_message(), "Crypto error: nonce too short");
}

#[test]
fn display_io_variant() {
    let e = SentinelError::Io("file not found".to_string());
    assert_eq!(e.to_message(), "I/O error: file not found");
}

#[test]
fn display_lock_poisoned_variant() {
    let e = SentinelError::LockPoisoned("mutex was poisoned".to_string());
    assert!(e.to_message().contains("Lock poisoned"));
}

#[test]
fn display_system_time_variant() {
    let e = SentinelError::SystemTime("clock went backwards".to_string());
    assert!(e.to_message().contains("System time error"));
}

#[test]
fn display_other_variant() {
    let e = SentinelError::Other("something unexpected".to_string());
    assert_eq!(e.to_message(), "Error: something unexpected");
}

#[test]
fn display_serialization_variant() {
    let e = SentinelError::Serialization("expected value".to_string());
    assert_eq!(e.to_message(), "Serialization error: expected value");
}

#[test]
fn from_string_wraps_as_other() {
    let e = SentinelError::from("raw string error".to_string());
    assert!(matches!(e, SentinelError::Other(_)));
    assert_eq!(e.to_message(), "Error: raw string error");
}

#[test]
fn from_str_wraps_as_other() {
    let e = SentinelError::from("static str");
    assert!(matches!(e, SentinelError::Other(_)));
}

#[test]
fn from_str_keeps_the_text() {
    let e = SentinelError::from("static str");
    assert_eq!(e.to_message(), "Error: static str");
}

#[test]
fn from_io_error_wraps_as_io() {
    let io_err = std::io::Error::new(std::io::ErrorKind::NotFound, "missing file");
    let e = SentinelError::from(io_err);
    assert!(matches!(e, SentinelError::Io(_)));
    assert!(e.to_message().contains("missing file"));
}

#[test]
fn poison_error_wraps_as_lock_poisoned() {
    let e = SentinelError::from(std::sync::PoisonError::new(0u32));
    assert!(matches!(e, SentinelError::LockPoisoned(_)));
    assert!(e.to_message().starts_with("Lock poisoned: "));
}

#[test]
fn clock_error_wraps_as_system_time() {
    let later = std::time::SystemTime::now() + std::time::Duration::from_secs(3600);
    let err = std::time::UNIX_EPOCH.duration_since(later).unwrap_err();
    let text = err.to_string();
    let e = SentinelError::from(err);
    assert!(matches!(e, SentinelError::SystemTime(ref t) if *t == text));
    assert!(e.to_message().starts_with("System time error: "));
}

#[test]
fn json_error_wraps_as_serialization() {
    let err = serde_json::from_str::<u32>("this is not json").unwrap_err();
    let e = SentinelError::from(err);
    assert!(matches!(e, SentinelError::Serialization(_)));
    assert!(e.to_message().starts_with("Serialization error: "));
}

#[test]
fn sqlite_error_wraps_as_database() {
    let e = SentinelError::from(rusqlite::Error::QueryReturnedNoRows);
    assert!(matches!(e, SentinelError::Database(_)));
    assert_eq!(e.to_message(), "Database error: Query returned no rows");
}
