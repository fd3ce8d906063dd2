use sentinel::db::DeviceRow;
use sentinel::ws::IngestAction;
use sentinel::error::SentinelError;
use sentinel::ws::{
    decide_hello, finish_authentication, finish_registration, hash_token, ingest_frame, AuthMessage, AuthResponse,
    Frame, FrameAction, HelloDecision,
};

#[test]
fn token_hash_is_lowercase_sha256_hex() {
    assert_eq!(hash_token(""), "e3b0c44298fc1c149afbf4c8996fb92427ae41e4649b934ca495991b7852b855");
    assert_eq!(hash_token("abc"), "ba7816bf8f01cfea414140de5dae2223b00361a396177a9cb410ff61f20015ad");
}

#[test]
fn registration_refused_outside_pairing_window() {
    let hello = AuthMessage::Register { device_id: "d1".to_string(), friendly_name: "Sensor".to_string() };
    match decide_hello(Some(hello), false, 100) {
        HelloDecision::Refuse(AuthResponse::Error { message }) => assert_eq!(message, "Pairing mode is disabled"),
        other => panic!("unexpected {:?}", other),
    }
}

#[test]
fn unusable_hello_closes() {
    assert!(matches!(decide_hello(None, true, 0), HelloDecision::Close));
}

#[test]
fn issued_token_authenticates_and_others_do_not() {
    let hello = AuthMessage::Register { device_id: "d1".to_string(), friendly_name: "Sensor".to_string() };
    let (device, token) = match decide_hello(Some(hello), true, 1234) {
        HelloDecision::Register { device, token } => (device, token),
        other => panic!("unexpected {:?}", other),
    };
    assert_eq!(token.len(), 32);
    assert!(token.chars().all(|c| c.is_ascii_alphanumeric()));
    assert_eq!(device.device_id, "d1");
    assert_eq!(device.friendly_name, "Sensor");
    assert_eq!(device.token_hash, hash_token(&token));
    assert_ne!(device.token_hash, token);
    assert_eq!(device.created_at, 1234);
    assert_eq!(device.last_seen, 1234);

    let (reply, authorized) = finish_registration(Ok(()), "d1".to_string(), token.clone());
    assert!(matches!(reply, AuthResponse::Registered { token: ref t } if *t == token));
    assert_eq!(authorized.as_ref().map(|s| s.device_id().as_str()), Some("d1"));

    let (reply, authorized) = finish_authentication(Ok(Some(device.clone())), "d1".to_string(), &token);
    assert!(matches!(reply, AuthResponse::Authenticated));
    assert_eq!(authorized.as_ref().map(|s| s.device_id().as_str()), Some("d1"));

    let (reply, authorized) = finish_authentication(Ok(Some(device)), "d1".to_string(), "wrong-token");
    match reply {
        AuthResponse::Error { message } => assert_eq!(message, "Invalid token"),
        other => panic!("unexpected {:?}", other),
    }
    assert!(authorized.is_none());
}

#[test]
fn auth_hello_asks_for_lookup() {
    let hello = AuthMessage::Auth { device_id: "d9".to_string(), token: "tok".to_string() };
    match decide_hello(Some(hello), false, 0) {
        HelloDecision::Lookup { device_id, token } => {
            assert_eq!(device_id, "d9");
            assert_eq!(token, "tok");
        }
        other => panic!("unexpected {:?}", other),
    }
}

#[test]
fn unknown_device_is_not_found() {
    for lookup in [Ok(None), Err(SentinelError::Database("locked".to_string()))] {
        let (reply, authorized) = finish_authentication(lookup, "ghost".to_string(), "t");
        match reply {
            AuthResponse::Error { message } => assert_eq!(message, "Device not found"),
            other => panic!("unexpected {:?}", other),
        }
        assert!(authorized.is_none());
    }
}

#[test]
fn failed_registration_reports_the_error() {
    let (reply, authorized) =
        finish_registration(Err(SentinelError::Database("UNIQUE constraint failed".to_string())), "d1".to_string(), "t".to_string());
    match reply {
        AuthResponse::Error { message } => {
            assert_eq!(message, "Registration failed: Database error: UNIQUE constraint failed")
        }
        other => panic!("unexpected {:?}", other),
    }
    assert!(authorized.is_none());
}

#[test]
fn frames_map_to_actions() {
    assert!(matches!(ingest_frame(Frame::Binary(vec![1, 2])), FrameAction::Store(b) if b == vec![1, 2]));
    assert!(matches!(ingest_frame(Frame::Text("hé".to_string())), FrameAction::Store(b) if b == "hé".as_bytes()));
    assert!(matches!(ingest_frame(Frame::Ping(vec![7])), FrameAction::Pong(d) if d == vec![7]));
    assert!(matches!(ingest_frame(Frame::Close), FrameAction::Stop));
    assert!(matches!(ingest_frame(Frame::Failed), FrameAction::Stop));
    assert!(matches!(ingest_frame(Frame::Other), FrameAction::Ignore));
}

#[test]
fn stored_row_with_foreign_hash_rejects() {
    let row = DeviceRow {
        device_id: "test-dev".into(),
        friendly_name: "Test Sensor".into(),
        token_hash: "hashed-token".into(),
        created_at: 100,
        last_seen: 100,
    };
    let (reply, _) = finish_authentication(Ok(Some(row)), "test-dev".to_string(), "hashed-token");
    assert!(matches!(reply, AuthResponse::Error { .. }));
}

const TEST_KEY: [u8; 32] = *b"sentinel-test-key-fixed-32-bytes";

#[test]
fn no_session_without_authorization() {
    let hello = AuthMessage::Register { device_id: "d1".to_string(), friendly_name: "Sensor".to_string() };
    let (device, token) = match decide_hello(Some(hello), true, 5) {
        HelloDecision::Register { device, token } => (device, token),
        other => panic!("unexpected {:?}", other),
    };
    let (_, session) = finish_authentication(Ok(Some(device)), "d1".to_string(), &format!("{}x", token));
    assert!(session.is_none());
    let (_, session) = finish_authentication(Ok(None), "d1".to_string(), &token);
    assert!(session.is_none());
    let (_, session) = finish_registration(Err(SentinelError::Other("busy".to_string())), "d1".to_string(), token);
    assert!(session.is_none());
}

#[test]
fn session_seals_payloads_before_storage() {
    let (_, session) = finish_registration(Ok(()), "d7".to_string(), "tok".to_string());
    let session = session.unwrap();
    assert_eq!(session.device_id(), "d7");
    for frame in [Frame::Binary(b"temp=21".to_vec()), Frame::Text("temp=21".to_string())] {
        match session.handle(frame, &TEST_KEY) {
            IngestAction::Store { device_id, sealed } => {
                assert_eq!(device_id, "d7");
                assert_eq!(sealed.len(), 12 + 7 + 16);
                assert_ne!(&sealed[12..19], b"temp=21");
                assert_eq!(sentinel::crypto::decrypt_payload(&sealed, &TEST_KEY).unwrap(), b"temp=21".to_vec());
            }
            other => panic!("unexpected {:?}", other),
        }
    }
    assert!(matches!(session.handle(Frame::Ping(vec![3]), &TEST_KEY), IngestAction::Pong(d) if d == vec![3]));
    assert!(matches!(session.handle(Frame::Close, &TEST_KEY), IngestAction::Stop));
    assert!(matches!(session.handle(Frame::Failed, &TEST_KEY), IngestAction::Stop));
    assert!(matches!(session.handle(Frame::Other, &TEST_KEY), IngestAction::Ignore));
}
