use sentinel::db::PayloadRow;
use sentinel::error::SentinelError;
use sentinel::logging::LogLevel;
use sentinel::state::NetworkStatus;
use sentinel::sync::{
    build_batch, health_url, to_sync_record, SyncAction, SyncCycle, SyncInput, SyncStage, UploadOutcome,
};

fn row(id: i64, blob: &[u8]) -> PayloadRow {
    PayloadRow { id, device_id: format!("dev-{}", id), encrypted_blob: blob.to_vec(), received_at: 1000 + id }
}

fn base64_encode(data: &[u8]) -> String {
    to_sync_record(&row(1, data)).encrypted_blob
}

#[test]
fn base64_encode_empty() {
    assert_eq!(base64_encode(b""), "");
}

#[test]
fn base64_encode_known_values() {
    // Standard base64 test vectors (RFC 4648)
    assert_eq!(base64_encode(b"Man"), "TWFu");
    assert_eq!(base64_encode(b"Ma"), "TWE=");
    assert_eq!(base64_encode(b"M"), "TQ==");
    assert_eq!(base64_encode(b"hello"), "aGVsbG8=");
}

#[test]
fn base64_uses_the_whole_alphabet() {
    assert_eq!(base64_encode(&[0xFF, 0xFE, 0xFD]), "//79");
    assert_eq!(base64_encode(&[0xFB, 0xEF]), "++8=");
    assert_eq!(base64_encode(&[0, 0, 0]), "AAAA");
}

#[test]
fn health_url_trims_trailing_slashes() {
    assert_eq!(health_url("http://127.0.0.1:9000/ingest"), "http://127.0.0.1:9000/ingest/health");
    assert_eq!(health_url("http://h/ingest///"), "http://h/ingest/health");
    assert_eq!(health_url("/"), "/health");
    assert_eq!(health_url(""), "/health");
}

#[test]
fn batch_mirrors_rows() {
    let rows = vec![row(1, b"Man"), row(2, b"M")];
    let batch = build_batch(&rows);
    assert_eq!(batch.len(), 2);
    assert_eq!(batch[0].id, 1);
    assert_eq!(batch[0].device_id, "dev-1");
    assert_eq!(batch[0].encrypted_blob, "TWFu");
    assert_eq!(batch[1].encrypted_blob, "TQ==");
    assert_eq!(batch[1].received_at, 1002);
}

#[test]
fn offline_cycle_does_nothing() {
    for status in [NetworkStatus::Offline, NetworkStatus::Degraded, NetworkStatus::Unknown] {
        let mut cycle = SyncCycle::new();
        let action = cycle.step(SyncInput::Start { status, endpoint: "http://c/ingest".to_string() });
        assert!(matches!(action, SyncAction::Done));
        assert_eq!(cycle.current_stage(), SyncStage::Idle);
    }
}

#[test]
fn full_cycle_uploads_and_marks() {
    let mut cycle = SyncCycle::new();
    match cycle.step(SyncInput::Start { status: NetworkStatus::Stable, endpoint: "http://c/ingest/".to_string() }) {
        SyncAction::CheckHealth { url } => assert_eq!(url, "http://c/ingest/health"),
        other => panic!("unexpected {:?}", other),
    }
    assert!(matches!(cycle.step(SyncInput::Health { healthy: true }), SyncAction::FetchUnsynced));
    match cycle.step(SyncInput::Rows(Ok(vec![row(7, b"Ma"), row(9, b"hello")]))) {
        SyncAction::Upload { endpoint, records } => {
            assert_eq!(endpoint, "http://c/ingest/");
            assert_eq!(records.len(), 2);
            assert_eq!(records[1].encrypted_blob, "aGVsbG8=");
        }
        other => panic!("unexpected {:?}", other),
    }
    match cycle.step(SyncInput::Uploaded(UploadOutcome::Accepted)) {
        SyncAction::MarkSynced { ids } => assert_eq!(ids, vec![7, 9]),
        other => panic!("unexpected {:?}", other),
    }
    match cycle.step(SyncInput::Marked { results: vec![true, false] }) {
        SyncAction::Log { level, message } => {
            assert_eq!(level, LogLevel::Info);
            assert_eq!(message, "Synced 1 row(s) successfully");
        }
        other => panic!("unexpected {:?}", other),
    }
    assert_eq!(cycle.current_stage(), SyncStage::Idle);
}

#[test]
fn unhealthy_cloud_is_logged() {
    let mut cycle = SyncCycle::new();
    cycle.step(SyncInput::Start { status: NetworkStatus::Stable, endpoint: "e".to_string() });
    match cycle.step(SyncInput::Health { healthy: false }) {
        SyncAction::Log { level, message } => {
            assert_eq!(level, LogLevel::Warn);
            assert_eq!(message, "Cloud Offline: /health unreachable");
        }
        other => panic!("unexpected {:?}", other),
    }
}

#[test]
fn empty_queue_ends_the_cycle() {
    let mut cycle = SyncCycle::new();
    cycle.step(SyncInput::Start { status: NetworkStatus::Stable, endpoint: "e".to_string() });
    cycle.step(SyncInput::Health { healthy: true });
    assert!(matches!(cycle.step(SyncInput::Rows(Ok(vec![]))), SyncAction::Done));
}

#[test]
fn failures_are_logged_as_errors() {
    let mut cycle = SyncCycle::new();
    cycle.step(SyncInput::Start { status: NetworkStatus::Stable, endpoint: "e".to_string() });
    cycle.step(SyncInput::Health { healthy: true });
    match cycle.step(SyncInput::Rows(Err(SentinelError::Database("disk I/O error".to_string())))) {
        SyncAction::Log { level, message } => {
            assert_eq!(level, LogLevel::Error);
            assert_eq!(message, "Failed to fetch: Database error: disk I/O error");
        }
        other => panic!("unexpected {:?}", other),
    }

    let mut cycle = SyncCycle::new();
    cycle.step(SyncInput::Start { status: NetworkStatus::Stable, endpoint: "e".to_string() });
    cycle.step(SyncInput::Health { healthy: true });
    cycle.step(SyncInput::Rows(Ok(vec![row(1, b"x")])));
    match cycle.step(SyncInput::Uploaded(UploadOutcome::Rejected { status: "500 Internal Server Error".to_string() })) {
        SyncAction::Log { message, .. } => assert_eq!(message, "Server rejected batch: HTTP 500 Internal Server Error"),
        other => panic!("unexpected {:?}", other),
    }

    let mut cycle = SyncCycle::new();
    cycle.step(SyncInput::Start { status: NetworkStatus::Stable, endpoint: "e".to_string() });
    cycle.step(SyncInput::Health { healthy: true });
    cycle.step(SyncInput::Rows(Ok(vec![row(1, b"x")])));
    match cycle.step(SyncInput::Uploaded(UploadOutcome::Failed { error: "connection refused".to_string() })) {
        SyncAction::Log { message, .. } => assert_eq!(message, "Upload failed: connection refused"),
        other => panic!("unexpected {:?}", other),
    }
}

#[test]
fn out_of_order_input_resets_the_cycle() {
    let mut cycle = SyncCycle::new();
    assert!(matches!(cycle.step(SyncInput::Health { healthy: true }), SyncAction::Done));
    assert!(matches!(cycle.step(SyncInput::Rows(Ok(vec![row(1, b"x")]))), SyncAction::Done));
    assert_eq!(cycle.current_stage(), SyncStage::Idle);
}

#[test]
fn endpoint_read_from_settings() {
    // The cycle uses the endpoint it is started with, not a fixed one.
    let mut cycle = SyncCycle::new();
    match cycle.step(SyncInput::Start { status: NetworkStatus::Stable, endpoint: "http://10.0.0.5:9000/ingest".to_string() }) {
        SyncAction::CheckHealth { url } => assert_eq!(url, "http://10.0.0.5:9000/ingest/health"),
        other => panic!("unexpected {:?}", other),
    }
    cycle.step(SyncInput::Health { healthy: true });
    match cycle.step(SyncInput::Rows(Ok(vec![row(1, b"x")]))) {
        SyncAction::Upload { endpoint, .. } => {
            assert_eq!(endpoint, "http://10.0.0.5:9000/ingest", "endpoint must reflect the updated settings value")
        }
        other => panic!("unexpected {:?}", other),
    }
}

#[test]
fn unsynced_rows_remain_after_offline_status() {
    // While offline the cycle asks for nothing: no fetch, no upload, no marking.
    let mut cycle = SyncCycle::new();
    let action = cycle.step(SyncInput::Start { status: NetworkStatus::Offline, endpoint: "http://c".to_string() });
    assert!(matches!(action, SyncAction::Done), "row must remain unsynced when network is Offline");
    assert!(matches!(cycle.step(SyncInput::Uploaded(UploadOutcome::Accepted)), SyncAction::Done));
}
