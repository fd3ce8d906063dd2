use sentinel::commands::{
    apply_settings, config_dto, decrypted_payloads, network_status_dto, network_status_to_str, validate_config, ConfigDto,
};
use sentinel::config::Config;
use sentinel::crypto::encrypt_payload;
use sentinel::db::{check_marked, sqlcipher_key_pragma, PayloadRow};
use sentinel::error::SentinelError;
use sentinel::state::NetworkStatus;

const TEST_KEY: [u8; 32] = *b"sentinel-test-key-fixed-32-bytes";

#[test]
fn network_status_to_str_covers_all_variants() {
    assert_eq!(network_status_to_str(&NetworkStatus::Unknown), "Unknown");
    assert_eq!(network_status_to_str(&NetworkStatus::Stable), "Stable");
    assert_eq!(network_status_to_str(&NetworkStatus::Degraded), "Degraded");
    assert_eq!(network_status_to_str(&NetworkStatus::Offline), "Offline");
    assert_eq!(network_status_dto(&NetworkStatus::Offline).status, "Offline");
}

fn dto(endpoint: &str, host: &str, port: u16, log_max: usize) -> ConfigDto {
    ConfigDto {
        cloud_endpoint: endpoint.to_string(),
        sync_interval_secs: 30,
        ws_host: host.to_string(),
        ws_port: port,
        log_max_entries: log_max,
    }
}

#[test]
fn validate_config_trims_and_accepts() {
    let c = validate_config(&dto("  http://10.0.0.5:9000/ingest \t", "\u{3000}0.0.0.0\n", 7000, 10)).unwrap();
    assert_eq!(c.cloud_endpoint, "http://10.0.0.5:9000/ingest");
    assert_eq!(c.ws_host, "0.0.0.0");
    assert_eq!(c.ws_port, 7000);
    assert_eq!(c.sync_interval_secs, 30);
    assert_eq!(c.log_max_entries, 10);
}

#[test]
fn validate_config_reports_each_error() {
    assert_eq!(validate_config(&dto("   ", "h", 1, 10)).unwrap_err(), "cloud_endpoint must not be empty");
    assert_eq!(validate_config(&dto("e", " ", 1, 10)).unwrap_err(), "ws_host must not be empty");
    assert_eq!(validate_config(&dto("e", "h", 0, 10)).unwrap_err(), "ws_port must be a valid port number (1–65535)");
    assert_eq!(validate_config(&dto("e", "h", 1, 9)).unwrap_err(), "log_max_entries must be at least 10");
}

#[test]
fn apply_settings_refuses_port_zero() {
    let mut config = Config::default();
    let err = apply_settings(&mut config, dto("x", "y", 0, 10)).unwrap_err();
    assert!(matches!(err, SentinelError::Other(ref m) if m == "Port 0 is reserved by the OS. Please choose a port between 1024-65535."));
    assert_eq!(config.ws_port, 6767);
    apply_settings(&mut config, dto("http://10.0.0.5:9000/ingest", "10.0.0.1", 8080, 10)).unwrap();
    assert_eq!(config.cloud_endpoint, "http://10.0.0.5:9000/ingest");
    assert_eq!(config.ws_host, "10.0.0.1");
    assert_eq!(config.ws_port, 8080);
    assert_eq!(config.log_max_entries, 100);
    let d = config_dto(&config);
    assert_eq!(d.ws_host, "10.0.0.1");
    assert_eq!(d.ws_port, 8080);
    assert_eq!(d.log_max_entries, 100);
}

#[test]
fn decrypted_payloads_show_text_or_error() {
    let good = encrypt_payload(b"temp=21.5", &TEST_KEY).unwrap();
    let rows = vec![
        PayloadRow { id: 1, device_id: "d1".to_string(), encrypted_blob: good, received_at: 10 },
        PayloadRow { id: 2, device_id: "d2".to_string(), encrypted_blob: vec![1, 2, 3], received_at: 11 },
        PayloadRow { id: 3, device_id: "d3".to_string(), encrypted_blob: vec![0; 40], received_at: 12 },
    ];
    let shown = decrypted_payloads(&rows, &TEST_KEY);
    assert_eq!(shown.len(), 3);
    assert_eq!(shown[0].decrypted_data, "temp=21.5");
    assert_eq!(shown[0].id, 1);
    assert_eq!(shown[1].decrypted_data, "[Decryption Error: Crypto error: blob too short to contain nonce]");
    assert_eq!(shown[2].decrypted_data, "[Decryption Error: Crypto error: aead::Error]");
    assert_eq!(shown[2].device_id, "d3");
}

#[test]
fn check_marked_reports_unknown_ids() {
    assert!(check_marked(1, 5).is_ok());
    assert_eq!(check_marked(0, 42).unwrap_err().to_message(), "Error: mark_synced: no row found with id 42");
    assert_eq!(check_marked(0, -7).unwrap_err().to_message(), "Error: mark_synced: no row found with id -7");
    assert_eq!(
        check_marked(0, i64::MIN).unwrap_err().to_message(),
        "Error: mark_synced: no row found with id -9223372036854775808"
    );
}

#[test]
fn key_pragma_uses_lowercase_hex() {
    let pragma = sqlcipher_key_pragma(&TEST_KEY);
    assert_eq!(
        pragma,
        "PRAGMA key = \"x'73656e74696e656c2d746573742d6b65792d66697865642d33322d6279746573'\";\n"
    );
}
