use sentinel::config::{
    default_cloud_endpoint, default_log_max_entries, default_sync_interval_secs, default_ws_host, default_ws_port,
    Config,
};
use sentinel::settings::Settings;

#[test]
fn sync_interval_validated_enforces_minimum() {
    let mut config = Config::default();

    config.sync_interval_secs = 0;
    assert_eq!(config.sync_interval_secs_validated(), 5, "0s should clamp to 5s minimum");

    config.sync_interval_secs = 3;
    assert_eq!(config.sync_interval_secs_validated(), 5, "3s should clamp to 5s minimum");

    config.sync_interval_secs = 5;
    assert_eq!(config.sync_interval_secs_validated(), 5, "5s is the minimum, no change");

    config.sync_interval_secs = 60;
    assert_eq!(config.sync_interval_secs_validated(), 60, "60s should pass through unchanged");
}

#[test]
fn ws_bind_addr_combines_host_and_port() {
    let mut config = Config::default();
    config.ws_host = "10.0.0.1".to_string();
    config.ws_port = 8080;

    assert_eq!(config.ws_bind_addr(), "10.0.0.1:8080");
}

#[test]
fn default_ws_bind_addr_is_correct() {
    let config = Config::default();
    assert_eq!(config.ws_bind_addr(), "0.0.0.0:6767");
}

#[test]
fn ws_bind_addr_renders_port_extremes() {
    let mut config = Config::default();
    config.ws_host = "h".to_string();
    config.ws_port = 0;
    assert_eq!(config.ws_bind_addr(), "h:0");
    config.ws_port = 65535;
    assert_eq!(config.ws_bind_addr(), "h:65535");
}

#[test]
fn default_config_values() {
    let config = Config::default();
    assert_eq!(config.cloud_endpoint, "http://127.0.0.1:9000/ingest");
    assert_eq!(config.sync_interval_secs, 10);
    assert_eq!(config.ws_port, 6767);
    assert_eq!(config.ws_host, "0.0.0.0");
    assert_eq!(config.log_max_entries, 100);
    assert_eq!(default_cloud_endpoint(), "http://127.0.0.1:9000/ingest");
    assert_eq!(default_sync_interval_secs(), 10);
    assert_eq!(default_ws_host(), "0.0.0.0");
    assert_eq!(default_ws_port(), 6767);
    assert_eq!(default_log_max_entries(), 100);
}

#[test]
fn default_settings_have_correct_values() {
    let s = Settings::default();
    assert_eq!(s.cloud_endpoint, "http://127.0.0.1:9000/ingest");
    assert_eq!(s.ws_bind_address, "0.0.0.0:6767");
}

#[test]
fn settings_file_is_inside_the_directory() {
    let dir = std::path::Path::new("data-dir");
    assert_eq!(Settings::file_name(), "settings.json");
    assert_eq!(Settings::file_path(dir), dir.join("settings.json"));
}
