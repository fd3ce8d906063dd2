//! The data behind the dashboard's commands: transfer objects and the rules
//! that fill them, validate user edits of the configuration, and present
//! decrypted payloads. The command plumbing itself is the application's.

use vstd::prelude::*;

use crate::config::Config;
use crate::crypto::{aes256gcm_open, decrypt_payload, NONCE_LEN};
use crate::db::PayloadRow;
use crate::error::SentinelError;
use crate::logging::{LogEvent, LogLevel, LogSubsystem, SyncEvent};
use crate::state::NetworkStatus;
use crate::text::{trim_spec, trim_text};

verus! {

#[derive(Debug)]
pub struct NetworkStatusDto {
    pub status: String,
}

#[derive(Debug)]
pub struct StorageStatsDto {
    pub total_rows: usize,
    pub unsynced_rows: usize,
    pub size_kb: u64,
}

#[derive(Debug)]
pub struct LogEventDto {
    pub timestamp: i64,
    pub level: String,
    pub subsystem: String,
    pub message: String,
}

#[derive(Debug)]
pub struct SyncEventDto {
    pub message: String,
    pub timestamp: i64,
}

#[derive(Debug)]
pub struct DecryptedPayloadDto {
    pub id: i64,
    pub device_id: String,
    pub decrypted_data: String,
    pub received_at: i64,
}

#[derive(Debug)]
pub struct ConfigDto {
    pub cloud_endpoint: String,
    pub sync_interval_secs: u64,
    pub ws_host: String,
    pub ws_port: u16,
    pub log_max_entries: usize,
}

/// The display name of a network status.
pub open spec fn spec_status_name(status: NetworkStatus) -> Seq<char> {
    match status {
        NetworkStatus::Unknown => "Unknown"@,
        NetworkStatus::Stable => "Stable"@,
        NetworkStatus::Degraded => "Degraded"@,
        NetworkStatus::Offline => "Offline"@,
    }
}

/// The display name of a network status.
pub fn network_status_to_str(status: &NetworkStatus) -> (s: &'static str)
    ensures
        s@ == spec_status_name(*status),
{
    match status {
        NetworkStatus::Unknown => "Unknown",
        NetworkStatus::Stable => "Stable",
        NetworkStatus::Degraded => "Degraded",
        NetworkStatus::Offline => "Offline",
    }
}

/// The status pill's data.
pub fn network_status_dto(status: &NetworkStatus) -> (d: NetworkStatusDto)
    ensures
        d.status@ == spec_status_name(*status),
{
    NetworkStatusDto { status: network_status_to_str(status).to_owned() }
}

/// A level's name as the dashboard shows it: its variant name in lower case.
pub open spec fn spec_level_name(level: LogLevel) -> Seq<char> {
    match level {
        LogLevel::Trace => "trace"@,
        LogLevel::Debug => "debug"@,
        LogLevel::Info => "info"@,
        LogLevel::Warn => "warn"@,
        LogLevel::Error => "error"@,
    }
}

/// A subsystem's name as the dashboard shows it: its variant name.
pub open spec fn spec_subsystem_name(subsystem: LogSubsystem) -> Seq<char> {
    match subsystem {
        LogSubsystem::WS => "WS"@,
        LogSubsystem::Sync => "Sync"@,
        LogSubsystem::DB => "DB"@,
        LogSubsystem::Network => "Network"@,
        LogSubsystem::Config => "Config"@,
        LogSubsystem::General => "General"@,
        LogSubsystem::Auth => "Auth"@,
    }
}

/// A level's `Debug` rendering: its variant name.
pub open spec fn spec_level_variant_name(level: LogLevel) -> Seq<char> {
    match level {
        LogLevel::Trace => "Trace"@,
        LogLevel::Debug => "Debug"@,
        LogLevel::Info => "Info"@,
        LogLevel::Warn => "Warn"@,
        LogLevel::Error => "Error"@,
    }
}

/// A character in ASCII lower case.
pub open spec fn ascii_lower_char(c: char) -> char {
    if 'A' <= c && c <= 'Z' {
        ((c as u32) + 32) as char
    } else {
        c
    }
}

/// A text in ASCII lower case.
pub open spec fn ascii_lowercase(text: Seq<char>) -> Seq<char> {
    text.map_values(|c: char| ascii_lower_char(c))
}

/// The dashboard shows a level as its variant name in lower case.
pub proof fn lemma_level_name_is_lowercased_variant(level: LogLevel)
    ensures
        spec_level_name(level) == ascii_lowercase(spec_level_variant_name(level)),
{
    reveal_strlit("Trace");
    reveal_strlit("trace");
    reveal_strlit("Debug");
    reveal_strlit("debug");
    reveal_strlit("Info");
    reveal_strlit("info");
    reveal_strlit("Warn");
    reveal_strlit("warn");
    reveal_strlit("Error");
    reveal_strlit("error");
    assert(spec_level_name(level) =~= ascii_lowercase(spec_level_variant_name(level)));
}

/// Distinct levels are shown under distinct names.
pub proof fn lemma_level_names_distinct(a: LogLevel, b: LogLevel)
    ensures
        spec_level_name(a) == spec_level_name(b) <==> a == b,
{
    reveal_strlit("trace");
    reveal_strlit("debug");
    reveal_strlit("info");
    reveal_strlit("warn");
    reveal_strlit("error");
    if a != b {
        assert(spec_level_name(a).len() != spec_level_name(b).len()
            || spec_level_name(a)[0] != spec_level_name(b)[0]);
    }
}

pub fn level_name(level: LogLevel) -> (s: &'static str)
    ensures
        s@ == spec_level_name(level),
{
    match level {
        LogLevel::Trace => "trace",
        LogLevel::Debug => "debug",
        LogLevel::Info => "info",
        LogLevel::Warn => "warn",
        LogLevel::Error => "error",
    }
}

pub fn subsystem_name(subsystem: LogSubsystem) -> (s: &'static str)
    ensures
        s@ == spec_subsystem_name(subsystem),
{
    match subsystem {
        LogSubsystem::WS => "WS",
        LogSubsystem::Sync => "Sync",
        LogSubsystem::DB => "DB",
        LogSubsystem::Network => "Network",
        LogSubsystem::Config => "Config",
        LogSubsystem::General => "General",
        LogSubsystem::Auth => "Auth",
    }
}

/// The dashboard form of a log event.
pub open spec fn presents_event(d: LogEventDto, e: LogEvent) -> bool {
    &&& d.timestamp == e.timestamp
    &&& d.level@ == spec_level_name(e.level)
    &&& d.subsystem@ == spec_subsystem_name(e.subsystem)
    &&& d.message@ == e.message@
}

/// The log buffer as the dashboard shows it, in the same order.
pub fn log_buffer_dtos(events: &Vec<LogEvent>) -> (ds: Vec<LogEventDto>)
    ensures
        ds@.len() == events@.len(),
        forall|i: int| 0 <= i < events@.len() ==> presents_event(#[trigger] ds@[i], events@[i]),
{
    let mut ds: Vec<LogEventDto> = Vec::new();
    let mut i: usize = 0;
    while i < events.len()
        invariant
            i <= events@.len(),
            ds@.len() == i,
            forall|j: int| 0 <= j < i ==> presents_event(#[trigger] ds@[j], events@[j]),
        decreases events@.len() - i,
    {
        let e = &events[i];
        ds.push(
            LogEventDto {
                timestamp: e.timestamp,
                level: level_name(e.level).to_owned(),
                subsystem: subsystem_name(e.subsystem).to_owned(),
                message: e.message.clone(),
            },
        );
        i = i + 1;
    }
    ds
}

/// The legacy sync log as the dashboard shows it, in the same order.
pub fn sync_log_dtos(events: &Vec<SyncEvent>) -> (ds: Vec<SyncEventDto>)
    ensures
        ds@.len() == events@.len(),
        forall|i: int|
            0 <= i < events@.len() ==> (#[trigger] ds@[i]).message@ == events@[i].message@
                && ds@[i].timestamp == events@[i].timestamp,
{
    let mut ds: Vec<SyncEventDto> = Vec::new();
    let mut i: usize = 0;
    while i < events.len()
        invariant
            i <= events@.len(),
            ds@.len() == i,
            forall|j: int|
                0 <= j < i ==> (#[trigger] ds@[j]).message@ == events@[j].message@ && ds@[j].timestamp
                    == events@[j].timestamp,
        decreases events@.len() - i,
    {
        ds.push(SyncEventDto { message: events[i].message.clone(), timestamp: events[i].timestamp });
        i = i + 1;
    }
    ds
}

/// The configuration as the settings form shows it.
pub fn config_dto(config: &Config) -> (d: ConfigDto)
    ensures
        d.cloud_endpoint@ == config.cloud_endpoint@,
        d.sync_interval_secs == config.sync_interval_secs,
        d.ws_host@ == config.ws_host@,
        d.ws_port == config.ws_port,
        d.log_max_entries == config.log_max_entries,
{
    ConfigDto {
        cloud_endpoint: config.cloud_endpoint.clone(),
        sync_interval_secs: config.sync_interval_secs,
        ws_host: config.ws_host.clone(),
        ws_port: config.ws_port,
        log_max_entries: config.log_max_entries,
    }
}

/// The smallest log size the settings form accepts.
pub const MIN_LOG_ENTRIES: usize = 10;

/// Validates an edited configuration and returns the configuration to store:
/// endpoint and host must not be blank, the port must not be 0, and at least
/// 10 log entries must be kept; endpoint and host are stored trimmed.
pub fn validate_config(payload: &ConfigDto) -> (r: Result<Config, String>)
    ensures
        trim_spec(payload.cloud_endpoint@).len() == 0 ==> (r matches Err(m)
            && m@ == "cloud_endpoint must not be empty"@),
        trim_spec(payload.cloud_endpoint@).len() > 0 && trim_spec(payload.ws_host@).len() == 0 ==> (r matches Err(m)
            && m@ == "ws_host must not be empty"@),
        trim_spec(payload.cloud_endpoint@).len() > 0 && trim_spec(payload.ws_host@).len() > 0 && payload.ws_port == 0
            ==> (r matches Err(m) && m@ == "ws_port must be a valid port number (1–65535)"@),
        trim_spec(payload.cloud_endpoint@).len() > 0 && trim_spec(payload.ws_host@).len() > 0 && payload.ws_port != 0
            && payload.log_max_entries < MIN_LOG_ENTRIES ==> (r matches Err(m)
            && m@ == "log_max_entries must be at least 10"@),
        r is Ok <==> (trim_spec(payload.cloud_endpoint@).len() > 0 && trim_spec(payload.ws_host@).len() > 0
            && payload.ws_port != 0 && payload.log_max_entries >= MIN_LOG_ENTRIES),
        r matches Ok(c) ==> {
            &&& c.cloud_endpoint@ == trim_spec(payload.cloud_endpoint@)
            &&& c.sync_interval_secs == payload.sync_interval_secs
            &&& c.ws_host@ == trim_spec(payload.ws_host@)
            &&& c.ws_port == payload.ws_port
            &&& c.log_max_entries == payload.log_max_entries
        },
{
    let endpoint = trim_text(payload.cloud_endpoint.as_str());
    let host = trim_text(payload.ws_host.as_str());
    if endpoint.as_str().unicode_len() == 0 {
        return Err("cloud_endpoint must not be empty".to_owned());
    }
    if host.as_str().unicode_len() == 0 {
        return Err("ws_host must not be empty".to_owned());
    }
    if payload.ws_port == 0 {
        return Err("ws_port must be a valid port number (1–65535)".to_owned());
    }
    if payload.log_max_entries < MIN_LOG_ENTRIES {
        return Err("log_max_entries must be at least 10".to_owned());
    }
    Ok(
        Config {
            cloud_endpoint: endpoint,
            sync_interval_secs: payload.sync_interval_secs,
            ws_host: host,
            ws_port: payload.ws_port,
            log_max_entries: payload.log_max_entries,
        },
    )
}

/// Applies the settings form to the configuration: port 0 is refused; the
/// endpoint, host and port are taken as they are; the rest is kept.
pub fn apply_settings(config: &mut Config, settings: ConfigDto) -> (r: Result<(), SentinelError>)
    ensures
        r is Ok <==> settings.ws_port != 0,
        r matches Err(e) ==> (e matches SentinelError::Other(m)
            && m@ == "Port 0 is reserved by the OS. Please choose a port between 1024-65535."@),
        r is Err ==> *final(config) == *old(config),
        r is Ok ==> final(config).cloud_endpoint == settings.cloud_endpoint
            && final(config).ws_port == settings.ws_port
            && final(config).ws_host == settings.ws_host
            && final(config).sync_interval_secs == old(config).sync_interval_secs
            && final(config).log_max_entries == old(config).log_max_entries,
{
    if settings.ws_port == 0 {
        return Err(
            SentinelError::Other("Port 0 is reserved by the OS. Please choose a port between 1024-65535.".to_owned()),
        );
    }
    config.cloud_endpoint = settings.cloud_endpoint;
    config.ws_port = settings.ws_port;
    config.ws_host = settings.ws_host;
    Ok(())
}

/// The text that a lossy UTF-8 decoding of some bytes gives.
pub uninterp spec fn utf8_lossy(bytes: Seq<u8>) -> Seq<char>;

/// Calls `String::from_utf8_lossy` and takes the text it gives: valid UTF-8
/// decodes as it is; each invalid sequence becomes U+FFFD.
#[verifier::external_body]
fn utf8_lossy_text(bytes: &[u8]) -> (s: String)
    ensures
        s@ == utf8_lossy(bytes@),
        vstd::utf8::valid_utf8(bytes@) ==> s@ == vstd::utf8::decode_utf8(bytes@),
{
    String::from_utf8_lossy(bytes).into_owned()
}

/// The blob's nonce and sealed part, opened under `key`.
pub open spec fn opened(blob: Seq<u8>, key: Seq<u8>) -> Option<Seq<u8>> {
    aes256gcm_open(key, blob.subrange(0, NONCE_LEN as int), blob.subrange(NONCE_LEN as int, blob.len() as int))
}

/// The text the payload viewer shows for a blob: the decrypted bytes read as
/// UTF-8 (lossily), or `[Decryption Error: <error rendering>]`.
pub open spec fn spec_shown_text(blob: Seq<u8>, key: Seq<u8>) -> Seq<char> {
    if blob.len() < NONCE_LEN {
        "[Decryption Error: Crypto error: blob too short to contain nonce]"@
    } else {
        match opened(blob, key) {
            Some(p) => utf8_lossy(p),
            None => "[Decryption Error: Crypto error: aead::Error]"@,
        }
    }
}

/// The viewer's entry for a row.
pub open spec fn presents_payload(d: DecryptedPayloadDto, row: PayloadRow, key: Seq<u8>) -> bool {
    &&& d.id == row.id
    &&& d.device_id == row.device_id
    &&& d.received_at == row.received_at
    &&& d.decrypted_data@ == spec_shown_text(row.encrypted_blob@, key)
}

/// What the payload viewer shows for a stored row: the decrypted text, or
/// `[Decryption Error: <error>]`.
pub fn decrypted_payload_dto(row: &PayloadRow, key: &[u8; 32]) -> (d: DecryptedPayloadDto)
    ensures
        presents_payload(d, *row, key@),
{
    proof {
        reveal_strlit("[Decryption Error: ");
        reveal_strlit("]");
        reveal_strlit("Crypto error: ");
        reveal_strlit("blob too short to contain nonce");
        reveal_strlit("aead::Error");
        reveal_strlit("[Decryption Error: Crypto error: blob too short to contain nonce]");
        reveal_strlit("[Decryption Error: Crypto error: aead::Error]");
    }
    let ghost blob = row.encrypted_blob@;
    let data = match decrypt_payload(row.encrypted_blob.as_slice(), key) {
        Ok(bytes) => {
            assert(opened(blob, key@) == Some(bytes@));
            utf8_lossy_text(bytes.as_slice())
        },
        Err(e) => {
            let mut m = "[Decryption Error: ".to_owned();
            m.append(e.to_message().as_str());
            m.append("]");
            proof {
                if blob.len() < NONCE_LEN {
                    assert(m@ =~= "[Decryption Error: Crypto error: blob too short to contain nonce]"@);
                } else {
                    assert(opened(blob, key@) is None);
                    assert(m@ =~= "[Decryption Error: Crypto error: aead::Error]"@);
                }
            }
            m
        },
    };
    DecryptedPayloadDto { id: row.id, device_id: row.device_id.clone(), decrypted_data: data, received_at: row.received_at }
}

/// The payload viewer's list, in the order of the rows.
pub fn decrypted_payloads(rows: &Vec<PayloadRow>, key: &[u8; 32]) -> (ds: Vec<DecryptedPayloadDto>)
    ensures
        ds@.len() == rows@.len(),
        forall|i: int| 0 <= i < rows@.len() ==> presents_payload(#[trigger] ds@[i], rows@[i], key@),
{
    let mut ds: Vec<DecryptedPayloadDto> = Vec::new();
    let mut i: usize = 0;
    while i < rows.len()
        invariant
            i <= rows@.len(),
            ds@.len() == i,
            forall|j: int| 0 <= j < i ==> presents_payload(#[trigger] ds@[j], rows@[j], key@),
        decreases rows@.len() - i,
    {
        ds.push(decrypted_payload_dto(&rows[i], key));
        i = i + 1;
    }
    ds
}

} // verus!
