//! User-tunable gateway configuration and its defaults.
//!
//! Loading and saving (`sentinel_config.json` next to the database) is done by
//! the application; this module holds the values and the rules on them.

use vstd::prelude::*;

use crate::text::{decimal, u64_to_decimal};

verus! {

/// All user-tunable settings.
#[derive(Debug, Clone)]
pub struct Config {
    /// HTTP endpoint for cloud sync POST requests.
    pub cloud_endpoint: String,
    /// How often (seconds) the sync engine wakes; at least 5 is enforced on use.
    pub sync_interval_secs: u64,
    /// Host address the WebSocket ingestion server binds to.
    pub ws_host: String,
    /// Port the WebSocket ingestion server listens on.
    pub ws_port: u16,
    /// Maximum number of log entries kept in memory.
    pub log_max_entries: usize,
}

/// The shortest sync interval, in seconds, that the engine accepts.
pub const MIN_SYNC_INTERVAL_SECS: u64 = 5;

pub open spec fn spec_default_cloud_endpoint() -> Seq<char> {
    "http://127.0.0.1:9000/ingest"@
}

pub open spec fn spec_default_ws_host() -> Seq<char> {
    "0.0.0.0"@
}

/// The bundled local mock cloud server.
pub fn default_cloud_endpoint() -> (s: String)
    ensures
        s@ == spec_default_cloud_endpoint(),
{
    "http://127.0.0.1:9000/ingest".to_owned()
}

/// Ten seconds between sync cycles.
pub fn default_sync_interval_secs() -> (n: u64)
    ensures
        n == 10,
{
    10
}

/// Listen on every interface.
pub fn default_ws_host() -> (s: String)
    ensures
        s@ == spec_default_ws_host(),
{
    "0.0.0.0".to_owned()
}

/// The ingestion port.
pub fn default_ws_port() -> (p: u16)
    ensures
        p == 6767,
{
    6767
}

/// One hundred log entries.
pub fn default_log_max_entries() -> (n: usize)
    ensures
        n == 100,
{
    100
}

impl Default for Config {
    fn default() -> (c: Self)
        ensures
            c.cloud_endpoint@ == spec_default_cloud_endpoint(),
            c.sync_interval_secs == 10,
            c.ws_host@ == spec_default_ws_host(),
            c.ws_port == 6767,
            c.log_max_entries == 100,
    {
        Config {
            cloud_endpoint: default_cloud_endpoint(),
            sync_interval_secs: default_sync_interval_secs(),
            ws_host: default_ws_host(),
            ws_port: default_ws_port(),
            log_max_entries: default_log_max_entries(),
        }
    }
}

/// The bind address text `host:port`.
pub open spec fn bind_addr(host: Seq<char>, port: u16) -> Seq<char> {
    host + seq![':'] + decimal(port as nat)
}

impl Config {
    /// The sync interval with the 5-second minimum enforced.
    pub fn sync_interval_secs_validated(&self) -> (n: u64)
        ensures
            n == (if self.sync_interval_secs < MIN_SYNC_INTERVAL_SECS {
                MIN_SYNC_INTERVAL_SECS
            } else {
                self.sync_interval_secs
            }),
    {
        if self.sync_interval_secs < MIN_SYNC_INTERVAL_SECS {
            MIN_SYNC_INTERVAL_SECS
        } else {
            self.sync_interval_secs
        }
    }

    /// The full WebSocket bind address, `ws_host:ws_port`.
    pub fn ws_bind_addr(&self) -> (s: String)
        ensures
            s@ == bind_addr(self.ws_host@, self.ws_port),
    {
        let mut s = self.ws_host.clone();
        proof { reveal_strlit(":"); }
        s.append(":");
        s.append(u64_to_decimal(self.ws_port as u64).as_str());
        s
    }
}

} // verus!
