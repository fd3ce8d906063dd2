//! The legacy settings record (cloud endpoint and bind address) and its
//! defaults. Reading and writing `settings.json` is done by the application.

use vstd::prelude::*;

verus! {

/// Persisted application settings.
#[derive(Debug, Clone)]
pub struct Settings {
    /// Cloud endpoint URL that receives batched encrypted payloads.
    pub cloud_endpoint: String,
    /// WebSocket server bind address (host:port).
    pub ws_bind_address: String,
}

impl Default for Settings {
    fn default() -> (s: Self)
        ensures
            s.cloud_endpoint@ == "http://127.0.0.1:9000/ingest"@,
            s.ws_bind_address@ == "0.0.0.0:6767"@,
    {
        Settings {
            cloud_endpoint: "http://127.0.0.1:9000/ingest".to_owned(),
            ws_bind_address: "0.0.0.0:6767".to_owned(),
        }
    }
}

#[verifier::external_type_specification]
#[verifier::external_body]
pub struct ExPath(std::path::Path);

#[verifier::external_type_specification]
#[verifier::external_body]
pub struct ExPathBuf(std::path::PathBuf);

/// The path that `Path::join` gives for `name` inside `dir`.
pub uninterp spec fn joined_path(dir: &std::path::Path, name: Seq<char>) -> std::path::PathBuf;

/// Calls `Path::join`: the path of `name` inside `dir` (`joined_path`).
#[verifier::external_body]
fn path_join(dir: &std::path::Path, name: &str) -> (p: std::path::PathBuf)
    ensures
        p == joined_path(dir, name@),
{
    dir.join(name)
}

/// The name of the settings file inside the app data directory.
pub open spec fn spec_settings_file_name() -> Seq<char> {
    "settings.json"@
}

impl Settings {
    /// The name of the settings file.
    pub fn file_name() -> (n: &'static str)
        ensures
            n@ == spec_settings_file_name(),
    {
        "settings.json"
    }

    /// The canonical path of the settings file inside `dir`.
    pub fn file_path(dir: &std::path::Path) -> (p: std::path::PathBuf)
        ensures
            p == joined_path(dir, spec_settings_file_name()),
    {
        path_join(dir, Self::file_name())
    }
}

} // verus!
