//! Verified core of the SENTINEL IoT edge gateway: payload sealing, device
//! pairing and authentication, network health classification, the rolling
//! event log, the cloud sync cycle and the configuration rules.

pub mod commands;
pub mod config;
pub mod crypto;
pub mod db;
pub mod encoding;
pub mod error;
pub mod logging;
pub mod network;
pub mod pairing;
pub mod settings;
pub mod state;
pub mod sync;
pub mod text;
pub mod ws;
