//! Configuration and the immutable startup context.
//!
//! The root folder id is resolved once, before the pipeline starts, and
//! passed read-only from then on; the rest of the configuration is immutable
//! throughout.

use vstd::prelude::*;

verus! {

/// Configuration of the proxy.
#[derive(Debug, Clone)]
pub struct Config {
    pub bind_address: String,
    pub download_directory: String,
    pub download_workers: usize,
    pub loglevel: String,
    pub orchestration_workers: usize,
    pub password: String,
    /// Polling interval in seconds, shared by the producer and both
    /// watchers.
    pub polling_interval: u64,
    pub port: u16,
    /// Case-insensitive folder names whose subtrees are never downloaded.
    pub skip_directories: Vec<String>,
    pub uid: u32,
    pub username: String,
    pub putio: PutioConfig,
}

/// Credentials for the remote download service.
#[derive(Debug, Clone)]
pub struct PutioConfig {
    pub api_key: String,
}

/// Location and credentials of a downstream media-management instance.
#[derive(Debug, Clone)]
pub struct ArrConfig {
    pub url: String,
    pub api_key: String,
}

/// The immutable context every component receives at startup: the
/// configuration and the root folder id resolved once before the pipeline
/// starts.
#[derive(Debug)]
pub struct AppData {
    pub config: Config,
    pub root_folder_id: u64,
}

/// Whether a caller's basic-auth credentials match the configured ones.
pub fn credentials_valid(config: &Config, username: &String, password: &String) -> (r: bool)
    ensures
        r == (username@ == config.username@ && password@ == config.password@),
{
    let user_ok = username.eq(&config.username);
    let pass_ok = password.eq(&config.password);
    user_ok && pass_ok
}

} // verus!
