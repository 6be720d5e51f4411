//! The runtime settings of the forum, and the object-store settings taken from them.
use vstd::prelude::*;

verus! {

/// The settings the forum runs with.
#[derive(Clone, Debug, PartialEq, Eq)]
pub struct RuntimeConfig {
    pub database_url: String,
    pub redis_url: String,
    pub nats_url: String,
    pub elasticsearch_url: String,
    pub rustfs_endpoint: String,
    pub rustfs_region: String,
    pub rustfs_bucket: String,
    pub rustfs_access_key: String,
    pub rustfs_secret_key: String,
    pub rustfs_force_path_style: bool,
    pub integration_worker_enabled: bool,
    pub integration_worker_batch_size: i64,
    pub integration_worker_max_attempts: i32,
    pub integration_worker_interval_millis: u64,
}

/// Where and how uploaded objects are stored.
#[derive(Clone, Debug, PartialEq, Eq)]
pub struct RustfsObjectStoreConfig {
    pub endpoint_url: String,
    pub region: String,
    pub bucket: String,
    pub access_key_id: String,
    pub secret_access_key: String,
    pub force_path_style: bool,
}

impl RustfsObjectStoreConfig {
    /// The object-store settings of the runtime settings.
    pub fn from_runtime_config(config: &RuntimeConfig) -> (r: RustfsObjectStoreConfig)
        ensures
            r.endpoint_url == config.rustfs_endpoint,
            r.region == config.rustfs_region,
            r.bucket == config.rustfs_bucket,
            r.access_key_id == config.rustfs_access_key,
            r.secret_access_key == config.rustfs_secret_key,
            r.force_path_style == config.rustfs_force_path_style,
    {
        RustfsObjectStoreConfig {
            endpoint_url: config.rustfs_endpoint.clone(),
            region: config.rustfs_region.clone(),
            bucket: config.rustfs_bucket.clone(),
            access_key_id: config.rustfs_access_key.clone(),
            secret_access_key: config.rustfs_secret_key.clone(),
            force_path_style: config.rustfs_force_path_style,
        }
    }
}

} // verus!
