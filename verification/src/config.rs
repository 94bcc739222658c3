//! Settings of the service.

use vstd::prelude::*;

verus! {

/// The settings the service runs with.
#[derive(Debug)]
pub struct Config {
    pub host: String,
    pub port: u16,
    pub database_url: String,
    pub jwt_secret: String,
    pub jwt_access_expiry: i64,
    pub jwt_refresh_expiry: i64,
    pub sms_api_key: String,
    pub sms_sender: String,
    pub sms_enabled: bool,
    pub minio_endpoint: String,
    pub minio_access_key: String,
    pub minio_secret_key: String,
    pub minio_bucket: String,
    pub minio_public_url: Option<String>,
}

} // verus!
