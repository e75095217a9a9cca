//! The records exchanged with the service, as plain values.

use vstd::prelude::*;

verus! {

/// What the authorization endpoint answers on success.
#[derive(Debug)]
pub struct AuthResponse {
    pub account_id: String,
    pub api_info: ApiInfo,
    pub application_key_expiration_timestamp: Option<String>,
    pub authorization_token: String,
}

#[derive(Debug)]
pub struct ApiInfo {
    pub storage_api: StorageApi,
}

#[derive(Debug)]
pub struct StorageApi {
    pub absolute_minimum_part_size: u64,
    pub api_url: String,
    pub bucket_id: Option<String>,
    pub bucket_name: Option<String>,
    pub capabilities: Vec<String>,
    pub download_url: String,
    pub info_type: String,
    pub name_prefix: Option<String>,
    pub recommended_part_size: u64,
    pub s3_api_url: String,
}

/// One bucket of the account, as the bucket list names it.
#[derive(Debug)]
pub struct Bucket {
    pub account_id: String,
    pub bucket_id: String,
    pub bucket_name: String,
    pub bucket_type: String,
    pub options: Vec<String>,
    pub revision: u64,
}

#[derive(Debug)]
pub struct ServerSideEncryption {
    pub algorithm: Option<String>,
    pub mode: Option<String>,
}

/// The structured body of a failed call.
#[derive(Debug)]
pub struct ApiError {
    pub code: String,
    pub message: String,
    pub status: u16,
}

/// What came back from the authorization endpoint.
#[derive(Debug)]
pub enum AuthReply {
    Granted(AuthResponse),
    Refused(ApiError),
}

/// Where a file or its parts are sent, and the token that authorizes sending
/// them.
#[derive(Debug)]
pub struct UploadTarget {
    pub upload_url: String,
    pub authorization_token: String,
}

} // verus!
