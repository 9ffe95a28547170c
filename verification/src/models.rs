//! Request, response and session-row types of the upload facade, and the
//! size limits it advertises.

use vstd::prelude::*;

verus! {

/// Largest chunk size advertised to the client at `start`: 16 MiB. The
/// client is expected to segment its file into chunks of at most this many
/// bytes; the facade does not enforce it beyond the multipart body limit.
pub const MAX_CHUNK_SIZE: u64 = 16777216;

/// Largest multipart body accepted on `continue`: 128 MiB. Enforced by the
/// transport layer of the host process.
pub const MULTIPART_BODY_LIMIT: u64 = 134217728;

/// Largest `upload_id` text part accepted in a multipart body: 1 KiB.
/// Enforced by the transport layer of the host process.
pub const UPLOAD_ID_FIELD_LIMIT: u64 = 1024;

/// One persistent session row, keyed by `upload_id`.
#[derive(Clone, Debug)]
pub struct UploadInfo {
    pub upload_id: String,
    pub file_name: String,
    pub file_size: u64,
    pub file_hash: String,
    pub content_type: String,
    pub blob_access_token: String,
    pub blob_file_hash: String,
}

/// Backend coordinates: the storage account and the container every blob of
/// this facade lives in.
#[derive(Clone, Debug)]
pub struct Config {
    pub account: String,
    pub container: String,
}

impl Config {
    pub fn new(account: &String, container: &String) -> (r: Config)
        ensures
            r.account == *account,
            r.container == *container,
    {
        Config { account: account.clone(), container: container.clone() }
    }
}

/// A handle to a backend credential capability held by the host process.
/// The facade never reads inside the credential; it only binds one to a
/// session at `start` and hands it back on every `continue`.
#[derive(Clone, Copy, Debug, PartialEq, Eq, Structural)]
pub struct Credential {
    pub id: u64,
}

/// Body of `POST start_upload`.
#[derive(Clone, Debug)]
pub struct StartUploadRequest {
    pub file_name: String,
    pub file_size: u64,
    pub file_hash: String,
    pub content_type: String,
}

/// Body of `POST continue_upload`, already decoded from multipart form
/// data by the transport: the `upload_id` text part and the optional
/// `chunk_data` binary part.
#[derive(Clone, Debug)]
pub struct ContinueUploadRequest {
    pub upload_id: String,
    pub chunk_data: Option<Vec<u8>>,
}

/// Body of `POST finish_upload`.
#[derive(Clone, Debug)]
pub struct FinishUploadRequest {
    pub upload_id: String,
}

/// Success body of `start_upload` and `continue_upload`. `chunk_size` is
/// `Some(MAX_CHUNK_SIZE)` on `start` and `None` on `continue`.
#[derive(Clone, Debug)]
pub struct UploadResponse {
    pub upload_id: String,
    pub chunk_size: Option<u64>,
}

/// Success body of `finish_upload`. `file_hash` is reserved for a future
/// server-computed hash and is always empty.
#[derive(Clone, Debug)]
pub struct FinishResponse {
    pub upload_id: String,
    pub file_hash: String,
}

/// Error body of every failed request: the fixed reason string, and
/// nothing else. Mapped by the host process to HTTP 500.
#[derive(Clone, Debug)]
pub struct ErrorResponse {
    pub error: String,
}

impl ErrorResponse {
    pub fn new(error: &str) -> (r: ErrorResponse)
        ensures
            r.error@ == error@,
    {
        ErrorResponse { error: error.to_owned() }
    }
}

} // verus!
