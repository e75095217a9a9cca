//! The choice between the two upload paths, and the single-request path.

use vstd::prelude::*;
use vstd::string::StringSliceAdditionalSpecFns;
use crate::api::UploadTarget;
use crate::error::Error;
use crate::hasher::{sha1_hex_digest, ContentHasher};
use crate::media::{
    chosen_content_type, content_type_for, guessed_media_type, percent_encode, percent_encoded,
    text_of,
};
use crate::parts::{upload_file_parts, ChunkedUpload, UploadAction};

verus! {

/// Files of at least this many bytes are always uploaded in parts.
pub const LARGE_FILE_THRESHOLD: u64 = 1_073_741_824;

/// How a file is going to be uploaded.
pub enum Upload {
    /// In parts: the engine, and the first thing it asks for.
    Parts(ChunkedUpload, UploadAction),
    /// In one request: an upload URL for the bucket is to be obtained.
    Whole { bucket_id: String },
}

/// The request that uploads a whole file: where it goes, and the headers that
/// accompany the file's bytes.
#[derive(Debug)]
pub struct FileUpload {
    pub upload_url: String,
    pub authorization: String,
    /// The destination, percent-encoded.
    pub file_name: String,
    pub content_type: String,
    pub content_length: u64,
    /// The digest of the file's bytes, in lowercase hexadecimal.
    pub content_sha1: String,
}

/// Whether a file of `len` bytes goes up in parts.
pub open spec fn goes_in_parts(parts: bool, len: u64) -> bool {
    parts || len >= LARGE_FILE_THRESHOLD
}

/// Decides how the file at `path` is uploaded, and begins. What is not a
/// regular file is turned away first, a bucket without a known identifier
/// next; then large files, and any file on request, go up in parts, the
/// others in one request.
pub fn upload_file(
    path: &str,
    is_file: bool,
    parts: bool,
    bucket: &str,
    bucket_id: Option<&str>,
    len: u64,
    dest: &str,
    content_type: Option<&str>,
) -> (r: Result<Upload, Error>)
    ensures
        !is_file ==> (r matches Err(Error::NotAFile { path: p }) && p@ == path@),
        is_file && bucket_id is None ==> (r matches Err(Error::BucketNotFound { bucket: b }) && b@
            == bucket@),
        is_file && bucket_id is Some && goes_in_parts(parts, len) ==> (r matches Ok(
            Upload::Parts(upload, action),
        ) && upload.begun(action, bucket_id.unwrap()@, len, dest@, text_of(content_type))),
        is_file && bucket_id is Some && !goes_in_parts(parts, len) ==> (r matches Ok(
            Upload::Whole { bucket_id: b },
        ) && b@ == bucket_id.unwrap()@),
{
    if !is_file {
        return Err(Error::NotAFile { path: path.to_owned() });
    }
    match bucket_id {
        None => Err(Error::BucketNotFound { bucket: bucket.to_owned() }),
        Some(id) => {
            if parts || len >= LARGE_FILE_THRESHOLD {
                let (upload, action) = upload_file_parts(id, len, dest, content_type);
                Ok(Upload::Parts(upload, action))
            } else {
                Ok(Upload::Whole { bucket_id: id.to_owned() })
            }
        },
    }
}

/// Builds the request that uploads a whole file of `len` bytes to `dest`,
/// once its content has been hashed.
pub fn upload_file_non_parts(
    target: UploadTarget,
    hasher: ContentHasher,
    len: u64,
    dest: &str,
    content_type: Option<&str>,
) -> (request: FileUpload)
    requires
        hasher.wf(),
    ensures
        request.upload_url == target.upload_url,
        request.authorization == target.authorization_token,
        request.file_name@ == percent_encoded(dest.spec_bytes()),
        request.content_type@ == chosen_content_type(
            text_of(content_type),
            guessed_media_type(dest@),
        ),
        request.content_length == len,
        request.content_sha1@ == hasher.digest(),
{
    FileUpload {
        upload_url: target.upload_url,
        authorization: target.authorization_token,
        file_name: percent_encode(dest),
        content_type: content_type_for(content_type, dest),
        content_length: len,
        content_sha1: hasher.finish(),
    }
}

/// What is downloaded matches what was uploaded: where the hasher was given
/// the file's bytes and `len` is their number, the request declares that
/// length, and its digest is the digest of any download that returns the same
/// bytes.
pub proof fn lemma_download_matches_upload(
    request: &FileUpload,
    hasher: ContentHasher,
    len: u64,
    downloaded: Seq<u8>,
)
    requires
        request.content_sha1@ == hasher.digest(),
        request.content_length == len,
        len == hasher.absorbed().len(),
        downloaded == hasher.absorbed(),
    ensures
        request.content_sha1@ == sha1_hex_digest(downloaded),
        request.content_length == downloaded.len(),
{
}

} // verus!
