//! Uploaded assets (images and world maps): what an upload request must
//! declare, where an asset is stored, and how lookups are answered.
use vstd::prelude::*;
use vstd::string::*;
use crate::error::{internal_error, ApiError, DbError, STATUS_BAD_REQUEST, STATUS_INTERNAL_SERVER_ERROR, STATUS_NOT_FOUND};
use crate::ids::{format_hyphenated, uuid_hyphenated};
use crate::text::{owned, spec_trim, trim};

verus! {

/// The body of an upload-URL request.
pub struct UploadUrlRequest {
    pub kind: String,
    pub content_type: String,
    pub byte_size: i64,
}

/// The answer carrying a download URL.
pub struct DownloadUrlResponse {
    pub download_url: String,
}

/// The kinds of asset the store holds.
pub open spec fn is_asset_kind(kind: Seq<char>) -> bool {
    kind == "image"@ || kind == "worldmap"@
}

/// Checks an upload request: a positive size, a non-blank content type and
/// a known kind, each refused with its own 400 answer in that order.
pub fn validate_upload_request(req: &UploadUrlRequest) -> (r: Result<(), ApiError>)
    ensures
        if req.byte_size <= 0 {
            r matches Err(e) && e.is(STATUS_BAD_REQUEST, "byte_size must be positive"@)
        } else if spec_trim(req.content_type@).len() == 0 {
            r matches Err(e) && e.is(STATUS_BAD_REQUEST, "content_type is required"@)
        } else if !is_asset_kind(req.kind@) {
            r matches Err(e) && e.is(STATUS_BAD_REQUEST, "kind must be image or worldmap"@)
        } else {
            r is Ok
        },
{
    if req.byte_size <= 0 {
        return Err(ApiError::new(STATUS_BAD_REQUEST, "byte_size must be positive"));
    }
    if trim(req.content_type.as_str()).unicode_len() == 0 {
        return Err(ApiError::new(STATUS_BAD_REQUEST, "content_type is required"));
    }
    let image = owned("image");
    let worldmap = owned("worldmap");
    if req.kind != image && req.kind != worldmap {
        return Err(ApiError::new(STATUS_BAD_REQUEST, "kind must be image or worldmap"));
    }
    Ok(())
}

/// The content type recorded for an upload: the declared one, trimmed.
pub fn recorded_content_type(req: &UploadUrlRequest) -> (r: String)
    ensures
        r@ == spec_trim(req.content_type@),
{
    owned(trim(req.content_type.as_str()))
}

/// Where an asset lives in the bucket: `<user_id>/<kind>/<asset_id>`.
pub open spec fn spec_storage_path(user_id: u128, kind: Seq<char>, asset_id: u128) -> Seq<char> {
    uuid_hyphenated(user_id) + "/"@ + kind + "/"@ + uuid_hyphenated(asset_id)
}

/// The storage path of an asset uploaded by a user.
pub fn asset_storage_path(user_id: u128, kind: &str, asset_id: u128) -> (r: String)
    ensures
        r@ == spec_storage_path(user_id, kind@, asset_id),
{
    let mut path = format_hyphenated(user_id);
    path.append("/");
    path.append(kind);
    path.append("/");
    let asset = format_hyphenated(asset_id);
    path.append(asset.as_str());
    path
}

/// The answer to the lookup of an asset the user may read (one they
/// uploaded, or one shown in a room they belong to): its storage path.
pub fn download_lookup_outcome(r: Result<Option<String>, DbError>) -> (e: Result<String, ApiError>)
    ensures
        match r {
            Ok(Some(path)) => e == Ok::<String, ApiError>(path),
            Ok(None) => e matches Err(x) && x.is(STATUS_NOT_FOUND, "asset not found"@),
            Err(_) => e matches Err(x) && x.is(STATUS_INTERNAL_SERVER_ERROR, "internal server error"@),
        },
{
    match r {
        Ok(Some(path)) => Ok(path),
        Ok(None) => Err(ApiError::new(STATUS_NOT_FOUND, "asset not found")),
        Err(err) => Err(internal_error(err)),
    }
}

/// The answer carrying a signed download URL.
pub fn download_url_response(download_url: String) -> (r: DownloadUrlResponse)
    ensures
        r.download_url == download_url,
{
    DownloadUrlResponse { download_url }
}

} // verus!
