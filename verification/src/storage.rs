//! Presigned object-store URLs: how long they are valid, which content
//! type an upload URL binds, and how signing failures are answered. The
//! signing itself is asynchronous and done by the shell with the S3 client.
use vstd::prelude::*;
use vstd::string::*;
use crate::presign::{presigning_window, PresignWindow, MAX_PRESIGN_SECS};
use crate::error::{ApiError, STATUS_BAD_GATEWAY};
use crate::text::{owned, spec_trim, trim};

verus! {

/// Presigned URLs handed to clients are valid for ten minutes.
pub const PRESIGN_EXPIRES_SECS: i32 = 600;

/// A presigned upload.
pub struct SignedUpload {
    pub upload_url: String,
    pub token: Option<String>,
}

/// The presigning window for a validity in seconds. A negative
/// validity, read as an unsigned number, is far beyond a week and refused
/// like any validity over a week: 502.
pub fn presign_config(expires_in_secs: i32) -> (r: Result<PresignWindow, ApiError>)
    ensures
        r is Ok <==> 0 <= expires_in_secs <= MAX_PRESIGN_SECS,
        r matches Ok(w) ==> w.spec_expires_secs() == expires_in_secs,
        r matches Err(e) ==> e.is(
            STATUS_BAD_GATEWAY,
            "presign config failed: "@ + "`expires_in` must be no longer than one week"@,
        ),
{
    let secs = expires_in_secs as u64;
    assert(expires_in_secs < 0 ==> (expires_in_secs as u64) > 604800u64) by (bit_vector);
    assert(expires_in_secs >= 0 ==> (expires_in_secs as u64) == expires_in_secs);
    match presigning_window(secs) {
        Ok(c) => Ok(c),
        Err(detail) => {
            let mut message = owned("presign config failed: ");
            message.append(detail.as_str());
            Err(ApiError { status: STATUS_BAD_GATEWAY, message })
        },
    }
}

/// The content type an upload URL is bound to: the declared one, trimmed,
/// unless it is blank.
pub fn upload_content_type(content_type: &str) -> (r: Option<String>)
    ensures
        match r {
            Some(t) => spec_trim(content_type@).len() > 0 && t@ == spec_trim(content_type@),
            None => spec_trim(content_type@).len() == 0,
        },
{
    let t = trim(content_type);
    if t.unicode_len() == 0 {
        None
    } else {
        Some(owned(t))
    }
}

/// The presigned upload for a signed URL.
pub fn signed_upload(upload_url: String) -> (r: SignedUpload)
    ensures
        r.upload_url == upload_url,
        r.token is None,
{
    SignedUpload { upload_url, token: None }
}

/// The answer when the store refuses to sign an upload.
pub fn upload_sign_failed(detail: &str) -> (e: ApiError)
    ensures
        e.status == STATUS_BAD_GATEWAY,
        e.message@ == "storage upload sign failed: "@ + detail@,
{
    let mut message = owned("storage upload sign failed: ");
    message.append(detail);
    ApiError { status: STATUS_BAD_GATEWAY, message }
}

/// The answer when the store refuses to sign a download.
pub fn download_sign_failed(detail: &str) -> (e: ApiError)
    ensures
        e.status == STATUS_BAD_GATEWAY,
        e.message@ == "storage download sign failed: "@ + detail@,
{
    let mut message = owned("storage download sign failed: ");
    message.append(detail);
    ApiError { status: STATUS_BAD_GATEWAY, message }
}

} // verus!
