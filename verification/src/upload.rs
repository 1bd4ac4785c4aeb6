//! Registering an upload: the order of the handler's steps. The request is
//! checked before anything is written, the asset row is stored before a URL
//! is signed for it, and the client gets the URL only once both succeeded.
//! The shell does the database call and the signing and reports back.
use vstd::prelude::*;
use crate::assets::{asset_storage_path, is_asset_kind, recorded_content_type, spec_storage_path, validate_upload_request, UploadUrlRequest};
use crate::error::{internal_error, ApiError, DbError, STATUS_BAD_REQUEST, STATUS_INTERNAL_SERVER_ERROR};
use crate::ids::{fresh_uuid, is_drawn_uuid, is_v4_uuid, uuid_hyphenated, RandomUuid};
use crate::storage::PRESIGN_EXPIRES_SECS;
use crate::text::spec_trim;

verus! {

/// Where an upload request stands.
#[derive(Debug, PartialEq, Eq)]
pub enum UploadStage {
    Registering,
    Signing,
    Done,
}

/// An upload request in progress: the new asset's id and storage path, and
/// the content type the client declared.
pub struct UploadFlow {
    pub stage: UploadStage,
    pub asset_id: u128,
    pub path: String,
    pub content_type: String,
}

/// The asset row an upload records.
pub struct AssetRecord {
    pub id: u128,
    pub kind: String,
    pub storage_path: String,
    pub content_type: String,
    pub byte_size: i64,
    pub created_by: u128,
}

/// The answer to an upload request.
pub struct UploadUrlResponse {
    pub asset_id: u128,
    pub path: String,
    pub upload_url: String,
}

/// What the shell is to do next.
pub enum UploadAction {
    /// Store this asset row.
    InsertAsset(AssetRecord),
    /// Presign a PUT of the path (first), binding the declared content type
    /// (second), valid for the given number of seconds.
    SignUpload(String, String, i32),
    /// Answer the client.
    Respond(Result<UploadUrlResponse, ApiError>),
}

/// The outcome of what the shell was asked to do.
pub enum UploadEvent {
    Inserted(Result<(), DbError>),
    Signed(Result<String, ApiError>),
}

/// Whether an upload request is accepted: a positive size, a non-blank
/// content type and a known kind.
pub open spec fn upload_accepted(req: UploadUrlRequest) -> bool {
    req.byte_size > 0 && spec_trim(req.content_type@).len() > 0 && is_asset_kind(req.kind@)
}

/// `a` answers the client with this error.
pub open spec fn upload_refused(a: UploadAction, status: u16, message: Seq<char>) -> bool {
    a matches UploadAction::Respond(Err(e)) && e.is(status, message)
}

/// The first action for `req` from `user_id`, with `flow` the state it
/// leaves.
pub open spec fn upload_start(user_id: u128, req: UploadUrlRequest, flow: UploadFlow, action: UploadAction) -> bool {
    if upload_accepted(req) {
        &&& flow.stage == UploadStage::Registering
        &&& is_drawn_uuid(flow.asset_id)
        &&& is_v4_uuid(flow.asset_id)
        &&& flow.path@ == spec_storage_path(user_id, req.kind@, flow.asset_id)
        &&& flow.content_type@ == req.content_type@
        &&& action matches UploadAction::InsertAsset(a)
        &&& a.id == flow.asset_id
        &&& a.kind@ == req.kind@
        &&& a.storage_path@ == flow.path@
        &&& a.content_type@ == spec_trim(req.content_type@)
        &&& a.byte_size == req.byte_size
        &&& a.created_by == user_id
    } else {
        &&& flow.stage == UploadStage::Done
        &&& if req.byte_size <= 0 {
            upload_refused(action, STATUS_BAD_REQUEST, "byte_size must be positive"@)
        } else if spec_trim(req.content_type@).len() == 0 {
            upload_refused(action, STATUS_BAD_REQUEST, "content_type is required"@)
        } else {
            upload_refused(action, STATUS_BAD_REQUEST, "kind must be image or worldmap"@)
        }
    }
}

/// One step of the flow: `after` is the next state and `action` what the
/// shell is to do.
pub open spec fn upload_step(flow: UploadFlow, event: UploadEvent, after: UploadFlow, action: UploadAction) -> bool {
    &&& after.asset_id == flow.asset_id
    &&& after.path@ == flow.path@
    &&& after.content_type@ == flow.content_type@
    &&& match (flow.stage, event) {
        (UploadStage::Registering, UploadEvent::Inserted(r)) => match r {
            Ok(()) => {
                &&& after.stage == UploadStage::Signing
                &&& action matches UploadAction::SignUpload(path, content_type, secs)
                &&& path@ == flow.path@
                &&& content_type@ == flow.content_type@
                &&& secs == PRESIGN_EXPIRES_SECS
            },
            Err(_) => after.stage == UploadStage::Done
                && upload_refused(action, STATUS_INTERNAL_SERVER_ERROR, "internal server error"@),
        },
        (UploadStage::Signing, UploadEvent::Signed(r)) => {
            &&& after.stage == UploadStage::Done
            &&& match r {
                Ok(url) => action matches UploadAction::Respond(Ok(resp)) && resp.asset_id == flow.asset_id
                    && resp.path@ == flow.path@ && resp.upload_url == url,
                Err(e) => action == UploadAction::Respond(Err(e)),
            }
        },
        _ => after.stage == UploadStage::Done
            && upload_refused(action, STATUS_INTERNAL_SERVER_ERROR, "internal server error"@),
    }
}

impl UploadFlow {
    /// A new upload request of `user_id`: refused at once if it is
    /// malformed, else an asset with a fresh random id is to be stored at
    /// `<user_id>/<kind>/<asset_id>`.
    pub fn start(user_id: u128, req: UploadUrlRequest) -> (r: (UploadFlow, UploadAction))
        ensures
            upload_start(user_id, req, r.0, r.1),
    {
        if let Err(e) = validate_upload_request(&req) {
            let done = UploadFlow { stage: UploadStage::Done, asset_id: 0, path: String::new(), content_type: req.content_type };
            return (done, UploadAction::Respond(Err(e)));
        }
        let asset_id = fresh_uuid();
        let path = asset_storage_path(user_id, req.kind.as_str(), asset_id);
        let recorded = recorded_content_type(&req);
        let record = AssetRecord {
            id: asset_id,
            kind: req.kind,
            storage_path: path.clone(),
            content_type: recorded,
            byte_size: req.byte_size,
            created_by: user_id,
        };
        let flow = UploadFlow { stage: UploadStage::Registering, asset_id, path, content_type: req.content_type };
        (flow, UploadAction::InsertAsset(record))
    }

    /// The next state and action. A URL is signed only after the asset row
    /// was stored, and the client is answered `Ok` only with the signed URL.
    pub fn step(self, event: UploadEvent) -> (r: (UploadFlow, UploadAction))
        ensures
            upload_step(self, event, r.0, r.1),
            r.1 is SignUpload ==> self.stage == UploadStage::Registering && event matches UploadEvent::Inserted(Ok(())),
            r.1 matches UploadAction::Respond(Ok(_)) ==> self.stage == UploadStage::Signing
                && event matches UploadEvent::Signed(Ok(_)),
    {
        let UploadFlow { stage, asset_id, path, content_type } = self;
        match (stage, event) {
            (UploadStage::Registering, UploadEvent::Inserted(r)) => match r {
                Ok(()) => {
                    let sign = UploadAction::SignUpload(path.clone(), content_type.clone(), PRESIGN_EXPIRES_SECS);
                    (UploadFlow { stage: UploadStage::Signing, asset_id, path, content_type }, sign)
                },
                Err(err) => (
                    UploadFlow { stage: UploadStage::Done, asset_id, path, content_type },
                    UploadAction::Respond(Err(internal_error(err))),
                ),
            },
            (UploadStage::Signing, UploadEvent::Signed(r)) => {
                let answer = match r {
                    Ok(url) => Ok(UploadUrlResponse { asset_id, path: path.clone(), upload_url: url }),
                    Err(e) => Err(e),
                };
                (UploadFlow { stage: UploadStage::Done, asset_id, path, content_type }, UploadAction::Respond(answer))
            },
            _ => (
                UploadFlow { stage: UploadStage::Done, asset_id, path, content_type },
                UploadAction::Respond(Err(ApiError::new(STATUS_INTERNAL_SERVER_ERROR, "internal server error"))),
            ),
        }
    }
}

/// An accepted upload is registered under a freshly drawn asset id (a
/// version-4 UUID drawn at random, not made from the request or the
/// uploader), stored at `<uploader>/<kind>/<that id>`.
pub proof fn lemma_upload_asset_id_is_drawn(user_id: u128, req: UploadUrlRequest, flow: UploadFlow, action: UploadAction)
    requires
        upload_start(user_id, req, flow, action),
        upload_accepted(req),
    ensures
        action matches UploadAction::InsertAsset(a) && a.id == flow.asset_id && a.created_by == user_id
            && (exists|d: RandomUuid| #[trigger] d.spec_value() == a.id) && (a.id >> 76u128) & 0xfu128 == 4u128
            && a.storage_path@ == uuid_hyphenated(user_id) + "/"@ + req.kind@ + "/"@ + uuid_hyphenated(a.id),
{
}

} // verus!
