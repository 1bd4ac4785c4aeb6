//! Serving stored files: a download URL of an asset, and a room's newest
//! world map. Each is looked up before anything is signed, and a world map
//! is looked up only for a member of its room. The shell does the database
//! calls and the signing and reports back.
use vstd::prelude::*;
use crate::assets::download_lookup_outcome;
use crate::error::{internal_error, ApiError, DbError, STATUS_FORBIDDEN, STATUS_INTERNAL_SERVER_ERROR, STATUS_NOT_FOUND};
use crate::rooms::membership_outcome;
use crate::storage::PRESIGN_EXPIRES_SECS;
use crate::worldmap::latest_worldmap_outcome;

verus! {

/// Where a read of a stored file stands.
#[derive(Debug, PartialEq, Eq)]
pub enum ReadStage {
    CheckingMember,
    Finding,
    Signing,
    Done,
}

/// A read in progress: what is read (an asset, or the room whose map is
/// read) and who reads it.
pub struct ReadFlow {
    pub stage: ReadStage,
    pub subject: u128,
    pub user_id: u128,
}

/// What the shell is to do next.
pub enum ReadAction {
    /// Check that the user belongs to the room.
    CheckMembership { room_id: u128, user_id: u128 },
    /// Look up the storage path of the file of this subject, as far as this
    /// user may read it.
    Find { subject: u128, user_id: u128 },
    /// Presign a download of this path, valid for this many seconds.
    Sign(String, i32),
    /// Answer the client: `Ok` carries the download URL.
    Respond(Result<String, ApiError>),
}

/// The outcome of what the shell was asked to do.
pub enum ReadEvent {
    Checked(Result<bool, DbError>),
    /// The storage path found, if any.
    Found(Result<Option<String>, DbError>),
    Signed(Result<String, ApiError>),
}

pub open spec fn read_refused(a: ReadAction, status: u16, message: Seq<char>) -> bool {
    a matches ReadAction::Respond(Err(e)) && e.is(status, message)
}

/// One step of a read; `missing` is the answer to a file that is not
/// there.
pub open spec fn read_step(flow: ReadFlow, event: ReadEvent, missing: Seq<char>, after: ReadFlow, action: ReadAction) -> bool {
    &&& after.subject == flow.subject
    &&& after.user_id == flow.user_id
    &&& match (flow.stage, event) {
        (ReadStage::CheckingMember, ReadEvent::Checked(r)) => match r {
            Ok(true) => after.stage == ReadStage::Finding
                && action == (ReadAction::Find { subject: flow.subject, user_id: flow.user_id }),
            Ok(false) => after.stage == ReadStage::Done && read_refused(action, STATUS_FORBIDDEN, "not a room member"@),
            Err(_) => after.stage == ReadStage::Done
                && read_refused(action, STATUS_INTERNAL_SERVER_ERROR, "internal server error"@),
        },
        (ReadStage::Finding, ReadEvent::Found(r)) => match r {
            Ok(Some(path)) => after.stage == ReadStage::Signing && action == ReadAction::Sign(path, PRESIGN_EXPIRES_SECS),
            Ok(None) => after.stage == ReadStage::Done && read_refused(action, STATUS_NOT_FOUND, missing),
            Err(_) => after.stage == ReadStage::Done
                && read_refused(action, STATUS_INTERNAL_SERVER_ERROR, "internal server error"@),
        },
        (ReadStage::Signing, ReadEvent::Signed(r)) => after.stage == ReadStage::Done && action == ReadAction::Respond(r),
        _ => after.stage == ReadStage::Done
            && read_refused(action, STATUS_INTERNAL_SERVER_ERROR, "internal server error"@),
    }
}

/// The answer to a file that is not there: an asset the user may not
/// read is not found either.
pub open spec fn missing_message(world_map: bool) -> Seq<char> {
    if world_map {
        "worldmap not found"@
    } else {
        "asset not found"@
    }
}

impl ReadFlow {
    /// A download URL of the asset `asset_id` for `user_id`: the lookup
    /// (which also decides whether the user may read it) comes first.
    pub fn download(asset_id: u128, user_id: u128) -> (r: (ReadFlow, ReadAction))
        ensures
            r.0 == (ReadFlow { stage: ReadStage::Finding, subject: asset_id, user_id }),
            r.1 == (ReadAction::Find { subject: asset_id, user_id }),
    {
        (ReadFlow { stage: ReadStage::Finding, subject: asset_id, user_id }, ReadAction::Find { subject: asset_id, user_id })
    }

    /// The newest world map of `room_id` for `user_id`: membership is
    /// checked first.
    pub fn worldmap(room_id: u128, user_id: u128) -> (r: (ReadFlow, ReadAction))
        ensures
            r.0 == (ReadFlow { stage: ReadStage::CheckingMember, subject: room_id, user_id }),
            r.1 == (ReadAction::CheckMembership { room_id, user_id }),
    {
        (
            ReadFlow { stage: ReadStage::CheckingMember, subject: room_id, user_id },
            ReadAction::CheckMembership { room_id, user_id },
        )
    }

    /// The next state and action; `world_map` tells which of the two reads
    /// this is. Only a path that was found is signed, and the client gets
    /// only what the signing gave.
    pub fn step(self, world_map: bool, event: ReadEvent) -> (r: (ReadFlow, ReadAction))
        ensures
            read_step(self, event, missing_message(world_map), r.0, r.1),
            r.1 is Sign ==> event matches ReadEvent::Found(Ok(Some(_))),
    {
        let ReadFlow { stage, subject, user_id } = self;
        let at = |stage: ReadStage| -> (f: ReadFlow)
            ensures
                f == (ReadFlow { stage, subject, user_id }),
            { ReadFlow { stage, subject, user_id } };
        match (stage, event) {
            (ReadStage::CheckingMember, ReadEvent::Checked(r)) => match membership_outcome(r) {
                Ok(()) => (at(ReadStage::Finding), ReadAction::Find { subject, user_id }),
                Err(e) => (at(ReadStage::Done), ReadAction::Respond(Err(e))),
            },
            (ReadStage::Finding, ReadEvent::Found(r)) => {
                let outcome = if world_map {
                    latest_worldmap_outcome(r)
                } else {
                    download_lookup_outcome(r)
                };
                match outcome {
                    Ok(path) => (at(ReadStage::Signing), ReadAction::Sign(path, PRESIGN_EXPIRES_SECS)),
                    Err(e) => (at(ReadStage::Done), ReadAction::Respond(Err(e))),
                }
            },
            (ReadStage::Signing, ReadEvent::Signed(r)) => (at(ReadStage::Done), ReadAction::Respond(r)),
            _ => (at(ReadStage::Done), ReadAction::Respond(Err(ApiError::new(STATUS_INTERNAL_SERVER_ERROR, "internal server error")))),
        }
    }
}

} // verus!
