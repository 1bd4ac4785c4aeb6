//! Shared world maps: a room's map is a versioned series of uploaded
//! world-map assets, of which the newest is served.
use vstd::prelude::*;
use vstd::string::*;
use crate::error::{internal_error, ApiError, DbError, STATUS_INTERNAL_SERVER_ERROR, STATUS_NOT_FOUND};
use crate::rooms::membership_outcome;
use crate::storage::PRESIGN_EXPIRES_SECS;
use crate::ids::{format_hyphenated, uuid_hyphenated};
use crate::text::{decimal_i32, i32_text, owned};

verus! {

/// The answer to the lookup of the asset a new world map version points
/// to: it must be a world-map asset; its storage path is returned.
pub fn worldmap_asset_outcome(r: Result<Option<String>, DbError>) -> (e: Result<String, ApiError>)
    ensures
        match r {
            Ok(Some(path)) => e == Ok::<String, ApiError>(path),
            Ok(None) => e matches Err(x) && x.is(STATUS_NOT_FOUND, "worldmap asset not found"@),
            Err(_) => e matches Err(x) && x.is(STATUS_INTERNAL_SERVER_ERROR, "internal server error"@),
        },
{
    match r {
        Ok(Some(path)) => Ok(path),
        Ok(None) => Err(ApiError::new(STATUS_NOT_FOUND, "worldmap asset not found")),
        Err(err) => Err(internal_error(err)),
    }
}

/// The answer to the lookup of a room's newest world map: a room without
/// one has none to serve.
pub fn latest_worldmap_outcome<T>(r: Result<Option<T>, DbError>) -> (e: Result<T, ApiError>)
    ensures
        match r {
            Ok(Some(row)) => e == Ok::<T, ApiError>(row),
            Ok(None) => e matches Err(x) && x.is(STATUS_NOT_FOUND, "worldmap not found"@),
            Err(_) => e matches Err(x) && x.is(STATUS_INTERNAL_SERVER_ERROR, "internal server error"@),
        },
{
    match r {
        Ok(Some(row)) => Ok(row),
        Ok(None) => Err(ApiError::new(STATUS_NOT_FOUND, "worldmap not found")),
        Err(err) => Err(internal_error(err)),
    }
}

/// `{"type":"worldmap_updated","room_id":"<uuid>","version":<n>}`
pub open spec fn worldmap_updated_frame(room_id: u128, version: i32) -> Seq<char> {
    "{\"type\":\"worldmap_updated\",\"room_id\":\""@ + uuid_hyphenated(room_id) + "\",\"version\":"@
        + decimal_i32(version) + "}"@
}

/// The event that tells a room's subscribers about a new world-map
/// version.
pub fn worldmap_updated_text(room_id: u128, version: i32) -> (r: String)
    ensures
        r@ == worldmap_updated_frame(room_id, version),
{
    let mut r = owned("{\"type\":\"worldmap_updated\",\"room_id\":\"");
    let id = format_hyphenated(room_id);
    r.append(id.as_str());
    r.append("\",\"version\":");
    let v = i32_text(version);
    r.append(v.as_str());
    r.append("}");
    r
}

/// Where a world-map update stands, with what it has learned so far.
pub enum WorldmapStage {
    CheckingMember,
    FindingAsset,
    Numbering { path: String },
    Inserting { path: String, version: i32 },
    Signing { version: i32 },
    Broadcasting { version: i32, download_url: String },
    Done,
}

/// A world-map update in progress: the room, the world-map asset to make
/// its newest version, and the user making it.
pub struct WorldmapFlow {
    pub room_id: u128,
    pub asset_id: u128,
    pub user_id: u128,
    pub stage: WorldmapStage,
}

/// What the shell is to do next.
pub enum WorldmapAction {
    /// Check that the user belongs to the room.
    CheckMembership { room_id: u128, user_id: u128 },
    /// Look up the storage path of this asset, if it is a world map.
    FindAsset(u128),
    /// Ask the database for the room's next version number.
    NextVersion(u128),
    /// Record the asset as this version of the room's map, made by this
    /// user.
    InsertVersion { room_id: u128, version: i32, asset_id: u128, created_by: u128 },
    /// Presign a download URL of the asset at this path, valid for this
    /// many seconds.
    SignDownload(String, i32),
    /// Send this event to the room's subscribers.
    Broadcast { room_id: u128, event: String },
    /// Answer the client: `Ok` is 201 with the version and its download URL.
    Respond(Result<(i32, String), ApiError>),
}

/// The outcome of what the shell was asked to do.
pub enum WorldmapEvent {
    Checked(Result<bool, DbError>),
    AssetFound(Result<Option<String>, DbError>),
    Numbered(Result<i32, DbError>),
    Inserted(Result<(), DbError>),
    Signed(Result<String, ApiError>),
    Broadcast,
}

pub open spec fn refuses(a: WorldmapAction, status: u16, message: Seq<char>) -> bool {
    a matches WorldmapAction::Respond(Err(e)) && e.is(status, message)
}

/// One step of the flow: `after` is the next state and `action` what the
/// shell is to do.
pub open spec fn worldmap_step(flow: WorldmapFlow, event: WorldmapEvent, after: WorldmapFlow, action: WorldmapAction) -> bool {
    &&& after.room_id == flow.room_id
    &&& after.asset_id == flow.asset_id
    &&& after.user_id == flow.user_id
    &&& match (flow.stage, event) {
        (WorldmapStage::CheckingMember, WorldmapEvent::Checked(r)) => match r {
            Ok(true) => after.stage is FindingAsset && action == WorldmapAction::FindAsset(flow.asset_id),
            Ok(false) => after.stage is Done && refuses(action, 403, "not a room member"@),
            Err(_) => after.stage is Done && refuses(action, 500, "internal server error"@),
        },
        (WorldmapStage::FindingAsset, WorldmapEvent::AssetFound(r)) => match r {
            Ok(Some(path)) => after.stage == WorldmapStage::Numbering { path }
                && action == WorldmapAction::NextVersion(flow.room_id),
            Ok(None) => after.stage is Done && refuses(action, 404, "worldmap asset not found"@),
            Err(_) => after.stage is Done && refuses(action, 500, "internal server error"@),
        },
        (WorldmapStage::Numbering { path }, WorldmapEvent::Numbered(r)) => match r {
            Ok(version) => after.stage == WorldmapStage::Inserting { path, version }
                && action == (WorldmapAction::InsertVersion {
                room_id: flow.room_id,
                version,
                asset_id: flow.asset_id,
                created_by: flow.user_id,
            }),
            Err(_) => after.stage is Done && refuses(action, 500, "internal server error"@),
        },
        (WorldmapStage::Inserting { path, version }, WorldmapEvent::Inserted(r)) => match r {
            Ok(()) => after.stage == WorldmapStage::Signing { version }
                && action == WorldmapAction::SignDownload(path, PRESIGN_EXPIRES_SECS),
            Err(_) => after.stage is Done && refuses(action, 500, "internal server error"@),
        },
        (WorldmapStage::Signing { version }, WorldmapEvent::Signed(r)) => match r {
            Ok(download_url) => after.stage == WorldmapStage::Broadcasting { version, download_url }
                && (action matches WorldmapAction::Broadcast { room_id, event: text } && room_id == flow.room_id
                && text@ == worldmap_updated_frame(flow.room_id, version)),
            Err(e) => after.stage is Done && action == WorldmapAction::Respond(Err(e)),
        },
        (WorldmapStage::Broadcasting { version, download_url }, WorldmapEvent::Broadcast) => {
            after.stage is Done && action == WorldmapAction::Respond(Ok((version, download_url)))
        },
        _ => after.stage is Done && refuses(action, 500, "internal server error"@),
    }
}

impl WorldmapFlow {
    /// A new update of `room_id`'s map to the asset `asset_id`, by
    /// `user_id`: the first thing is the membership check.
    pub fn start(room_id: u128, asset_id: u128, user_id: u128) -> (r: (WorldmapFlow, WorldmapAction))
        ensures
            r.0 == (WorldmapFlow { room_id, asset_id, user_id, stage: WorldmapStage::CheckingMember }),
            r.1 == (WorldmapAction::CheckMembership { room_id, user_id }),
    {
        (
            WorldmapFlow { room_id, asset_id, user_id, stage: WorldmapStage::CheckingMember },
            WorldmapAction::CheckMembership { room_id, user_id },
        )
    }

    /// The next state and action. A version is recorded only for a member
    /// and an existing world-map asset, the room hears of a version only
    /// once it is recorded and its map can be downloaded, and the client is
    /// told of success only after the room was told.
    pub fn step(self, event: WorldmapEvent) -> (r: (WorldmapFlow, WorldmapAction))
        ensures
            worldmap_step(self, event, r.0, r.1),
            r.1 is InsertVersion ==> self.stage is Numbering,
            r.1 is Broadcast ==> self.stage is Signing,
            r.1 matches WorldmapAction::Respond(Ok(_)) ==> self.stage is Broadcasting && event is Broadcast,
    {
        let WorldmapFlow { room_id, asset_id, user_id, stage } = self;
        let at = |stage: WorldmapStage| -> (f: WorldmapFlow)
            ensures
                f == (WorldmapFlow { room_id, asset_id, user_id, stage }),
            { WorldmapFlow { room_id, asset_id, user_id, stage } };
        match (stage, event) {
            (WorldmapStage::CheckingMember, WorldmapEvent::Checked(r)) => match membership_outcome(r) {
                Ok(()) => (at(WorldmapStage::FindingAsset), WorldmapAction::FindAsset(asset_id)),
                Err(e) => (at(WorldmapStage::Done), WorldmapAction::Respond(Err(e))),
            },
            (WorldmapStage::FindingAsset, WorldmapEvent::AssetFound(r)) => match worldmap_asset_outcome(r) {
                Ok(path) => (at(WorldmapStage::Numbering { path }), WorldmapAction::NextVersion(room_id)),
                Err(e) => (at(WorldmapStage::Done), WorldmapAction::Respond(Err(e))),
            },
            (WorldmapStage::Numbering { path }, WorldmapEvent::Numbered(r)) => match r {
                Ok(version) => (
                    at(WorldmapStage::Inserting { path, version }),
                    WorldmapAction::InsertVersion { room_id, version, asset_id, created_by: user_id },
                ),
                Err(err) => (at(WorldmapStage::Done), WorldmapAction::Respond(Err(internal_error(err)))),
            },
            (WorldmapStage::Inserting { path, version }, WorldmapEvent::Inserted(r)) => match r {
                Ok(()) => (at(WorldmapStage::Signing { version }), WorldmapAction::SignDownload(path, PRESIGN_EXPIRES_SECS)),
                Err(err) => (at(WorldmapStage::Done), WorldmapAction::Respond(Err(internal_error(err)))),
            },
            (WorldmapStage::Signing { version }, WorldmapEvent::Signed(r)) => match r {
                Ok(download_url) => (
                    at(WorldmapStage::Broadcasting { version, download_url }),
                    WorldmapAction::Broadcast { room_id, event: worldmap_updated_text(room_id, version) },
                ),
                Err(e) => (at(WorldmapStage::Done), WorldmapAction::Respond(Err(e))),
            },
            (WorldmapStage::Broadcasting { version, download_url }, WorldmapEvent::Broadcast) => {
                (at(WorldmapStage::Done), WorldmapAction::Respond(Ok((version, download_url))))
            },
            _ => (at(WorldmapStage::Done), WorldmapAction::Respond(Err(ApiError::new(STATUS_INTERNAL_SERVER_ERROR, "internal server error")))),
        }
    }
}

} // verus!
