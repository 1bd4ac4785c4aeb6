//! Creating a placement: the order of the handler's steps. The shell does
//! each database call, the signing and the broadcast that the flow asks
//! for, and reports the outcome; the flow decides what comes next and what
//! the client is answered.
use vstd::prelude::*;
use crate::ids::{fresh_uuid, is_drawn_uuid, is_v4_uuid, RandomUuid};
use crate::storage::PRESIGN_EXPIRES_SECS;
use crate::error::{internal_error, ApiError, DbError, STATUS_INTERNAL_SERVER_ERROR};
use crate::rooms::{check_transform_len, event_image_url, event_serialize_failed, membership_outcome, TRANSFORM_LEN};

verus! {

/// Where a placement request stands.
#[derive(Debug, PartialEq, Eq)]
pub enum PlacementStage {
    CheckingMember,
    Inserting,
    FindingImage,
    SigningImage,
    Broadcasting,
    Done,
}

/// A placement request in progress: its stage, the room, the image placed
/// and the user placing it, and the length of the transform it carries.
pub struct PlacementFlow {
    pub stage: PlacementStage,
    pub room_id: u128,
    pub image_asset_id: u128,
    pub user_id: u128,
    pub transform_len: usize,
}

/// What the shell is to do next.
#[derive(Debug)]
pub enum PlacementAction {
    /// Check that the user belongs to the room.
    CheckMembership { room_id: u128, user_id: u128 },
    /// Store the placement under a new id, with the request's transform
    /// and size.
    InsertPlacement { id: u128, room_id: u128, image_asset_id: u128, created_by: u128 },
    /// Look up the storage path of the placed image.
    FindImage(u128),
    /// Presign a download URL of the image at this path, valid for this
    /// many seconds.
    SignImage(String, i32),
    /// Send the `placement_created` event, carrying this image URL.
    Broadcast(Option<String>),
    /// Answer the client: `Ok` is 201 with the stored placement.
    Respond(Result<(), ApiError>),
}

/// The outcome of what the shell was asked to do.
pub enum PlacementEvent {
    Checked(Result<bool, DbError>),
    Inserted(Result<(), DbError>),
    ImageFound(Result<Option<String>, DbError>),
    ImageSigned(Result<String, ApiError>),
    /// The event was sent; `Err` carries why it could not be serialised.
    Broadcast(Result<(), String>),
}

pub open spec fn responds_with(a: PlacementAction, status: u16, message: Seq<char>) -> bool {
    a matches PlacementAction::Respond(Err(e)) && e.is(status, message)
}

/// One step of the flow: `after` is the next state and `action` what the
/// shell is to do.
pub open spec fn placement_step(flow: PlacementFlow, event: PlacementEvent, after: PlacementFlow, action: PlacementAction) -> bool {
    &&& after.transform_len == flow.transform_len
    &&& after.room_id == flow.room_id
    &&& after.image_asset_id == flow.image_asset_id
    &&& after.user_id == flow.user_id
    &&& match (flow.stage, event) {
        (PlacementStage::CheckingMember, PlacementEvent::Checked(r)) => match r {
            Ok(true) => if flow.transform_len == TRANSFORM_LEN {
                after.stage == PlacementStage::Inserting && (action matches PlacementAction::InsertPlacement {
                    id, room_id, image_asset_id, created_by,
                } && room_id == flow.room_id && image_asset_id == flow.image_asset_id && created_by == flow.user_id
                    && is_drawn_uuid(id) && is_v4_uuid(id))
            } else {
                after.stage == PlacementStage::Done && responds_with(action, 400, "transform must have 16 elements"@)
            },
            Ok(false) => after.stage == PlacementStage::Done && responds_with(action, 403, "not a room member"@),
            Err(_) => after.stage == PlacementStage::Done && responds_with(action, 500, "internal server error"@),
        },
        (PlacementStage::Inserting, PlacementEvent::Inserted(r)) => match r {
            Ok(()) => after.stage == PlacementStage::FindingImage && action == PlacementAction::FindImage(flow.image_asset_id),
            Err(_) => after.stage == PlacementStage::Done && responds_with(action, 500, "internal server error"@),
        },
        (PlacementStage::FindingImage, PlacementEvent::ImageFound(r)) => match r {
            Ok(Some(path)) => after.stage == PlacementStage::SigningImage && action == PlacementAction::SignImage(path, PRESIGN_EXPIRES_SECS),
            Ok(None) => after.stage == PlacementStage::Broadcasting && action == PlacementAction::Broadcast(None),
            Err(_) => after.stage == PlacementStage::Done && responds_with(action, 500, "internal server error"@),
        },
        (PlacementStage::SigningImage, PlacementEvent::ImageSigned(r)) => {
            &&& after.stage == PlacementStage::Broadcasting
            &&& action == PlacementAction::Broadcast(
                match r {
                    Ok(url) => Some(url),
                    Err(_) => None,
                },
            )
        },
        (PlacementStage::Broadcasting, PlacementEvent::Broadcast(r)) => {
            &&& after.stage == PlacementStage::Done
            &&& match r {
                Ok(()) => action == PlacementAction::Respond(Ok(())),
                Err(detail) => action matches PlacementAction::Respond(Err(e)) && e.status == 500
                    && e.message@ == "failed to serialize event: "@ + detail@,
            }
        },
        _ => after.stage == PlacementStage::Done && responds_with(action, 500, "internal server error"@),
    }
}

impl PlacementFlow {
    /// A new request of `user_id` to place `image_asset_id` in `room_id`,
    /// carrying a transform of `transform_len` entries: the first thing is
    /// the membership check.
    pub fn start(room_id: u128, image_asset_id: u128, user_id: u128, transform_len: usize) -> (r: (PlacementFlow, PlacementAction))
        ensures
            r.0 == (PlacementFlow { stage: PlacementStage::CheckingMember, room_id, image_asset_id, user_id, transform_len }),
            r.1 == (PlacementAction::CheckMembership { room_id, user_id }),
    {
        (
            PlacementFlow { stage: PlacementStage::CheckingMember, room_id, image_asset_id, user_id, transform_len },
            PlacementAction::CheckMembership { room_id, user_id },
        )
    }

    /// The next state and action. Nothing is written before the user is
    /// known to be a member and the transform to be a 4x4 matrix, nothing is
    /// broadcast before the placement is stored, and the client is told of
    /// success only after the broadcast.
    pub fn step(self, event: PlacementEvent) -> (r: (PlacementFlow, PlacementAction))
        ensures
            placement_step(self, event, r.0, r.1),
            r.1 is InsertPlacement ==> self.stage == PlacementStage::CheckingMember
                && event == PlacementEvent::Checked(Ok(true)) && self.transform_len == TRANSFORM_LEN,
            r.1 is Broadcast ==> self.stage == PlacementStage::FindingImage || self.stage == PlacementStage::SigningImage,
            r.1 == PlacementAction::Respond(Ok(())) ==> self.stage == PlacementStage::Broadcasting,
            r.1 == PlacementAction::Respond(Ok(())) ==> event matches PlacementEvent::Broadcast(Ok(())),
    {
        let PlacementFlow { stage, room_id, image_asset_id, user_id, transform_len: len } = self;
        let at = |stage: PlacementStage| -> (f: PlacementFlow)
            ensures
                f == (PlacementFlow { stage, room_id, image_asset_id, user_id, transform_len: len }),
            { PlacementFlow { stage, room_id, image_asset_id, user_id, transform_len: len } };
        match (stage, event) {
            (PlacementStage::CheckingMember, PlacementEvent::Checked(r)) => match membership_outcome(r) {
                Err(e) => (at(PlacementStage::Done), PlacementAction::Respond(Err(e))),
                Ok(()) => match check_transform_len(len) {
                    Err(e) => (at(PlacementStage::Done), PlacementAction::Respond(Err(e))),
                    Ok(()) => {
                        let id = fresh_uuid();
                        (
                            at(PlacementStage::Inserting),
                            PlacementAction::InsertPlacement { id, room_id, image_asset_id, created_by: user_id },
                        )
                    },
                },
            },
            (PlacementStage::Inserting, PlacementEvent::Inserted(r)) => match r {
                Ok(()) => (at(PlacementStage::FindingImage), PlacementAction::FindImage(image_asset_id)),
                Err(err) => (at(PlacementStage::Done), PlacementAction::Respond(Err(internal_error(err)))),
            },
            (PlacementStage::FindingImage, PlacementEvent::ImageFound(r)) => match r {
                Ok(Some(path)) => (at(PlacementStage::SigningImage), PlacementAction::SignImage(path, PRESIGN_EXPIRES_SECS)),
                Ok(None) => (at(PlacementStage::Broadcasting), PlacementAction::Broadcast(None)),
                Err(err) => (at(PlacementStage::Done), PlacementAction::Respond(Err(internal_error(err)))),
            },
            (PlacementStage::SigningImage, PlacementEvent::ImageSigned(r)) => (
                at(PlacementStage::Broadcasting),
                PlacementAction::Broadcast(event_image_url(Some(r))),
            ),
            (PlacementStage::Broadcasting, PlacementEvent::Broadcast(r)) => match r {
                Ok(()) => (at(PlacementStage::Done), PlacementAction::Respond(Ok(()))),
                Err(detail) => (at(PlacementStage::Done), PlacementAction::Respond(Err(event_serialize_failed(detail.as_str())))),
            },
            _ => (at(PlacementStage::Done), PlacementAction::Respond(Err(ApiError::new(STATUS_INTERNAL_SERVER_ERROR, "internal server error")))),
        }
    }
}

/// A member's placement with a 4x4 transform is stored under a freshly
/// drawn id (a version-4 UUID drawn at random, neither the room's id nor
/// made from the request), in the room, with the image and the placing
/// user as given.
pub proof fn lemma_placement_id_is_drawn(flow: PlacementFlow, after: PlacementFlow, action: PlacementAction)
    requires
        flow.stage == PlacementStage::CheckingMember,
        flow.transform_len == TRANSFORM_LEN,
        placement_step(flow, PlacementEvent::Checked(Ok(true)), after, action),
    ensures
        action matches PlacementAction::InsertPlacement { id, room_id, image_asset_id, created_by }
            && room_id == flow.room_id && image_asset_id == flow.image_asset_id && created_by == flow.user_id
            && (exists|d: RandomUuid| #[trigger] d.spec_value() == id) && (id >> 76u128) & 0xfu128 == 4u128,
{
}

} // verus!
