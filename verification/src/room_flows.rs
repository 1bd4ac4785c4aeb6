//! Creating a room, joining one by invitation, and inviting to one: the
//! order of each handler's steps. The shell does the database calls that a
//! flow asks for and reports their outcome; the flow decides what comes
//! next and what the client is answered.
use vstd::prelude::*;
use crate::error::{internal_error, ApiError, DbError, STATUS_FORBIDDEN, STATUS_INTERNAL_SERVER_ERROR, STATUS_NOT_FOUND};
use crate::ids::{fresh_uuid, is_drawn_uuid, is_v4_uuid, RandomUuid};
use crate::rooms::{
    invite_lookup_outcome, membership_outcome, new_invite_code, presented_invite_code, room_insert_outcome, room_name,
    spec_invite_code, CreateRoomRequest, JoinRoomRequest, INVITE_CODE_LEN, INVITE_TTL_HOURS,
};
use crate::text::{all_hex, spec_trim};

verus! {

/// Where a room creation stands.
#[derive(Debug, PartialEq, Eq)]
pub enum CreateRoomStage {
    Inserting,
    AddingCreator,
    Fetching,
    Done,
}

/// A room creation in progress, with the new room's id and its creator.
pub struct CreateRoomFlow {
    pub stage: CreateRoomStage,
    pub room_id: u128,
    pub user_id: u128,
}

/// What the shell is to do next for a room creation.
pub enum CreateRoomAction {
    /// Insert the room with this id and name, created by this user.
    InsertRoom { room_id: u128, name: String, created_by: u128 },
    /// Make the user a member of the room.
    AddCreator { room_id: u128, user_id: u128 },
    /// Read back the stored room.
    FetchRoom(u128),
    /// Answer the client: `Ok` is 201 with the room read back.
    Respond(Result<(), ApiError>),
}

/// The outcome of what the shell was asked to do for a room creation.
pub enum CreateRoomEvent {
    /// The number of rows the insertion wrote.
    Inserted(Result<u64, DbError>),
    CreatorAdded(Result<(), DbError>),
    Fetched(Result<(), DbError>),
}

pub open spec fn room_refused(a: CreateRoomAction, status: u16, message: Seq<char>) -> bool {
    a matches CreateRoomAction::Respond(Err(e)) && e.is(status, message)
}

/// One step of a room creation.
pub open spec fn create_room_step(flow: CreateRoomFlow, event: CreateRoomEvent, after: CreateRoomFlow, action: CreateRoomAction) -> bool {
    &&& after.room_id == flow.room_id
    &&& after.user_id == flow.user_id
    &&& match (flow.stage, event) {
        (CreateRoomStage::Inserting, CreateRoomEvent::Inserted(r)) => match r {
            Ok(rows) => if rows == 0 {
                after.stage == CreateRoomStage::Done && room_refused(action, STATUS_INTERNAL_SERVER_ERROR, "failed to create room"@)
            } else {
                after.stage == CreateRoomStage::AddingCreator
                    && action == (CreateRoomAction::AddCreator { room_id: flow.room_id, user_id: flow.user_id })
            },
            Err(_) => after.stage == CreateRoomStage::Done
                && room_refused(action, STATUS_INTERNAL_SERVER_ERROR, "internal server error"@),
        },
        (CreateRoomStage::AddingCreator, CreateRoomEvent::CreatorAdded(r)) => match r {
            Ok(()) => after.stage == CreateRoomStage::Fetching && action == CreateRoomAction::FetchRoom(flow.room_id),
            Err(_) => after.stage == CreateRoomStage::Done
                && room_refused(action, STATUS_INTERNAL_SERVER_ERROR, "internal server error"@),
        },
        (CreateRoomStage::Fetching, CreateRoomEvent::Fetched(r)) => match r {
            Ok(()) => after.stage == CreateRoomStage::Done && action == CreateRoomAction::Respond(Ok(())),
            Err(_) => after.stage == CreateRoomStage::Done
                && room_refused(action, STATUS_INTERNAL_SERVER_ERROR, "internal server error"@),
        },
        _ => after.stage == CreateRoomStage::Done
            && room_refused(action, STATUS_INTERNAL_SERVER_ERROR, "internal server error"@),
    }
}

/// How a room creation by `user_id` starts: a blank name is refused; else
/// the room is to be inserted under a freshly drawn id, with the trimmed
/// name and the user as creator.
pub open spec fn create_room_start(req: CreateRoomRequest, user_id: u128, flow: CreateRoomFlow, action: CreateRoomAction) -> bool {
    &&& flow.user_id == user_id
    &&& if spec_trim(req.name@).len() == 0 {
        flow.stage == CreateRoomStage::Done && room_refused(action, 400, "room name is required"@)
    } else {
        &&& flow.stage == CreateRoomStage::Inserting
        &&& action matches CreateRoomAction::InsertRoom { room_id, name, created_by }
        &&& room_id == flow.room_id
        &&& name@ == spec_trim(req.name@)
        &&& created_by == user_id
        &&& is_drawn_uuid(room_id)
        &&& is_v4_uuid(room_id)
    }
}

impl CreateRoomFlow {
    /// A new room creation by `user_id`: a blank name is refused before
    /// anything is written; else a room with a fresh random id, the trimmed
    /// name and the user as creator is to be inserted.
    pub fn start(req: &CreateRoomRequest, user_id: u128) -> (r: (CreateRoomFlow, CreateRoomAction))
        ensures
            create_room_start(*req, user_id, r.0, r.1),
    {
        match room_name(req) {
            Err(e) => (CreateRoomFlow { stage: CreateRoomStage::Done, room_id: 0, user_id }, CreateRoomAction::Respond(Err(e))),
            Ok(name) => {
                let room_id = fresh_uuid();
                (
                    CreateRoomFlow { stage: CreateRoomStage::Inserting, room_id, user_id },
                    CreateRoomAction::InsertRoom { room_id, name, created_by: user_id },
                )
            },
        }
    }

    /// The next state and action: the creator joins only a room that was
    /// written, and the client hears of success only after that.
    pub fn step(self, event: CreateRoomEvent) -> (r: (CreateRoomFlow, CreateRoomAction))
        ensures
            create_room_step(self, event, r.0, r.1),
            r.1 is AddCreator ==> self.stage == CreateRoomStage::Inserting
                && (event matches CreateRoomEvent::Inserted(Ok(rows)) && rows > 0),
    {
        let room_id = self.room_id;
        let user_id = self.user_id;
        let done = CreateRoomFlow { stage: CreateRoomStage::Done, room_id, user_id };
        match (self.stage, event) {
            (CreateRoomStage::Inserting, CreateRoomEvent::Inserted(r)) => match room_insert_outcome(r) {
                Ok(()) => (
                    CreateRoomFlow { stage: CreateRoomStage::AddingCreator, room_id, user_id },
                    CreateRoomAction::AddCreator { room_id, user_id },
                ),
                Err(e) => (done, CreateRoomAction::Respond(Err(e))),
            },
            (CreateRoomStage::AddingCreator, CreateRoomEvent::CreatorAdded(r)) => match r {
                Ok(()) => (CreateRoomFlow { stage: CreateRoomStage::Fetching, room_id, user_id }, CreateRoomAction::FetchRoom(room_id)),
                Err(err) => (done, CreateRoomAction::Respond(Err(internal_error(err)))),
            },
            (CreateRoomStage::Fetching, CreateRoomEvent::Fetched(r)) => match r {
                Ok(()) => (done, CreateRoomAction::Respond(Ok(()))),
                Err(err) => (done, CreateRoomAction::Respond(Err(internal_error(err)))),
            },
            _ => (done, CreateRoomAction::Respond(Err(ApiError::new(STATUS_INTERNAL_SERVER_ERROR, "internal server error")))),
        }
    }
}

/// Where a join by invitation stands.
#[derive(Debug, PartialEq, Eq)]
pub enum JoinStage {
    FindingInvite,
    Joining,
    Done,
}

/// A join in progress: the joining user, and the room once the
/// invitation was found.
pub struct JoinFlow {
    pub stage: JoinStage,
    pub user_id: u128,
    pub room_id: u128,
}

/// What the shell is to do next for a join.
pub enum JoinAction {
    /// Look up the room that this code opens, if it has not expired.
    FindInvite(String),
    /// Make the user a member of the room.
    AddMember { room_id: u128, user_id: u128 },
    /// Answer the client: `Ok` carries the room joined.
    Respond(Result<u128, ApiError>),
}

/// The outcome of what the shell was asked to do for a join.
pub enum JoinEvent {
    InviteFound(Result<Option<u128>, DbError>),
    MemberAdded(Result<(), DbError>),
}

pub open spec fn join_refused(a: JoinAction, status: u16, message: Seq<char>) -> bool {
    a matches JoinAction::Respond(Err(e)) && e.is(status, message)
}

/// One step of a join.
pub open spec fn join_step(flow: JoinFlow, event: JoinEvent, after: JoinFlow, action: JoinAction) -> bool {
    &&& after.user_id == flow.user_id
    &&& match (flow.stage, event) {
        (JoinStage::FindingInvite, JoinEvent::InviteFound(r)) => match r {
            Ok(Some(room)) => after.stage == JoinStage::Joining && after.room_id == room
                && action == (JoinAction::AddMember { room_id: room, user_id: flow.user_id }),
            Ok(None) => after.stage == JoinStage::Done && join_refused(action, STATUS_NOT_FOUND, "invalid invite code"@),
            Err(_) => after.stage == JoinStage::Done && join_refused(action, STATUS_INTERNAL_SERVER_ERROR, "internal server error"@),
        },
        (JoinStage::Joining, JoinEvent::MemberAdded(r)) => {
            &&& after.stage == JoinStage::Done
            &&& match r {
                Ok(()) => action == JoinAction::Respond(Ok(flow.room_id)),
                Err(_) => join_refused(action, STATUS_INTERNAL_SERVER_ERROR, "internal server error"@),
            }
        },
        _ => after.stage == JoinStage::Done && join_refused(action, STATUS_INTERNAL_SERVER_ERROR, "internal server error"@),
    }
}

impl JoinFlow {
    /// A new join by `user_id`: the trimmed code is looked up first.
    pub fn start(req: &JoinRoomRequest, user_id: u128) -> (r: (JoinFlow, JoinAction))
        ensures
            r.0.stage == JoinStage::FindingInvite,
            r.0.user_id == user_id,
            r.1 matches JoinAction::FindInvite(code) && code@ == spec_trim(req.invite_code@),
    {
        (JoinFlow { stage: JoinStage::FindingInvite, user_id, room_id: 0 }, JoinAction::FindInvite(presented_invite_code(req)))
    }

    /// The next state and action: the user is added only to the room a
    /// live invitation opens.
    pub fn step(self, event: JoinEvent) -> (r: (JoinFlow, JoinAction))
        ensures
            join_step(self, event, r.0, r.1),
            r.1 matches JoinAction::AddMember { room_id, .. } ==> event == JoinEvent::InviteFound(Ok(Some(room_id))),
    {
        let user_id = self.user_id;
        match (self.stage, event) {
            (JoinStage::FindingInvite, JoinEvent::InviteFound(r)) => match invite_lookup_outcome(r) {
                Ok(room) => (JoinFlow { stage: JoinStage::Joining, user_id, room_id: room }, JoinAction::AddMember { room_id: room, user_id }),
                Err(e) => (JoinFlow { stage: JoinStage::Done, user_id, room_id: self.room_id }, JoinAction::Respond(Err(e))),
            },
            (JoinStage::Joining, JoinEvent::MemberAdded(r)) => {
                let done = JoinFlow { stage: JoinStage::Done, user_id, room_id: self.room_id };
                match r {
                    Ok(()) => (done, JoinAction::Respond(Ok(self.room_id))),
                    Err(err) => (done, JoinAction::Respond(Err(internal_error(err)))),
                }
            },
            _ => (
                JoinFlow { stage: JoinStage::Done, user_id, room_id: self.room_id },
                JoinAction::Respond(Err(ApiError::new(STATUS_INTERNAL_SERVER_ERROR, "internal server error"))),
            ),
        }
    }
}

/// Where an invitation request stands.
#[derive(Debug, PartialEq, Eq)]
pub enum InviteStage {
    CheckingMember,
    Storing,
    Done,
}

/// An invitation request in progress: the room and the inviting user.
pub struct InviteFlow {
    pub stage: InviteStage,
    pub room_id: u128,
    pub user_id: u128,
}

/// What the shell is to do next for an invitation.
pub enum InviteAction {
    /// Check that the user belongs to the room.
    CheckMembership { room_id: u128, user_id: u128 },
    /// Store an invitation to the room with this code, made by this user
    /// and valid for this many hours.
    StoreInvite { code: String, room_id: u128, created_by: u128, ttl_hours: i32 },
    /// Answer the client: `Ok` carries the stored code and its expiry.
    Respond(Result<(), ApiError>),
}

/// The outcome of what the shell was asked to do for an invitation.
pub enum InviteEvent {
    Checked(Result<bool, DbError>),
    Stored(Result<(), DbError>),
}

pub open spec fn invite_refused(a: InviteAction, status: u16, message: Seq<char>) -> bool {
    a matches InviteAction::Respond(Err(e)) && e.is(status, message)
}

/// One step of an invitation request; a new code is drawn at random.
pub open spec fn invite_step(flow: InviteFlow, event: InviteEvent, after: InviteFlow, action: InviteAction) -> bool {
    &&& after.room_id == flow.room_id
    &&& after.user_id == flow.user_id
    &&& match (flow.stage, event) {
        (InviteStage::CheckingMember, InviteEvent::Checked(r)) => match r {
            Ok(true) => {
                &&& after.stage == InviteStage::Storing
                &&& action matches InviteAction::StoreInvite { code, room_id, created_by, ttl_hours }
                &&& room_id == flow.room_id
                &&& created_by == flow.user_id
                &&& ttl_hours == INVITE_TTL_HOURS
                &&& code@.len() == INVITE_CODE_LEN
                &&& all_hex(code@)
                &&& exists|u: u128| code@ == #[trigger] spec_invite_code(u)
            },
            Ok(false) => after.stage == InviteStage::Done && invite_refused(action, STATUS_FORBIDDEN, "not a room member"@),
            Err(_) => after.stage == InviteStage::Done
                && invite_refused(action, STATUS_INTERNAL_SERVER_ERROR, "internal server error"@),
        },
        (InviteStage::Storing, InviteEvent::Stored(r)) => {
            &&& after.stage == InviteStage::Done
            &&& match r {
                Ok(()) => action == InviteAction::Respond(Ok(())),
                Err(_) => invite_refused(action, STATUS_INTERNAL_SERVER_ERROR, "internal server error"@),
            }
        },
        _ => after.stage == InviteStage::Done && invite_refused(action, STATUS_INTERNAL_SERVER_ERROR, "internal server error"@),
    }
}

impl InviteFlow {
    /// A new invitation of `user_id` to `room_id`: membership is checked
    /// first.
    pub fn start(room_id: u128, user_id: u128) -> (r: (InviteFlow, InviteAction))
        ensures
            r.0 == (InviteFlow { stage: InviteStage::CheckingMember, room_id, user_id }),
            r.1 == (InviteAction::CheckMembership { room_id, user_id }),
    {
        (InviteFlow { stage: InviteStage::CheckingMember, room_id, user_id }, InviteAction::CheckMembership { room_id, user_id })
    }

    /// The next state and action: only a member gets an invitation, and it
    /// lives for a day.
    pub fn step(self, event: InviteEvent) -> (r: (InviteFlow, InviteAction))
        ensures
            invite_step(self, event, r.0, r.1),
            r.1 is StoreInvite ==> event == InviteEvent::Checked(Ok(true)),
    {
        let room_id = self.room_id;
        let user_id = self.user_id;
        match (self.stage, event) {
            (InviteStage::CheckingMember, InviteEvent::Checked(r)) => match membership_outcome(r) {
                Ok(()) => {
                    let code = new_invite_code();
                    (
                        InviteFlow { stage: InviteStage::Storing, room_id, user_id },
                        InviteAction::StoreInvite { code, room_id, created_by: user_id, ttl_hours: INVITE_TTL_HOURS },
                    )
                },
                Err(e) => (InviteFlow { stage: InviteStage::Done, room_id, user_id }, InviteAction::Respond(Err(e))),
            },
            (InviteStage::Storing, InviteEvent::Stored(r)) => match r {
                Ok(()) => (InviteFlow { stage: InviteStage::Done, room_id, user_id }, InviteAction::Respond(Ok(()))),
                Err(err) => (InviteFlow { stage: InviteStage::Done, room_id, user_id }, InviteAction::Respond(Err(internal_error(err)))),
            },
            _ => (
                InviteFlow { stage: InviteStage::Done, room_id, user_id },
                InviteAction::Respond(Err(ApiError::new(STATUS_INTERNAL_SERVER_ERROR, "internal server error"))),
            ),
        }
    }
}

/// A new room's id is drawn at random by the UUID generator (a version-4
/// UUID), not made from the request or the creator: the room is inserted
/// under that id, with the trimmed name and the creator as given.
pub proof fn lemma_new_room_id_is_drawn(req: CreateRoomRequest, user_id: u128, flow: CreateRoomFlow, action: CreateRoomAction)
    requires
        create_room_start(req, user_id, flow, action),
        spec_trim(req.name@).len() > 0,
    ensures
        action matches CreateRoomAction::InsertRoom { room_id, created_by, .. } && created_by == user_id
            && room_id == flow.room_id && (exists|d: RandomUuid| #[trigger] d.spec_value() == room_id)
            && (room_id >> 76u128) & 0xfu128 == 4u128,
{
}

} // verus!
