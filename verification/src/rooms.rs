//! Rooms, invitations and placements: who may act in a room, how rooms and
//! invitation codes are made, and what a placement must carry.
use vstd::prelude::*;
use vstd::string::*;
use crate::error::{
    internal_error, ApiError, DbError, STATUS_BAD_REQUEST, STATUS_FORBIDDEN, STATUS_INTERNAL_SERVER_ERROR,
    STATUS_NOT_FOUND,
};
use crate::ids::{format_simple, fresh_uuid, is_drawn_uuid, lemma_uuid_simple, uuid_simple};
use crate::text::{all_hex, owned, spec_trim, trim};

verus! {

/// The body of a room-creation request.
pub struct CreateRoomRequest {
    pub name: String,
}

/// The body of a join request.
pub struct JoinRoomRequest {
    pub invite_code: String,
}

/// Number of characters of an invitation code.
pub const INVITE_CODE_LEN: usize = 12;

/// Invitation codes stay valid for a day, for any number of joins.
pub const INVITE_TTL_HOURS: i32 = 24;

/// Number of entries of a placement's transform (a 4x4 matrix).
pub const TRANSFORM_LEN: usize = 16;

/// The name a room is created under: the requested name trimmed, which
/// must not be empty.
pub fn room_name(req: &CreateRoomRequest) -> (r: Result<String, ApiError>)
    ensures
        if spec_trim(req.name@).len() == 0 {
            r matches Err(e) && e.is(STATUS_BAD_REQUEST, "room name is required"@)
        } else {
            r matches Ok(n) && n@ == spec_trim(req.name@)
        },
{
    let name = trim(req.name.as_str());
    if name.unicode_len() == 0 {
        return Err(ApiError::new(STATUS_BAD_REQUEST, "room name is required"));
    }
    Ok(owned(name))
}

/// The answer to the insertion of a new room, given the number of rows it
/// wrote: a room must have been written.
pub fn room_insert_outcome(r: Result<u64, DbError>) -> (e: Result<(), ApiError>)
    ensures
        match r {
            Ok(rows) => if rows == 0 {
                e matches Err(x) && x.is(STATUS_INTERNAL_SERVER_ERROR, "failed to create room"@)
            } else {
                e is Ok
            },
            Err(_) => e matches Err(x) && x.is(STATUS_INTERNAL_SERVER_ERROR, "internal server error"@),
        },
{
    match r {
        Ok(rows) => if rows == 0 {
            Err(ApiError::new(STATUS_INTERNAL_SERVER_ERROR, "failed to create room"))
        } else {
            Ok(())
        },
        Err(err) => Err(internal_error(err)),
    }
}

/// The answer to the membership check that guards every room operation:
/// only members pass.
pub fn membership_outcome(r: Result<bool, DbError>) -> (e: Result<(), ApiError>)
    ensures
        match r {
            Ok(true) => e is Ok,
            Ok(false) => e matches Err(x) && x.is(STATUS_FORBIDDEN, "not a room member"@),
            Err(_) => e matches Err(x) && x.is(STATUS_INTERNAL_SERVER_ERROR, "internal server error"@),
        },
{
    match r {
        Ok(true) => Ok(()),
        Ok(false) => Err(ApiError::new(STATUS_FORBIDDEN, "not a room member")),
        Err(err) => Err(internal_error(err)),
    }
}

/// The invitation code a join request presents, trimmed.
pub fn presented_invite_code(req: &JoinRoomRequest) -> (r: String)
    ensures
        r@ == spec_trim(req.invite_code@),
{
    owned(trim(req.invite_code.as_str()))
}

/// The answer to the lookup of a live invitation: the room it opens; an
/// unknown or expired code is not found.
pub fn invite_lookup_outcome(r: Result<Option<u128>, DbError>) -> (e: Result<u128, ApiError>)
    ensures
        match r {
            Ok(Some(room)) => e == Ok::<u128, ApiError>(room),
            Ok(None) => e matches Err(x) && x.is(STATUS_NOT_FOUND, "invalid invite code"@),
            Err(_) => e matches Err(x) && x.is(STATUS_INTERNAL_SERVER_ERROR, "internal server error"@),
        },
{
    match r {
        Ok(Some(room)) => Ok(room),
        Ok(None) => Err(ApiError::new(STATUS_NOT_FOUND, "invalid invite code")),
        Err(err) => Err(internal_error(err)),
    }
}

/// The invitation code drawn from a UUID: the first twelve digits of its
/// simple form.
pub open spec fn spec_invite_code(u: u128) -> Seq<char> {
    uuid_simple(u).take(INVITE_CODE_LEN as int)
}

/// The invitation code made from a given UUID: twelve lower-case
/// hexadecimal digits.
pub fn invite_code_from(u: u128) -> (r: String)
    ensures
        r@ == spec_invite_code(u),
        r@.len() == INVITE_CODE_LEN,
        all_hex(r@),
{
    let simple = format_simple(u);
    proof {
        lemma_uuid_simple(u);
    }
    owned(simple.as_str().substring_char(0, INVITE_CODE_LEN))
}

/// A fresh invitation code, cut from a random UUID.
pub fn new_invite_code() -> (r: String)
    ensures
        exists|u: u128| r@ == #[trigger] spec_invite_code(u),
        exists|u: u128| is_drawn_uuid(u) && r@ == #[trigger] spec_invite_code(u),
        r@.len() == INVITE_CODE_LEN,
        all_hex(r@),
{
    let u = fresh_uuid();
    invite_code_from(u)
}

/// A placement's transform must have exactly sixteen entries.
pub fn check_transform_len(len: usize) -> (r: Result<(), ApiError>)
    ensures
        if len == TRANSFORM_LEN {
            r is Ok
        } else {
            r matches Err(e) && e.is(STATUS_BAD_REQUEST, "transform must have 16 elements"@)
        },
{
    if len != TRANSFORM_LEN {
        return Err(ApiError::new(STATUS_BAD_REQUEST, "transform must have 16 elements"));
    }
    Ok(())
}

/// The answer when a live-update event cannot be serialised.
pub fn event_serialize_failed(detail: &str) -> (e: ApiError)
    ensures
        e.status == STATUS_INTERNAL_SERVER_ERROR,
        e.message@ == "failed to serialize event: "@ + detail@,
{
    let mut message = owned("failed to serialize event: ");
    message.append(detail);
    ApiError { status: STATUS_INTERNAL_SERVER_ERROR, message }
}

/// The image URL a `placement_created` event carries: the signed download
/// URL of the placed image when the image is a known asset and signing it
/// succeeded (`signed` is `None` when the asset is unknown); none
/// otherwise, and the event is sent all the same.
pub fn event_image_url(signed: Option<Result<String, ApiError>>) -> (r: Option<String>)
    ensures
        match signed {
            Some(Ok(url)) => r == Some(url),
            _ => r is None,
        },
{
    match signed {
        Some(Ok(url)) => Some(url),
        _ => None,
    }
}

} // verus!
