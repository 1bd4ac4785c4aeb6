use vstd::prelude::*;
use vstd::string::*;

verus! {

pub const STATUS_OK: u16 = 200;
pub const STATUS_CREATED: u16 = 201;
pub const STATUS_BAD_REQUEST: u16 = 400;
pub const STATUS_UNAUTHORIZED: u16 = 401;
pub const STATUS_FORBIDDEN: u16 = 403;
pub const STATUS_NOT_FOUND: u16 = 404;
pub const STATUS_CONFLICT: u16 = 409;
pub const STATUS_INTERNAL_SERVER_ERROR: u16 = 500;
pub const STATUS_BAD_GATEWAY: u16 = 502;
pub const STATUS_SERVICE_UNAVAILABLE: u16 = 503;

/// An error answer of the API: an HTTP status code and a plain-text message.
#[derive(Debug)]
pub struct ApiError {
    pub status: u16,
    pub message: String,
}

impl ApiError {
    /// The error carries exactly this status and this message.
    pub open spec fn is(self, status: u16, message: Seq<char>) -> bool {
        self.status == status && self.message@ == message
    }

    pub fn new(status: u16, message: &str) -> (e: ApiError)
        ensures
            e.is(status, message@),
    {
        ApiError { status, message: String::from_str(message) }
    }
}

/// What the shell reports of a failed database call: whether the database
/// refused it for breaking a unique constraint.
#[derive(Clone, Copy, Debug)]
pub struct DbError {
    pub unique_violation: bool,
}

/// Any database failure becomes a 500 answer with a fixed message; the
/// details stay in the server log.
pub fn internal_error(err: DbError) -> (e: ApiError)
    ensures
        e.is(STATUS_INTERNAL_SERVER_ERROR, "internal server error"@),
{
    ApiError::new(STATUS_INTERNAL_SERVER_ERROR, "internal server error")
}

/// The outcome of a database call whose failure is answered as in
/// [`internal_error`].
pub open spec fn db_answer<T>(r: Result<T, DbError>, e: Result<T, ApiError>) -> bool {
    match r {
        Ok(v) => e == Ok::<T, ApiError>(v),
        Err(_) => e matches Err(err) && err.is(STATUS_INTERNAL_SERVER_ERROR, "internal server error"@),
    }
}

/// Passes a successful database result on, and turns a failure into the
/// internal-error answer.
pub fn db_step<T>(r: Result<T, DbError>) -> (e: Result<T, ApiError>)
    ensures
        db_answer(r, e),
{
    match r {
        Ok(v) => Ok(v),
        Err(err) => Err(internal_error(err)),
    }
}

} // verus!
