//! Sign-up, login, token refresh and `/me`: the rules between the
//! database calls of those handlers, and the tokens they hand out.
use vstd::prelude::*;
use vstd::string::*;
use crate::crypto::{
    generate_refresh_token, hash_refresh_token, is_refresh_token_shape, refresh_digest,
};
use crate::error::{
    ApiError, DbError, STATUS_BAD_REQUEST, STATUS_CONFLICT, STATUS_INTERNAL_SERVER_ERROR,
    STATUS_UNAUTHORIZED,
};
use crate::clock::{is_clock_reading, utc_now, UtcInstant};
use crate::ids::{format_hyphenated, fresh_uuid, is_drawn_uuid, uuid_hyphenated};
use crate::security::{build_claims, claims_for, opt_str_view, opt_view, AuthenticatedUser, JwtClaims};
use crate::text::{hex_lower, lemma_hex_lower, lemma_trim_hex, lowercase_of, owned, spec_trim, to_lowercase, trim};

verus! {

/// Access tokens live a week.
pub const ACCESS_TOKEN_TTL_SECS: i64 = 60 * 60 * 24 * 7;

/// Refresh tokens live thirty days.
pub const REFRESH_TOKEN_TTL_SECS: i64 = 60 * 60 * 24 * 30;

/// The seconds since the Unix epoch that `Utc::now` can report: it never
/// reports a time before the epoch (it panics when the system clock is set
/// before it), and chrono's dates end about 262 000 years on.
pub open spec fn clock_range(t: i64) -> bool {
    0 <= t <= 10_000_000_000_000
}

/// The body of a sign-up or login request.
pub struct SignupRequest {
    pub email: String,
    pub password: String,
}

/// The answer to a successful sign-up, login or refresh.
pub struct AuthResponse {
    pub access_token: String,
    pub refresh_token: String,
    pub user_id: String,
    pub email: String,
}

/// The body of a refresh request.
pub struct RefreshRequest {
    pub refresh_token: String,
}

/// The answer of `/me`.
pub struct MeResponse {
    pub user_id: u128,
    pub email: String,
}

/// A user row as login reads it.
pub struct UserRecord {
    pub id: u128,
    pub email: String,
    pub password_hash: String,
}

/// Credentials after normalisation: the address trimmed and lower-cased,
/// the password trimmed.
pub struct Credentials {
    pub email: String,
    pub password: String,
}

pub open spec fn normalized_email(email: Seq<char>) -> Seq<char> {
    lowercase_of(spec_trim(email))
}

pub open spec fn normalized_password(password: Seq<char>) -> Seq<char> {
    spec_trim(password)
}

/// Normalises the credentials of a sign-up or login request; both must be
/// non-empty after normalisation, or the answer is 400.
pub fn normalize_credentials(req: &SignupRequest) -> (r: Result<Credentials, ApiError>)
    ensures
        ({
            let email = normalized_email(req.email@);
            let password = normalized_password(req.password@);
            if email.len() == 0 || password.len() == 0 {
                r matches Err(e) && e.is(STATUS_BAD_REQUEST, "email and password are required"@)
            } else {
                r matches Ok(c) && c.email@ == email && c.password@ == password
            }
        }),
        r is Err <==> spec_trim(req.email@).len() == 0 || spec_trim(req.password@).len() == 0,
{
    let email = to_lowercase(trim(req.email.as_str()));
    let password = trim(req.password.as_str());
    if email.as_str().unicode_len() == 0 || password.unicode_len() == 0 {
        return Err(ApiError::new(STATUS_BAD_REQUEST, "email and password are required"));
    }
    Ok(Credentials { email, password: owned(password) })
}

/// The answer to the insertion of a new user: a taken address is a
/// conflict, any other failure a 500.
pub fn signup_insert_outcome(r: Result<(), DbError>) -> (e: Result<(), ApiError>)
    ensures
        match r {
            Ok(()) => e is Ok,
            Err(err) => if err.unique_violation {
                e matches Err(x) && x.is(STATUS_CONFLICT, "email already exists"@)
            } else {
                e matches Err(x) && x.is(STATUS_INTERNAL_SERVER_ERROR, "failed to create user"@)
            },
        },
{
    match r {
        Ok(()) => Ok(()),
        Err(err) => if err.unique_violation {
            Err(ApiError::new(STATUS_CONFLICT, "email already exists"))
        } else {
            Err(ApiError::new(STATUS_INTERNAL_SERVER_ERROR, "failed to create user"))
        },
    }
}

/// The answer to the lookup of a user by address at login: an unknown
/// address is refused like a wrong password.
pub fn login_lookup_outcome(r: Result<Option<UserRecord>, DbError>) -> (e: Result<UserRecord, ApiError>)
    ensures
        match r {
            Ok(Some(u)) => e == Ok::<UserRecord, ApiError>(u),
            Ok(None) => e matches Err(x) && x.is(STATUS_UNAUTHORIZED, "invalid credentials"@),
            Err(_) => e matches Err(x) && x.is(STATUS_INTERNAL_SERVER_ERROR, "login failed"@),
        },
{
    match r {
        Ok(Some(u)) => Ok(u),
        Ok(None) => Err(ApiError::new(STATUS_UNAUTHORIZED, "invalid credentials")),
        Err(_) => Err(ApiError::new(STATUS_INTERNAL_SERVER_ERROR, "login failed")),
    }
}

/// The key under which a presented refresh token is looked up: the digest
/// of the trimmed token; an empty token is refused.
pub open spec fn spec_refresh_key(raw: Seq<char>) -> Option<Seq<char>> {
    if spec_trim(raw).len() == 0 {
        None
    } else {
        Some(refresh_digest(spec_trim(raw)))
    }
}

/// The lookup key of a refresh request, or 400 when it carries no token.
pub fn refresh_lookup_key(req: &RefreshRequest) -> (r: Result<String, ApiError>)
    ensures
        match spec_refresh_key(req.refresh_token@) {
            Some(k) => r matches Ok(s) && s@ == k,
            None => r matches Err(e) && e.is(STATUS_BAD_REQUEST, "refresh_token is required"@),
        },
{
    let raw = trim(req.refresh_token.as_str());
    if raw.unicode_len() == 0 {
        return Err(ApiError::new(STATUS_BAD_REQUEST, "refresh_token is required"));
    }
    Ok(hash_refresh_token(raw))
}

/// The answer to the lookup of a live, unrevoked refresh token: its user
/// id and that user's address.
pub fn refresh_lookup_outcome(r: Result<Option<(u128, String)>, DbError>) -> (e: Result<(u128, String), ApiError>)
    ensures
        match r {
            Ok(Some(rec)) => e == Ok::<(u128, String), ApiError>(rec),
            Ok(None) => e matches Err(x) && x.is(STATUS_UNAUTHORIZED, "invalid refresh token"@),
            Err(_) => e matches Err(x) && x.is(STATUS_INTERNAL_SERVER_ERROR, "refresh failed"@),
        },
{
    match r {
        Ok(Some(rec)) => Ok(rec),
        Ok(None) => Err(ApiError::new(STATUS_UNAUTHORIZED, "invalid refresh token")),
        Err(_) => Err(ApiError::new(STATUS_INTERNAL_SERVER_ERROR, "refresh failed")),
    }
}

/// The answer to the revocation of the presented refresh token.
pub fn refresh_revoke_outcome(r: Result<(), DbError>) -> (e: Result<(), ApiError>)
    ensures
        match r {
            Ok(()) => e is Ok,
            Err(_) => e matches Err(x) && x.is(STATUS_INTERNAL_SERVER_ERROR, "refresh failed"@),
        },
{
    match r {
        Ok(()) => Ok(()),
        Err(_) => Err(ApiError::new(STATUS_INTERNAL_SERVER_ERROR, "refresh failed")),
    }
}

/// A refresh token about to be stored: the row id, the token handed to
/// the client, its stored digest, and its lifetime.
pub struct RefreshTokenGrant {
    pub id: u128,
    pub token: String,
    pub token_hash: String,
    /// Seconds since the epoch at issue.
    pub issued_at: i64,
    /// Seconds since the epoch at expiry.
    pub expires_at: i64,
    /// The sub-second part, in nanoseconds, of both instants.
    pub subsec_nanos: u32,
}

/// A fresh refresh token, valid for thirty days from now. Only its digest
/// is to be stored.
pub fn issue_refresh_token() -> (g: RefreshTokenGrant)
    ensures
        is_refresh_token_shape(g.token@),
        g.token_hash@ == refresh_digest(g.token@),
        clock_range(g.issued_at),
        g.expires_at == g.issued_at + REFRESH_TOKEN_TTL_SECS,
        g.subsec_nanos < 1_000_000_000,
        is_clock_reading(g.issued_at, g.subsec_nanos),
        is_drawn_uuid(g.id),
{
    let token = generate_refresh_token();
    let token_hash = hash_refresh_token(token.as_str());
    let now = utc_now();
    let issued_at = now.secs();
    let subsec_nanos = now.subsec_nanos();
    let expires_at = issued_at + REFRESH_TOKEN_TTL_SECS;
    let id = fresh_uuid();
    RefreshTokenGrant { id, token, token_hash, issued_at, expires_at, subsec_nanos }
}

/// The answer to the storing of a refresh token.
pub fn refresh_store_outcome(r: Result<(), DbError>) -> (e: Result<(), ApiError>)
    ensures
        match r {
            Ok(()) => e is Ok,
            Err(_) => e matches Err(x) && x.is(STATUS_INTERNAL_SERVER_ERROR, "failed to create refresh token"@),
        },
{
    match r {
        Ok(()) => Ok(()),
        Err(_) => Err(ApiError::new(STATUS_INTERNAL_SERVER_ERROR, "failed to create refresh token")),
    }
}

/// The claims of an access token issued at `now` (seconds since the
/// epoch), expiring a week later.
pub fn access_claims_at(user_id: u128, email: Option<&str>, now: i64) -> (c: JwtClaims)
    requires
        now <= i64::MAX - ACCESS_TOKEN_TTL_SECS,
    ensures
        claims_for(c, user_id, opt_str_view(email), now as usize, (now + ACCESS_TOKEN_TTL_SECS) as usize),
{
    build_claims(user_id, email, now as usize, (now + ACCESS_TOKEN_TTL_SECS) as usize)
}

/// The claims of an access token issued now for a user.
pub fn issue_access_claims(user_id: u128, email: Option<&str>) -> (c: JwtClaims)
    ensures
        exists|t: i64|
            clock_range(t) && #[trigger] claims_for(
                c,
                user_id,
                opt_str_view(email),
                t as usize,
                (t + ACCESS_TOKEN_TTL_SECS) as usize,
            ),
        usize::MAX >= 10_000_000_000_000 + ACCESS_TOKEN_TTL_SECS ==> c.exp == c.iat + ACCESS_TOKEN_TTL_SECS,
        exists|i: UtcInstant|
            clock_range(i.spec_secs()) && #[trigger] claims_for(
                c,
                user_id,
                opt_str_view(email),
                i.spec_secs() as usize,
                (i.spec_secs() + ACCESS_TOKEN_TTL_SECS) as usize,
            ),
{
    let now = utc_now();
    access_claims_at(user_id, email, now.secs())
}

/// The answer when the access token cannot be signed.
pub fn token_encode_failed() -> (e: ApiError)
    ensures
        e.is(STATUS_INTERNAL_SERVER_ERROR, "token encode failed"@),
{
    ApiError::new(STATUS_INTERNAL_SERVER_ERROR, "token encode failed")
}

/// The answer to a successful sign-up, login or refresh.
pub fn auth_response(access_token: String, refresh_token: String, user_id: u128, email: String) -> (r: AuthResponse)
    ensures
        r.access_token == access_token,
        r.refresh_token == refresh_token,
        r.user_id@ == uuid_hyphenated(user_id),
        r.email == email,
{
    AuthResponse { access_token, refresh_token, user_id: format_hyphenated(user_id), email }
}

/// The answer of `/me`: the user and the address the token carries, empty
/// when it carries none.
pub fn me_response(user: &AuthenticatedUser) -> (r: MeResponse)
    ensures
        r.user_id == user.user_id,
        r.email@ == match opt_view(user.email) {
            Some(e) => e,
            None => Seq::<char>::empty(),
        },
{
    let email = match &user.email {
        Some(e) => owned(e.as_str()),
        None => String::new(),
    };
    MeResponse { user_id: user.user_id, email }
}

/// A refresh token handed out by [`issue_refresh_token`] is found again
/// under the digest stored for it: trimming leaves it unchanged and it is
/// never empty.
pub proof fn lemma_issued_refresh_token_is_found(token: Seq<char>)
    requires
        is_refresh_token_shape(token),
    ensures
        spec_refresh_key(token) == Some(refresh_digest(token)),
{
    let bytes = choose|bytes: Seq<u8>| bytes.len() == 32 && token == hex_lower(bytes);
    lemma_hex_lower(bytes);
    lemma_trim_hex(token);
}

/// An access token lives exactly a week (where the expiry fits in a
/// `usize`, as it does on 64-bit targets).
pub proof fn lemma_access_token_lifetime(c: JwtClaims, user_id: u128, email: Option<Seq<char>>, t: i64)
    requires
        clock_range(t),
        t + ACCESS_TOKEN_TTL_SECS <= usize::MAX,
        claims_for(c, user_id, email, t as usize, (t + ACCESS_TOKEN_TTL_SECS) as usize),
    ensures
        c.exp - c.iat == ACCESS_TOKEN_TTL_SECS,
{
}

} // verus!
