//! The order of the sign-up, login and refresh handlers. The shell does
//! each database call and the token signing that the flow asks for, and
//! reports the outcome; the flow decides what comes next and what the
//! client is answered.
use vstd::prelude::*;
use crate::auth::{
    auth_response, issue_access_claims, issue_refresh_token, login_lookup_outcome, normalize_credentials,
    normalized_email, normalized_password, refresh_lookup_key, refresh_lookup_outcome, refresh_revoke_outcome,
    refresh_store_outcome, signup_insert_outcome, spec_refresh_key, token_encode_failed, AuthResponse,
    RefreshRequest, RefreshTokenGrant, SignupRequest, UserRecord, ACCESS_TOKEN_TTL_SECS, REFRESH_TOKEN_TTL_SECS,
    clock_range,
};
use crate::crypto::{
    hash_password, is_refresh_token_shape, password_matches, refresh_digest, verify_password, MAX_PASSWORD_BYTES,
};
use vstd::utf8::encode_utf8;
use crate::error::{ApiError, DbError, STATUS_INTERNAL_SERVER_ERROR};
use crate::clock::{is_clock_reading, UtcInstant};
use crate::ids::{fresh_uuid, is_drawn_uuid, is_v4_uuid, uuid_hyphenated, RandomUuid};
use crate::security::{claims_for, JwtClaims};

verus! {

/// Where a sign-up, login or refresh stands, with what it has learned.
pub enum AuthStage {
    /// Sign-up: the new user is being stored.
    InsertingUser { user_id: u128, email: String },
    /// Login: the user is being looked up; the presented password waits.
    FindingUser { password: String },
    /// Refresh: the presented token's digest is being looked up.
    FindingToken { token_hash: String },
    /// Refresh: the presented token is being revoked.
    Revoking { user_id: u128, email: String },
    /// A new refresh token is being stored.
    StoringRefresh { user_id: u128, email: String, refresh_token: String },
    /// The access token is being signed.
    Signing { user_id: u128, email: String, refresh_token: String },
    Done,
}

pub struct AuthFlow {
    pub stage: AuthStage,
}

/// What the shell is to do next.
pub enum AuthAction {
    /// Store a new user under this id, address and password hash.
    InsertUser { user_id: u128, email: String, password_hash: String },
    /// Look up the user with this address.
    FindUser { email: String },
    /// Look up the live, unrevoked refresh token with this digest.
    FindRefreshToken { token_hash: String },
    /// Revoke the refresh token with this digest.
    RevokeRefreshToken { token_hash: String },
    /// Store this refresh token (its digest) for the user.
    StoreRefreshToken { user_id: u128, grant: RefreshTokenGrant },
    /// Sign these claims as the access token.
    SignAccessToken(JwtClaims),
    /// Answer the client.
    Respond(Result<AuthResponse, ApiError>),
}

/// The outcome of what the shell was asked to do.
pub enum AuthEvent {
    UserInserted(Result<(), DbError>),
    UserFound(Result<Option<UserRecord>, DbError>),
    TokenFound(Result<Option<(u128, String)>, DbError>),
    Revoked(Result<(), DbError>),
    RefreshStored(Result<(), DbError>),
    /// The signed access token, or nothing when signing failed.
    AccessSigned(Option<String>),
}

pub open spec fn answers_error(a: AuthAction, status: u16, message: Seq<char>) -> bool {
    a matches AuthAction::Respond(Err(e)) && e.is(status, message)
}

/// The flow goes on to hand `user_id` (with `email`) a fresh refresh
/// token: it asks for the token's digest to be stored.
pub open spec fn issues_refresh(after: AuthFlow, action: AuthAction, user_id: u128, email: String) -> bool {
    &&& after.stage matches AuthStage::StoringRefresh { user_id: u, email: e, refresh_token: t } && u == user_id
        && e == email && (action matches AuthAction::StoreRefreshToken { user_id: v, grant } && v == user_id
        && grant.token == t && grant.token_hash@ == refresh_digest(grant.token@) && is_refresh_token_shape(
        grant.token@,
    ) && grant.expires_at == grant.issued_at + REFRESH_TOKEN_TTL_SECS && is_clock_reading(
        grant.issued_at,
        grant.subsec_nanos,
    ) && is_drawn_uuid(grant.id))
}

/// One step of the flow: `after` is the next state and `action` what the
/// shell is to do.
pub open spec fn auth_step(flow: AuthFlow, event: AuthEvent, after: AuthFlow, action: AuthAction) -> bool {
    match (flow.stage, event) {
        (AuthStage::InsertingUser { user_id, email }, AuthEvent::UserInserted(r)) => match r {
            Ok(()) => issues_refresh(after, action, user_id, email),
            Err(err) => after.stage is Done && if err.unique_violation {
                answers_error(action, 409, "email already exists"@)
            } else {
                answers_error(action, 500, "failed to create user"@)
            },
        },
        (AuthStage::FindingUser { password }, AuthEvent::UserFound(r)) => match r {
            Ok(Some(u)) => if password_matches(password@, u.password_hash@) {
                issues_refresh(after, action, u.id, u.email)
            } else {
                after.stage is Done && answers_error(action, 401, "invalid credentials"@)
            },
            Ok(None) => after.stage is Done && answers_error(action, 401, "invalid credentials"@),
            Err(_) => after.stage is Done && answers_error(action, 500, "login failed"@),
        },
        (AuthStage::FindingToken { token_hash }, AuthEvent::TokenFound(r)) => match r {
            Ok(Some((user_id, email))) => after.stage == AuthStage::Revoking { user_id, email }
                && action == AuthAction::RevokeRefreshToken { token_hash },
            Ok(None) => after.stage is Done && answers_error(action, 401, "invalid refresh token"@),
            Err(_) => after.stage is Done && answers_error(action, 500, "refresh failed"@),
        },
        (AuthStage::Revoking { user_id, email }, AuthEvent::Revoked(r)) => match r {
            Ok(()) => issues_refresh(after, action, user_id, email),
            Err(_) => after.stage is Done && answers_error(action, 500, "refresh failed"@),
        },
        (AuthStage::StoringRefresh { user_id, email, refresh_token }, AuthEvent::RefreshStored(r)) => match r {
            Ok(()) => {
                &&& after.stage == AuthStage::Signing { user_id, email, refresh_token }
                &&& action matches AuthAction::SignAccessToken(c) && exists|t: i64|
                    clock_range(t) && #[trigger] claims_for(
                        c,
                        user_id,
                        Some(email@),
                        t as usize,
                        (t + ACCESS_TOKEN_TTL_SECS) as usize,
                    )
                &&& action matches AuthAction::SignAccessToken(c) && exists|i: UtcInstant|
                    clock_range(i.spec_secs()) && #[trigger] claims_for(
                        c,
                        user_id,
                        Some(email@),
                        i.spec_secs() as usize,
                        (i.spec_secs() + ACCESS_TOKEN_TTL_SECS) as usize,
                    )
            },
            Err(_) => after.stage is Done && answers_error(action, 500, "failed to create refresh token"@),
        },
        (AuthStage::Signing { user_id, email, refresh_token }, AuthEvent::AccessSigned(signed)) => {
            &&& after.stage is Done
            &&& match signed {
                Some(access_token) => action matches AuthAction::Respond(Ok(resp)) && resp.access_token
                    == access_token && resp.refresh_token == refresh_token && resp.user_id@ == uuid_hyphenated(
                    user_id,
                ) && resp.email == email,
                None => answers_error(action, 500, "token encode failed"@),
            }
        },
        _ => after.stage is Done && answers_error(action, 500, "internal server error"@),
    }
}

/// How a sign-up starts: blank credentials are refused; else the user is
/// to be stored under the normalised address with a hash that matches the
/// normalised password, unless the password is too long to hash.
pub open spec fn signup_start(req: SignupRequest, flow: AuthFlow, action: AuthAction) -> bool {
    if normalized_email(req.email@).len() == 0 || normalized_password(req.password@).len() == 0 {
        &&& flow.stage is Done
        &&& answers_error(action, 400, "email and password are required"@)
    } else if encode_utf8(normalized_password(req.password@)).len() <= MAX_PASSWORD_BYTES {
        &&& action matches AuthAction::InsertUser { user_id, email, password_hash }
        &&& flow.stage == AuthStage::InsertingUser { user_id, email }
        &&& is_drawn_uuid(user_id)
        &&& is_v4_uuid(user_id)
        &&& email@ == normalized_email(req.email@)
        &&& password_matches(normalized_password(req.password@), password_hash@)
    } else {
        &&& flow.stage is Done
        &&& answers_error(action, 500, "password hash failed"@)
    }
}

/// How a login starts: blank credentials are refused; else the user is
/// looked up by the normalised address, the normalised password kept.
pub open spec fn login_start(req: SignupRequest, flow: AuthFlow, action: AuthAction) -> bool {
    if normalized_email(req.email@).len() == 0 || normalized_password(req.password@).len() == 0 {
        flow.stage is Done && answers_error(action, 400, "email and password are required"@)
    } else {
        &&& flow.stage matches AuthStage::FindingUser { password } && password@ == normalized_password(req.password@)
        &&& action matches AuthAction::FindUser { email } && email@ == normalized_email(req.email@)
    }
}

/// Asks for a fresh refresh token of the user to be stored.
fn issue_tokens(user_id: u128, email: String) -> (r: (AuthFlow, AuthAction))
    ensures
        issues_refresh(r.0, r.1, user_id, email),
{
    let grant = issue_refresh_token();
    let refresh_token = grant.token.clone();
    (
        AuthFlow { stage: AuthStage::StoringRefresh { user_id, email, refresh_token } },
        AuthAction::StoreRefreshToken { user_id, grant },
    )
}

fn refused(e: ApiError) -> (r: (AuthFlow, AuthAction))
    ensures
        r.0.stage is Done,
        r.1 == AuthAction::Respond(Err(e)),
{
    (AuthFlow { stage: AuthStage::Done }, AuthAction::Respond(Err(e)))
}

impl AuthFlow {
    /// Sign-up: the normalised credentials must not be blank; the password
    /// is hashed under a fresh salt and the user is to be stored under a
    /// fresh id. Hashing fails only for a password longer than Argon2
    /// takes.
    pub fn signup(req: &SignupRequest) -> (r: (AuthFlow, AuthAction))
        ensures
            signup_start(*req, r.0, r.1),
    {
        let creds = match normalize_credentials(req) {
            Ok(c) => c,
            Err(e) => return refused(e),
        };
        let hashed = hash_password(creds.password.as_str());
        let user_id = fresh_uuid();
        AuthFlow::signup_hashed(creds.email, user_id, hashed)
    }

    /// Sign-up once the password was hashed: with a hash, the user is to be
    /// stored under `user_id` with the address and that hash; a failed hash
    /// is the answer.
    pub fn signup_hashed(email: String, user_id: u128, hashed: Result<String, ApiError>) -> (r: (AuthFlow, AuthAction))
        ensures
            match hashed {
                Ok(h) => {
                    &&& r.0.stage == AuthStage::InsertingUser { user_id, email }
                    &&& r.1 == AuthAction::InsertUser { user_id, email, password_hash: h }
                },
                Err(e) => r.0.stage is Done && r.1 == AuthAction::Respond(Err(e)),
            },
    {
        match hashed {
            Ok(password_hash) => {
                let stored = email.clone();
                (
                    AuthFlow { stage: AuthStage::InsertingUser { user_id, email: stored } },
                    AuthAction::InsertUser { user_id, email, password_hash },
                )
            },
            Err(e) => refused(e),
        }
    }

    /// Login: the normalised credentials must not be blank; the user is
    /// looked up by address.
    pub fn login(req: &SignupRequest) -> (r: (AuthFlow, AuthAction))
        ensures
            login_start(*req, r.0, r.1),
    {
        match normalize_credentials(req) {
            Ok(c) => (AuthFlow { stage: AuthStage::FindingUser { password: c.password } }, AuthAction::FindUser { email: c.email }),
            Err(e) => refused(e),
        }
    }

    /// Refresh: the presented token must not be blank; it is looked up by
    /// the digest of its trimmed text.
    pub fn refresh(req: &RefreshRequest) -> (r: (AuthFlow, AuthAction))
        ensures
            match spec_refresh_key(req.refresh_token@) {
                Some(k) => {
                    &&& r.0.stage matches AuthStage::FindingToken { token_hash } && token_hash@ == k
                    &&& r.1 matches AuthAction::FindRefreshToken { token_hash } && token_hash@ == k
                },
                None => r.0.stage is Done && answers_error(r.1, 400, "refresh_token is required"@),
            },
    {
        match refresh_lookup_key(req) {
            Ok(h) => {
                let token_hash = h.clone();
                (AuthFlow { stage: AuthStage::FindingToken { token_hash } }, AuthAction::FindRefreshToken { token_hash: h })
            },
            Err(e) => refused(e),
        }
    }

    /// The next state and action. Tokens are issued only to a user just
    /// stored, to one whose password matched, or for a refresh token just
    /// found and revoked; the client gets them only once both are in hand.
    pub fn step(self, event: AuthEvent) -> (r: (AuthFlow, AuthAction))
        ensures
            auth_step(self, event, r.0, r.1),
    {
        match (self.stage, event) {
            (AuthStage::InsertingUser { user_id, email }, AuthEvent::UserInserted(r)) => match signup_insert_outcome(r) {
                Ok(()) => issue_tokens(user_id, email),
                Err(e) => refused(e),
            },
            (AuthStage::FindingUser { password }, AuthEvent::UserFound(r)) => match login_lookup_outcome(r) {
                Ok(u) => match verify_password(password.as_str(), u.password_hash.as_str()) {
                    Ok(()) => issue_tokens(u.id, u.email),
                    Err(e) => refused(e),
                },
                Err(e) => refused(e),
            },
            (AuthStage::FindingToken { token_hash }, AuthEvent::TokenFound(r)) => match refresh_lookup_outcome(r) {
                Ok((user_id, email)) => (
                    AuthFlow { stage: AuthStage::Revoking { user_id, email } },
                    AuthAction::RevokeRefreshToken { token_hash },
                ),
                Err(e) => refused(e),
            },
            (AuthStage::Revoking { user_id, email }, AuthEvent::Revoked(r)) => match refresh_revoke_outcome(r) {
                Ok(()) => issue_tokens(user_id, email),
                Err(e) => refused(e),
            },
            (AuthStage::StoringRefresh { user_id, email, refresh_token }, AuthEvent::RefreshStored(r)) => {
                match refresh_store_outcome(r) {
                    Ok(()) => {
                        let claims = issue_access_claims(user_id, Some(email.as_str()));
                        (
                            AuthFlow { stage: AuthStage::Signing { user_id, email, refresh_token } },
                            AuthAction::SignAccessToken(claims),
                        )
                    },
                    Err(e) => refused(e),
                }
            },
            (AuthStage::Signing { user_id, email, refresh_token }, AuthEvent::AccessSigned(signed)) => match signed {
                Some(access_token) => (
                    AuthFlow { stage: AuthStage::Done },
                    AuthAction::Respond(Ok(auth_response(access_token, refresh_token, user_id, email))),
                ),
                None => refused(token_encode_failed()),
            },
            _ => refused(ApiError::new(STATUS_INTERNAL_SERVER_ERROR, "internal server error")),
        }
    }
}

/// Signing up and then logging in with the same credentials, up to
/// surrounding spaces and the address's letter case, finds the stored
/// user: login looks up the address sign-up stored, and once the database
/// hands back the row sign-up asked to store, the password matches and
/// tokens are issued to that user.
pub proof fn lemma_login_finds_signed_up_user(
    signup_req: SignupRequest,
    signup_flow: AuthFlow,
    stored: AuthAction,
    login_req: SignupRequest,
    login_flow: AuthFlow,
    lookup: AuthAction,
    user: UserRecord,
    after: AuthFlow,
    action: AuthAction,
)
    requires
        signup_start(signup_req, signup_flow, stored),
        stored is InsertUser,
        normalized_email(login_req.email@) == normalized_email(signup_req.email@),
        normalized_password(login_req.password@) == normalized_password(signup_req.password@),
        login_start(login_req, login_flow, lookup),
        stored matches AuthAction::InsertUser { user_id, email, password_hash } && user.id == user_id
            && user.email == email && user.password_hash == password_hash,
        auth_step(login_flow, AuthEvent::UserFound(Ok(Some(user))), after, action),
    ensures
        lookup matches AuthAction::FindUser { email } && email@ == user.email@,
        issues_refresh(after, action, user.id, user.email),
{
}

/// The access token that a sign-up, login or refresh asks to sign is
/// issued at a reading of the clock taken for it and expires a week after
/// that reading; it names the user and the address the flow holds.
pub proof fn lemma_access_token_issued_now(
    flow: AuthFlow,
    after: AuthFlow,
    action: AuthAction,
    user_id: u128,
    email: String,
    refresh_token: String,
)
    requires
        flow.stage == (AuthStage::StoringRefresh { user_id, email, refresh_token }),
        auth_step(flow, AuthEvent::RefreshStored(Ok(())), after, action),
    ensures
        action matches AuthAction::SignAccessToken(c) && c.sub@ == uuid_hyphenated(user_id) && exists|i: UtcInstant|
            clock_range(#[trigger] i.spec_secs()) && c.iat == i.spec_secs() as usize && c.exp == (i.spec_secs()
                + ACCESS_TOKEN_TTL_SECS) as usize,
{
}

/// Whenever a flow hands a user a refresh token, the token's grant is
/// issued at a reading of the clock taken for it (seconds and
/// nanoseconds) and expires thirty days after that reading, under a
/// freshly drawn row id; only the token's digest is to be stored.
pub proof fn lemma_refresh_token_issued_now(after: AuthFlow, action: AuthAction, user_id: u128, email: String)
    requires
        issues_refresh(after, action, user_id, email),
    ensures
        action matches AuthAction::StoreRefreshToken { user_id: u, grant } && u == user_id
            && grant.token_hash@ == refresh_digest(grant.token@) && (exists|i: UtcInstant|
            #[trigger] i.spec_secs() == grant.issued_at && i.spec_nanos() == grant.subsec_nanos
                && grant.expires_at == i.spec_secs() + REFRESH_TOKEN_TTL_SECS) && (exists|d: RandomUuid|
            #[trigger] d.spec_value() == grant.id),
{
}

} // verus!
