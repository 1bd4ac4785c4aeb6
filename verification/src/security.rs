//! Access-token claims and request authentication: which token a request
//! presents, and which user a token's claims name. Signing and checking the
//! token itself (HS256, expiry, audience) is done by `jsonwebtoken` in the
//! shell, which serialises these claims.
use vstd::prelude::*;
use vstd::string::*;
use crate::error::{ApiError, STATUS_UNAUTHORIZED};
use vstd::utf8::encode_utf8;
use crate::ids::{format_hyphenated, lemma_uuid_hyphenated_parses, parse, spec_uuid_parse, uuid_hyphenated};
use crate::text::{owned, strip_prefix};

verus! {

/// The claims of an access token.
pub struct JwtClaims {
    pub sub: String,
    pub exp: usize,
    pub iat: usize,
    pub email: Option<String>,
    pub aud: String,
}

/// The user a request was authenticated as.
#[derive(Clone)]
pub struct AuthenticatedUser {
    pub user_id: u128,
    pub email: Option<String>,
}

pub open spec fn opt_view(o: Option<String>) -> Option<Seq<char>> {
    match o {
        Some(s) => Some(s@),
        None => None,
    }
}

pub open spec fn opt_str_view(o: Option<&str>) -> Option<Seq<char>> {
    match o {
        Some(s) => Some(s@),
        None => None,
    }
}

/// The audience every access token is issued for and checked against.
pub open spec fn spec_audience() -> Seq<char> {
    "photoapp"@
}

pub fn audience() -> (r: String)
    ensures
        r@ == spec_audience(),
{
    owned("photoapp")
}

/// The claims of a token issued for `user_id`: the subject is the user's
/// UUID in hyphenated form.
pub open spec fn claims_for(
    c: JwtClaims,
    user_id: u128,
    email: Option<Seq<char>>,
    issued_at: usize,
    expires_at: usize,
) -> bool {
    &&& c.sub@ == uuid_hyphenated(user_id)
    &&& c.exp == expires_at
    &&& c.iat == issued_at
    &&& opt_view(c.email) == email
    &&& c.aud@ == spec_audience()
}

/// Builds the claims of an access token for a user.
pub fn build_claims(user_id: u128, email: Option<&str>, issued_at: usize, expires_at: usize) -> (c: JwtClaims)
    ensures
        claims_for(c, user_id, opt_str_view(email), issued_at, expires_at),
{
    let email = match email {
        Some(e) => Some(owned(e)),
        None => None,
    };
    JwtClaims { sub: format_hyphenated(user_id), exp: expires_at, iat: issued_at, email, aud: audience() }
}

/// The answer to a token that did not pass signature, expiry or audience
/// checks.
pub fn decode_jwt_outcome(decoded: Option<JwtClaims>) -> (r: Result<JwtClaims, ApiError>)
    ensures
        match decoded {
            Some(c) => r == Ok::<JwtClaims, ApiError>(c),
            None => r matches Err(e) && e.is(STATUS_UNAUTHORIZED, "invalid token"@),
        },
{
    match decoded {
        Some(c) => Ok(c),
        None => Err(ApiError::new(STATUS_UNAUTHORIZED, "invalid token")),
    }
}

/// The user a token's subject names. A subject written by [`build_claims`]
/// names the user it was written for.
pub fn parse_user_id(claims: &JwtClaims) -> (r: Result<u128, ApiError>)
    ensures
        match spec_uuid_parse(encode_utf8(claims.sub@)) {
            Some(u) => r == Ok::<u128, ApiError>(u),
            None => r matches Err(e) && e.is(STATUS_UNAUTHORIZED, "invalid token subject"@),
        },
        forall|v: u128| #![trigger uuid_hyphenated(v)] claims.sub@ == uuid_hyphenated(v) ==> r == Ok::<u128, ApiError>(v),
{
    proof {
        assert forall|v: u128| #![trigger uuid_hyphenated(v)] claims.sub@ == uuid_hyphenated(v) implies spec_uuid_parse(
            encode_utf8(claims.sub@),
        ) == Some(v) by {
            lemma_uuid_hyphenated_parses(v);
        }
    }
    match parse(claims.sub.as_str()) {
        Some(u) => Ok(u),
        None => Err(ApiError::new(STATUS_UNAUTHORIZED, "invalid token subject")),
    }
}

/// The token of an `Authorization` header value of the form
/// `Bearer <token>`.
pub open spec fn spec_bearer_token(authorization: Option<Seq<char>>) -> Option<Seq<char>> {
    match authorization {
        Some(v) => if "Bearer "@.is_prefix_of(v) {
            Some(v.skip(7))
        } else {
            None
        },
        None => None,
    }
}

/// The bearer token of the `Authorization` header (its value given as text,
/// if the request has one).
pub fn extract_bearer_token(authorization: Option<&str>) -> (r: Option<String>)
    ensures
        opt_view(r) == spec_bearer_token(opt_str_view(authorization)),
{
    proof {
        reveal_strlit("Bearer ");
    }
    match authorization {
        Some(value) => match strip_prefix(value, "Bearer ") {
            Some(token) => Some(owned(token)),
            None => None,
        },
        None => None,
    }
}

/// The token a request presents: the bearer token of its `Authorization`
/// header, or else the one given in the query string.
pub open spec fn spec_presented_token(
    authorization: Option<Seq<char>>,
    query_token: Option<Seq<char>>,
) -> Option<Seq<char>> {
    match spec_bearer_token(authorization) {
        Some(t) => Some(t),
        None => query_token,
    }
}

/// The token a request presents, or a 401 answer when it presents none.
pub fn extract_token(authorization: Option<&str>, query_token: Option<&str>) -> (r: Result<String, ApiError>)
    ensures
        match spec_presented_token(opt_str_view(authorization), opt_str_view(query_token)) {
            Some(t) => r matches Ok(s) && s@ == t,
            None => r matches Err(e) && e.is(STATUS_UNAUTHORIZED, "missing bearer token"@),
        },
{
    match extract_bearer_token(authorization) {
        Some(t) => Ok(t),
        None => match query_token {
            Some(q) => Ok(owned(q)),
            None => Err(ApiError::new(STATUS_UNAUTHORIZED, "missing bearer token")),
        },
    }
}

/// The user that decoded claims authenticate: the subject's UUID and the
/// e-mail address the token carries. Claims issued for a user by
/// [`build_claims`] authenticate that user with that address.
pub fn authenticated_user(claims: JwtClaims) -> (r: Result<AuthenticatedUser, ApiError>)
    ensures
        match spec_uuid_parse(encode_utf8(claims.sub@)) {
            Some(u) => r matches Ok(user) && user.user_id == u && user.email == claims.email,
            None => r matches Err(e) && e.is(STATUS_UNAUTHORIZED, "invalid token subject"@),
        },
        forall|v: u128, email: Option<Seq<char>>, iat: usize, exp: usize|
            #![trigger claims_for(claims, v, email, iat, exp)]
            claims_for(claims, v, email, iat, exp) ==> (r matches Ok(user) && user.user_id == v
                && opt_view(user.email) == email),
{
    let user_id = parse_user_id(&claims)?;
    Ok(AuthenticatedUser { user_id, email: claims.email })
}

} // verus!
