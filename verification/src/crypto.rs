//! Password hashing and refresh-token material: Argon2 for passwords,
//! SHA-256 for stored refresh-token digests, the operating system's random
//! source for fresh secrets.
use vstd::prelude::*;
use vstd::string::*;
use vstd::utf8::encode_utf8;
use sha2::Digest;
use argon2::PasswordHasher;
use argon2::PasswordVerifier;
use rand::RngCore;
use crate::error::{ApiError, STATUS_INTERNAL_SERVER_ERROR, STATUS_UNAUTHORIZED};
use crate::text::{all_hex, hex_encode, hex_lower, lemma_hex_lower};

verus! {

/// The SHA-256 digest of a byte string.
pub uninterp spec fn sha256_of(data: Seq<u8>) -> Seq<u8>;

/// `Sha256::digest`: the 32-byte SHA-256 digest of `data`.
#[verifier::external_body]
fn sha256(data: &[u8]) -> (r: Vec<u8>)
    ensures
        r@ == sha256_of(data@),
        r@.len() == 32,
{
    sha2::Sha256::digest(data).to_vec()
}

/// `OsRng.fill_bytes`: `len` bytes from the operating system's random
/// source. Nothing is claimed of their values. (`fill_bytes` panics only
/// when the operating system cannot supply randomness at all.)
#[verifier::external_body]
fn os_random_bytes(len: usize) -> (r: Vec<u8>)
    ensures
        r@.len() == len,
{
    let mut bytes = vec![0u8; len];
    rand::rngs::OsRng.fill_bytes(&mut bytes);
    bytes
}

/// The B64 text (unpadded, standard alphabet) that `SaltString::encode_b64`
/// makes of a salt's bytes.
pub uninterp spec fn b64_salt_of(bytes: Seq<u8>) -> Seq<char>;

/// A salt as `SaltString::generate` makes one: the B64 text of 16 bytes.
pub open spec fn is_generated_salt(salt: Seq<char>) -> bool {
    exists|bytes: Seq<u8>| bytes.len() == 16 && salt == #[trigger] b64_salt_of(bytes)
}

/// The longest password, in bytes, that Argon2 hashes (`MAX_PWD_LEN`).
pub const MAX_PASSWORD_BYTES: u64 = 0xFFFF_FFFF;

/// `SaltString::encode_b64(bytes)` as text. It fails only when the text
/// would not fit the 64 characters a salt may have, which 48 bytes never
/// exceed.
#[verifier::external_body]
fn encode_salt(bytes: &[u8]) -> (r: Option<String>)
    ensures
        r matches Some(salt) ==> salt@ == b64_salt_of(bytes@),
        bytes@.len() <= 48 ==> r is Some,
{
    argon2::password_hash::SaltString::encode_b64(bytes).ok().map(|salt| salt.as_str().to_string())
}

/// The PHC string that `Argon2::default().hash_password` produces for a
/// password and a B64 salt, if it produces one.
pub uninterp spec fn argon2_phc(password: Seq<u8>, salt: Seq<char>) -> Option<Seq<char>>;

/// Whether `Argon2::default().verify_password` accepts a password against
/// a PHC string (a string that does not parse as one is not accepted).
pub uninterp spec fn argon2_accepts(password: Seq<u8>, phc: Seq<char>) -> bool;

/// `Argon2::default().hash_password(password, &salt)`, the salt given in
/// B64 and the hash returned as its PHC string. As the crate documents, a
/// hash it produces verifies the password it was made from. With the
/// default parameters it fails only on a salt that does not parse or
/// decodes to fewer than 8 bytes, or on a password over `MAX_PWD_LEN`
/// bytes; so a generated salt and a password within that bound always
/// give a hash, and a longer password never does.
#[verifier::external_body]
fn argon2_hash(password: &[u8], salt: &str) -> (r: Option<String>)
    ensures
        r matches Some(h) ==> argon2_phc(password@, salt@) == Some(h@),
        r is None ==> argon2_phc(password@, salt@) is None,
        r matches Some(h) ==> argon2_accepts(password@, h@),
        is_generated_salt(salt@) && password@.len() <= MAX_PASSWORD_BYTES ==> r is Some,
        password@.len() > MAX_PASSWORD_BYTES ==> r is None,
{
    let salt = argon2::password_hash::SaltString::from_b64(salt).ok()?;
    argon2::Argon2::default().hash_password(password, &salt).ok().map(|h| h.to_string())
}

/// A string that can be a PHC string at all: `PasswordHash::new` refuses
/// at once one that is empty or does not begin with `$`.
pub open spec fn phc_shaped(s: Seq<char>) -> bool {
    s.len() > 0 && s[0] == '$'
}

/// `Argon2::default().verify_password` against the PHC string `phc`
/// (parsed with `PasswordHash::new`; a string that does not parse, among
/// them every string that is not `phc_shaped`, is rejected).
#[verifier::external_body]
fn argon2_verify(password: &[u8], phc: &str) -> (r: bool)
    ensures
        r == argon2_accepts(password@, phc@),
        !phc_shaped(phc@) ==> !r,
{
    match argon2::PasswordHash::new(phc) {
        Ok(parsed) => argon2::Argon2::default().verify_password(password, &parsed).is_ok(),
        Err(_) => false,
    }
}

/// The stored hash `phc` matches the password `password`.
pub open spec fn password_matches(password: Seq<char>, phc: Seq<char>) -> bool {
    argon2_accepts(encode_utf8(password), phc)
}

/// Hashes a password with a given salt: the PHC string, or a 500 answer
/// where Argon2 produces none.
pub fn hash_password_with_salt(password: &str, salt: &str) -> (r: Result<String, ApiError>)
    ensures
        match argon2_phc(encode_utf8(password@), salt@) {
            Some(h) => r matches Ok(s) && s@ == h,
            None => r matches Err(e) && e.is(STATUS_INTERNAL_SERVER_ERROR, "password hash failed"@),
        },
        r matches Ok(h) ==> password_matches(password@, h@),
        is_generated_salt(salt@) && encode_utf8(password@).len() <= MAX_PASSWORD_BYTES ==> r is Ok,
        encode_utf8(password@).len() > MAX_PASSWORD_BYTES ==> r is Err,
{
    match argon2_hash(password.as_bytes(), salt) {
        Some(h) => Ok(h),
        None => Err(ApiError::new(STATUS_INTERNAL_SERVER_ERROR, "password hash failed")),
    }
}

/// Hashes a password under a fresh random salt: 16 bytes from the
/// operating system's random source in B64, as `SaltString::generate`
/// makes one. Which hash comes out rests on the salt; whatever it is, it
/// verifies the password, and any password Argon2 takes (at most
/// `MAX_PWD_LEN` bytes) gets one.
pub fn hash_password(password: &str) -> (r: Result<String, ApiError>)
    ensures
        r matches Ok(h) ==> password_matches(password@, h@),
        r matches Err(e) ==> e.is(STATUS_INTERNAL_SERVER_ERROR, "password hash failed"@),
        r is Ok <==> encode_utf8(password@).len() <= MAX_PASSWORD_BYTES,
{
    let bytes = os_random_bytes(16);
    match encode_salt(bytes.as_slice()) {
        Some(salt) => hash_password_with_salt(password, salt.as_str()),
        None => Err(ApiError::new(STATUS_INTERNAL_SERVER_ERROR, "password hash failed")),
    }
}

/// Checks a password against a stored PHC string; a mismatch, or a stored
/// string that is no PHC hash, is a 401 answer.
pub fn verify_password(password: &str, hash: &str) -> (r: Result<(), ApiError>)
    ensures
        r is Ok <==> password_matches(password@, hash@),
        !phc_shaped(hash@) ==> r is Err,
        r matches Err(e) ==> e.is(STATUS_UNAUTHORIZED, "invalid credentials"@),
{
    if argon2_verify(password.as_bytes(), hash) {
        Ok(())
    } else {
        Err(ApiError::new(STATUS_UNAUTHORIZED, "invalid credentials"))
    }
}

/// The digest under which a refresh token is stored: the lower-case hex of
/// the SHA-256 of its UTF-8 bytes.
pub open spec fn refresh_digest(token: Seq<char>) -> Seq<char> {
    hex_lower(sha256_of(encode_utf8(token)))
}

/// The stored form of a refresh token; a token is never stored in clear.
pub fn hash_refresh_token(token: &str) -> (r: String)
    ensures
        r@ == refresh_digest(token@),
        r@.len() == 64,
        all_hex(r@),
{
    let digest = sha256(token.as_bytes());
    let r = hex_encode(digest.as_slice());
    proof {
        lemma_hex_lower(digest@);
    }
    r
}

/// A refresh token as handed to a client: 32 random bytes in lower-case
/// hex.
pub open spec fn is_refresh_token_shape(token: Seq<char>) -> bool {
    exists|bytes: Seq<u8>| bytes.len() == 32 && token == hex_lower(bytes)
}

/// A fresh refresh token: 64 lower-case hexadecimal digits drawn from the
/// operating system's random source.
pub fn generate_refresh_token() -> (r: String)
    ensures
        is_refresh_token_shape(r@),
        r@.len() == 64,
        all_hex(r@),
{
    let bytes = os_random_bytes(32);
    let r = hex_encode(bytes.as_slice());
    proof {
        lemma_hex_lower(bytes@);
    }
    r
}

} // verus!
