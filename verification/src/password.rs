//! Salted one-way hashing of passwords, and the comparison of an attempt
//! with a stored hash.
//!
//! Hashes are Argon2id in the PHC string format, each under a salt drawn
//! from a secure random source. The comparison of digests is the `argon2`
//! crate's, which runs in constant time.

use crate::error::ErrorMessage;
use argon2::password_hash::{PasswordHash, PasswordHasher, PasswordVerifier, SaltString};
use argon2::Argon2;
use rand::thread_rng;
use vstd::prelude::*;
use vstd::string::StringSliceAdditionalSpecFns;
use vstd::utf8::encode_utf8;

verus! {

/// The longest password, in bytes of UTF-8, that the hasher takes.
pub const MAX_PASSWORD_BYTES: usize = 0xFFFF_FFFF;

/// Whether the hasher takes `password`: its UTF-8 encoding is no longer than
/// `MAX_PASSWORD_BYTES`.
pub open spec fn hashable(password: Seq<char>) -> bool {
    encode_utf8(password).len() <= MAX_PASSWORD_BYTES
}

/// Whether `PasswordHash::new` accepts `hash` as a PHC string.
pub uninterp spec fn hash_parses(hash: Seq<char>) -> bool;

/// Whether `Argon2::verify_password` accepts `password` for the PHC string
/// `hash`.
pub uninterp spec fn argon2_verifies(password: Seq<char>, hash: Seq<char>) -> bool;

#[verifier::external_type_specification]
#[verifier::external_body]
pub struct ExPasswordHashError(argon2::password_hash::Error);

/// `SaltString::generate` with the thread's random generator, then
/// `Argon2::hash_password` with the default parameters, written out as a PHC
/// string.
///
/// Trusted: the hasher refuses a password exactly where it is longer than
/// `MAX_PASSWORD_BYTES`, and a hash that comes back is a PHC string that
/// verifies the password it was made from.
#[verifier::external_body]
fn argon2_hash(password: &str) -> (outcome: Result<String, argon2::password_hash::Error>)
    ensures
        outcome is Ok <==> hashable(password@),
        outcome matches Ok(hash) ==> hash_parses(hash@) && argon2_verifies(password@, hash@),
{
    let salt = SaltString::generate(&mut thread_rng());
    Ok(Argon2::default().hash_password(password.as_bytes(), &salt)?.to_string())
}

/// `PasswordHash::new`, then `Argon2::verify_password` with the default
/// parameters.
///
/// Trusted: the outer result tells whether the hash was accepted as a PHC
/// string, the inner one whether the password verified.
#[verifier::external_body]
fn argon2_verify(password: &str, hash: &str) -> (outcome: Result<
    Result<(), argon2::password_hash::Error>,
    argon2::password_hash::Error,
>)
    ensures
        outcome is Ok <==> hash_parses(hash@),
        outcome matches Ok(verdict) ==> (verdict is Ok <==> argon2_verifies(password@, hash@)),
{
    let parsed = PasswordHash::new(hash)?;
    Ok(Argon2::default().verify_password(password.as_bytes(), &parsed))
}

/// Whether `hash` is a well-formed hash that `password` verifies against.
pub open spec fn accepts(password: Seq<char>, hash: Seq<char>) -> bool {
    hash_parses(hash) && argon2_verifies(password, hash)
}

/// The stored form of a password, from what the hasher returned.
pub fn hashed_of(outcome: Result<String, argon2::password_hash::Error>) -> (result: Result<
    String,
    ErrorMessage,
>)
    ensures
        outcome matches Ok(hash) ==> result == Ok::<String, ErrorMessage>(hash),
        outcome is Err ==> result == Err::<String, ErrorMessage>(ErrorMessage::HashingError),
{
    match outcome {
        Ok(hash) => Ok(hash),
        Err(_) => Err(ErrorMessage::HashingError),
    }
}

/// The verdict on an attempt, from what the verifier returned.
pub fn verdict_of(
    outcome: Result<Result<(), argon2::password_hash::Error>, argon2::password_hash::Error>,
) -> (result: Result<bool, ErrorMessage>)
    ensures
        outcome is Err ==> result == Err::<bool, ErrorMessage>(ErrorMessage::InvalidHashFormat),
        outcome matches Ok(verdict) ==> result == Ok::<bool, ErrorMessage>(verdict is Ok),
{
    match outcome {
        Err(_) => Err(ErrorMessage::InvalidHashFormat),
        Ok(Ok(_)) => Ok(true),
        Ok(Err(_)) => Ok(false),
    }
}

/// Hashes `password` under a fresh salt.
///
/// Succeeds exactly where the password is no longer than
/// `MAX_PASSWORD_BYTES`; the failure is `HashingError`. A hash that is
/// returned is well formed and matches `password`. Which hash it is depends
/// on the salt that was drawn.
pub fn hash(password: &str) -> (result: Result<String, ErrorMessage>)
    ensures
        result is Ok <==> hashable(password@),
        result matches Ok(hashed) ==> accepts(password@, hashed@),
        result matches Err(e) ==> e == ErrorMessage::HashingError,
{
    hashed_of(argon2_hash(password))
}

/// What `compare` returns.
pub open spec fn comparison(password: Seq<char>, hashed_password: Seq<char>) -> Result<
    bool,
    ErrorMessage,
> {
    if hash_parses(hashed_password) {
        Ok(argon2_verifies(password, hashed_password))
    } else {
        Err(ErrorMessage::InvalidHashFormat)
    }
}

/// Compares an attempt with a stored hash.
pub fn compare(password: &str, hashed_password: &str) -> (result: Result<bool, ErrorMessage>)
    ensures
        result == comparison(password@, hashed_password@),
{
    verdict_of(argon2_verify(password, hashed_password))
}

} // verus!
