//! Asymmetric key-wrap engine: RSA encryption with PKCS#1 v1.5 padding of a
//! 256-bit symmetric key.
//!
//! Keys cross this boundary as PKCS#1 PEM text. Wrapping draws padding from a
//! secure random source, so equal inputs give different outputs; unwrapping is
//! a function of its inputs.

use base64::prelude::{Engine, BASE64_STANDARD};
use rand::thread_rng;
use rsa::pkcs1::{DecodeRsaPrivateKey, DecodeRsaPublicKey};
use rsa::{Pkcs1v15Encrypt, RsaPrivateKey, RsaPublicKey};
use vstd::prelude::*;
use vstd::utf8::{decode_utf8, valid_utf8};

verus! {

/// Why a key could not be wrapped.
#[derive(Clone, Copy, Debug, PartialEq, Eq, Structural)]
pub enum WrapError {
    /// The public key text is no PKCS#1 PEM encoding of an acceptable key.
    KeyFormat,
    /// The key was read, and the RSA encryption refused the payload.
    Encryption,
}

/// Why a wrapped key could not be recovered.
#[derive(Clone, Copy, Debug, PartialEq, Eq, Structural)]
pub enum UnwrapError {
    /// The private key text is no PKCS#1 PEM encoding of an acceptable key.
    KeyFormat,
    /// The padding found after decryption is invalid, or what it frames is
    /// not 32 bytes long.
    Rejected,
}

/// Whether `RsaPublicKey::from_pkcs1_pem` accepts `pem`.
pub uninterp spec fn public_key_parses(pem: Seq<char>) -> bool;

/// The length in bytes of the modulus of the key that `public_pem` encodes,
/// as `RsaPublicKey::size` tells it.
pub uninterp spec fn modulus_len(public_pem: Seq<char>) -> nat;

/// Bytes that PKCS#1 v1.5 padding adds to a payload at the least.
pub const PADDING_OVERHEAD: usize = 11;

/// Whether the key that `public_pem` encodes has room for a 256-bit key and
/// its padding.
pub open spec fn has_room(public_pem: Seq<char>) -> bool {
    32 + PADDING_OVERHEAD <= modulus_len(public_pem)
}

/// Whether `RsaPrivateKey::from_pkcs1_pem` accepts `pem`.
pub uninterp spec fn private_key_parses(pem: Seq<char>) -> bool;

/// What `RsaPrivateKey::decrypt` with `Pkcs1v15Encrypt` recovers from
/// `wrapped` under the key that `private_pem` encodes: the framed payload, or
/// `None` where it reports an error.
pub uninterp spec fn rsa_unwrapped(private_pem: Seq<char>, wrapped: Seq<u8>) -> Option<Seq<u8>>;

/// The bytes that the standard base64 alphabet, with padding, encodes as
/// `text`, as `base64::prelude::BASE64_STANDARD` decodes them, or `None`
/// where it reports an error.
pub uninterp spec fn base64_decoded(text: Seq<char>) -> Option<Seq<u8>>;

#[verifier::external_type_specification]
#[verifier::external_body]
pub struct ExDecodeError(base64::DecodeError);

#[verifier::external_type_specification]
#[verifier::external_body]
pub struct ExFromUtf8Error(std::string::FromUtf8Error);

#[verifier::external_type_specification]
#[verifier::external_body]
pub struct ExRsaError(rsa::Error);

#[verifier::external_type_specification]
#[verifier::external_body]
pub struct ExPkcs1Error(rsa::pkcs1::Error);

/// `RsaPublicKey::from_pkcs1_pem`, then `RsaPublicKey::encrypt` with
/// `Pkcs1v15Encrypt` and the thread's random generator.
///
/// Trusted: the outer result tells whether the key text was accepted. An
/// accepted key encrypts exactly the payloads that, with eleven bytes of
/// padding, are no longer than its modulus, and what it returns is as long
/// as the modulus. Nothing is said of what a private key recovers from it.
#[verifier::external_body]
fn rsa_wrap(public_pem: &str, payload: &[u8]) -> (outcome: Result<
    Result<Vec<u8>, rsa::Error>,
    rsa::pkcs1::Error,
>)
    ensures
        outcome is Ok <==> public_key_parses(public_pem@),
        outcome matches Ok(inner) ==> (inner is Ok <==> payload@.len() + PADDING_OVERHEAD
            <= modulus_len(public_pem@)),
        outcome matches Ok(Ok(wrapped)) ==> wrapped@.len() == modulus_len(public_pem@),
{
    let key = RsaPublicKey::from_pkcs1_pem(public_pem)?;
    Ok(key.encrypt(&mut thread_rng(), Pkcs1v15Encrypt, payload))
}

/// `RsaPrivateKey::from_pkcs1_pem`, then `RsaPrivateKey::decrypt` with
/// `Pkcs1v15Encrypt`.
///
/// Trusted: the outer result tells whether the key text was accepted, the
/// inner one is the named outcome of the decryption.
#[verifier::external_body]
fn rsa_unwrap(private_pem: &str, wrapped: &[u8]) -> (outcome: Result<
    Result<Vec<u8>, rsa::Error>,
    rsa::pkcs1::Error,
>)
    ensures
        outcome is Ok <==> private_key_parses(private_pem@),
        outcome matches Ok(Ok(payload)) ==> rsa_unwrapped(private_pem@, wrapped@) == Some(
            payload@,
        ),
        outcome matches Ok(Err(_)) ==> rsa_unwrapped(private_pem@, wrapped@) is None,
{
    let key = RsaPrivateKey::from_pkcs1_pem(private_pem)?;
    Ok(key.decrypt(Pkcs1v15Encrypt, wrapped))
}

/// `Engine::decode` of `base64::prelude::BASE64_STANDARD`.
///
/// Trusted: the outcome is the named one.
#[verifier::external_body]
fn base64_decode(text: &str) -> (outcome: Result<Vec<u8>, base64::DecodeError>)
    ensures
        outcome matches Ok(bytes) ==> base64_decoded(text@) == Some(bytes@),
        outcome is Err ==> base64_decoded(text@) is None,
{
    BASE64_STANDARD.decode(text)
}

/// `String::from_utf8`.
///
/// Trusted: the bytes are accepted exactly where they are valid UTF-8, and
/// the string is then the text that they encode.
#[verifier::external_body]
fn utf8_text(bytes: Vec<u8>) -> (outcome: Result<String, std::string::FromUtf8Error>)
    ensures
        outcome is Ok <==> valid_utf8(bytes@),
        outcome matches Ok(text) ==> text@ == decode_utf8(bytes@),
{
    String::from_utf8(bytes)
}

/// The PEM text that a stored public key unwraps to: the stored form is the
/// base64 encoding of the UTF-8 bytes of the PEM text.
pub open spec fn stored_key_text(stored: Seq<char>) -> Option<Seq<char>> {
    match base64_decoded(stored) {
        Some(bytes) if valid_utf8(bytes) => Some(decode_utf8(bytes)),
        _ => None,
    }
}

/// The model of an exec decoding result.
pub open spec fn key_text_view(result: Result<String, WrapError>) -> Option<Seq<char>> {
    match result {
        Ok(text) => Some(text@),
        Err(_) => None,
    }
}

/// The decoded bytes as text, or `KeyFormat` where either step failed.
pub fn key_text_of(decoded: Result<Vec<u8>, base64::DecodeError>) -> (result: Result<
    String,
    WrapError,
>)
    ensures
        decoded is Err ==> result == Err::<String, WrapError>(WrapError::KeyFormat),
        decoded matches Ok(bytes) ==> (!valid_utf8(bytes@) ==> result == Err::<String, WrapError>(
            WrapError::KeyFormat,
        )) && (valid_utf8(bytes@) ==> result is Ok && result->Ok_0@ == decode_utf8(bytes@)),
{
    match decoded {
        Err(_) => Err(WrapError::KeyFormat),
        Ok(bytes) => match utf8_text(bytes) {
            Ok(text) => Ok(text),
            Err(_) => Err(WrapError::KeyFormat),
        },
    }
}

/// Unwraps a public key from its stored form to PEM text.
///
/// Fails, with `KeyFormat`, exactly where the stored form is not base64 or
/// the bytes it encodes are not UTF-8. Whether the text is a key is for
/// `wrap` to find out.
pub fn decode_public_key(stored: &str) -> (result: Result<String, WrapError>)
    ensures
        key_text_view(result) == stored_key_text(stored@),
        result matches Err(e) ==> e == WrapError::KeyFormat,
{
    key_text_of(base64_decode(stored))
}

/// Overwrites a key buffer with zeros.
pub fn wipe(key: &mut [u8; 32])
    ensures
        forall|i: int| 0 <= i < 32 ==> final(key)@[i] == 0,
{
    let mut i: usize = 0;
    while i < 32
        invariant
            i <= 32,
            forall|j: int| 0 <= j < i ==> key@[j] == 0,
        decreases 32 - i,
    {
        key[i] = 0;
        i += 1;
    }
}

/// Overwrites a buffer of any length with zeros.
pub fn wipe_bytes(bytes: &mut Vec<u8>)
    ensures
        final(bytes)@.len() == old(bytes)@.len(),
        forall|i: int| 0 <= i < final(bytes)@.len() ==> final(bytes)@[i] == 0,
{
    let mut i: usize = 0;
    while i < bytes.len()
        invariant
            i <= bytes@.len(),
            bytes@.len() == old(bytes)@.len(),
            forall|j: int| 0 <= j < i ==> bytes@[j] == 0,
        decreases bytes@.len() - i,
    {
        bytes[i] = 0;
        i += 1;
    }
}

/// The 32 bytes of `payload` as a key, where it has exactly 32.
pub fn key_from_bytes(payload: &Vec<u8>) -> (key: Option<[u8; 32]>)
    ensures
        key is Some <==> payload@.len() == 32,
        key matches Some(k) ==> k@ == payload@,
{
    if payload.len() != 32 {
        return None;
    }
    let mut key = [0u8; 32];
    let mut i: usize = 0;
    while i < 32
        invariant
            i <= 32,
            payload@.len() == 32,
            forall|j: int| 0 <= j < i ==> key@[j] == payload@[j],
        decreases 32 - i,
    {
        key[i] = payload[i];
        i += 1;
    }
    assert(key@ =~= payload@);
    Some(key)
}

/// The wrapped key, or the reason there is none, from what the RSA
/// encryption returned.
pub fn wrapped_key_of(outcome: Result<Result<Vec<u8>, rsa::Error>, rsa::pkcs1::Error>) -> (result:
    Result<Vec<u8>, WrapError>)
    ensures
        outcome is Err ==> result == Err::<Vec<u8>, WrapError>(WrapError::KeyFormat),
        outcome matches Ok(Err(_)) ==> result == Err::<Vec<u8>, WrapError>(WrapError::Encryption),
        outcome matches Ok(Ok(wrapped)) ==> result == Ok::<Vec<u8>, WrapError>(wrapped),
{
    match outcome {
        Err(_) => Err(WrapError::KeyFormat),
        Ok(Err(_)) => Err(WrapError::Encryption),
        Ok(Ok(wrapped)) => Ok(wrapped),
    }
}

/// The symmetric key, or the reason there is none, from what the RSA
/// decryption returned. A payload of any length but 32 is refused. The
/// payload's buffer is zeroed once the key is copied out of it.
pub fn symmetric_key_of(
    outcome: Result<Result<Vec<u8>, rsa::Error>, rsa::pkcs1::Error>,
) -> (result: Result<[u8; 32], UnwrapError>)
    ensures
        outcome is Err ==> result == Err::<[u8; 32], UnwrapError>(UnwrapError::KeyFormat),
        outcome matches Ok(Err(_)) ==> result == Err::<[u8; 32], UnwrapError>(
            UnwrapError::Rejected,
        ),
        outcome matches Ok(Ok(payload)) ==> (payload@.len() != 32 ==> result == Err::<
            [u8; 32],
            UnwrapError,
        >(UnwrapError::Rejected)) && (payload@.len() == 32 ==> result is Ok && result->Ok_0@
            == payload@),
{
    match outcome {
        Err(_) => Err(UnwrapError::KeyFormat),
        Ok(Err(_)) => Err(UnwrapError::Rejected),
        Ok(Ok(payload)) => {
            let mut payload = payload;
            let key = key_from_bytes(&payload);
            wipe_bytes(&mut payload);
            match key {
                Some(key) => Ok(key),
                None => Err(UnwrapError::Rejected),
            }
        },
    }
}

/// What `unwrap` returns, as a value of the model.
pub open spec fn unwrapping(wrapped: Seq<u8>, private_pem: Seq<char>) -> Result<
    Seq<u8>,
    UnwrapError,
> {
    if !private_key_parses(private_pem) {
        Err(UnwrapError::KeyFormat)
    } else {
        match rsa_unwrapped(private_pem, wrapped) {
            Some(payload) if payload.len() == 32 => Ok(payload),
            _ => Err(UnwrapError::Rejected),
        }
    }
}

/// The model of an exec unwrapping result.
pub open spec fn unwrapped_view(result: Result<[u8; 32], UnwrapError>) -> Result<
    Seq<u8>,
    UnwrapError,
> {
    match result {
        Ok(key) => Ok(key@),
        Err(e) => Err(e),
    }
}

/// Wraps `symmetric_key` under the public key that `recipient_public_key`
/// encodes.
///
/// Fails with `KeyFormat` exactly where the key text is not accepted, and
/// with `Encryption` exactly where it is accepted and its modulus has no
/// room for the key and the padding. A wrapped key is as long as the
/// modulus. That the private half of the key pair recovers `symmetric_key`
/// from it is RSA's own law and no part of this contract; `unwrap` tells
/// what a given private key recovers.
pub fn wrap(symmetric_key: &[u8; 32], recipient_public_key: &str) -> (result: Result<
    Vec<u8>,
    WrapError,
>)
    ensures
        result == Err::<Vec<u8>, WrapError>(WrapError::KeyFormat) <==> !public_key_parses(
            recipient_public_key@,
        ),
        result == Err::<Vec<u8>, WrapError>(WrapError::Encryption) <==> public_key_parses(
            recipient_public_key@,
        ) && !has_room(recipient_public_key@),
        result matches Ok(wrapped) ==> wrapped@.len() == modulus_len(recipient_public_key@),
{
    let outcome = rsa_wrap(recipient_public_key, symmetric_key.as_slice());
    wrapped_key_of(outcome)
}

/// Recovers the symmetric key from `wrapped` with the private key that
/// `recipient_private_key` encodes.
pub fn unwrap(wrapped: &[u8], recipient_private_key: &str) -> (result: Result<
    [u8; 32],
    UnwrapError,
>)
    ensures
        unwrapped_view(result) == unwrapping(wrapped@, recipient_private_key@),
{
    let outcome = rsa_unwrap(recipient_private_key, wrapped);
    symmetric_key_of(outcome)
}

} // verus!
