//! Encryption of an uploaded file for its recipient.

use crate::cipher::{encryptable_len, padded_len};
use crate::envelope::{seal, seal_refusal, Envelope};
use crate::error::{HttpError, INTERNAL_SERVER_ERROR};
use crate::keywrap::{modulus_len, WrapError};
use vstd::prelude::*;
use vstd::string::StringExecFns;

verus! {

/// What `encrypt_file` refuses with, if it does; every refusal is a server
/// error. A body too long to pad is refused first, then a key text that is
/// not accepted, then a key without room for the payload.
pub open spec fn encryption_refusal(file_len: nat, public_pem: Seq<char>) -> Option<
    (u16, Seq<char>),
> {
    if !encryptable_len(file_len) {
        Some((INTERNAL_SERVER_ERROR, "File is too large to encrypt"@))
    } else {
        match seal_refusal(public_pem) {
            Some(WrapError::KeyFormat) => Some(
                (INTERNAL_SERVER_ERROR, "Invalid recipient public key"@),
            ),
            Some(WrapError::Encryption) => Some((INTERNAL_SERVER_ERROR, "Unable to encrypt file"@)),
            None => None,
        }
    }
}

/// Seals `file_data` for the owner of `user_public_key`, a PKCS#1 PEM text,
/// and returns the wrapped key, the ciphertext and the IV, in that order.
///
/// Refused exactly as `encryption_refusal` tells. What comes back is an
/// envelope sealed from `file_data`: an IV of 16 bytes, a ciphertext of the
/// padded length, and a wrapped key as long as the recipient's modulus.
pub fn encrypt_file(file_data: Vec<u8>, user_public_key: &str) -> (result: Result<
    (Vec<u8>, Vec<u8>, Vec<u8>),
    HttpError,
>)
    ensures
        match encryption_refusal(file_data@.len(), user_public_key@) {
            Some((status, message)) => result is Err && result->Err_0.is(status, message),
            None => result is Ok,
        },
        result matches Ok(parts) ==> {
            &&& parts.2@.len() == 16
            &&& parts.1@.len() == padded_len(file_data@.len())
            &&& parts.0@.len() == modulus_len(user_public_key@)
            &&& (Envelope { wrapped_key: parts.0, ciphertext: parts.1, iv: parts.2 }).sealed_from(
                file_data@,
            )
        },
{
    if file_data.len() > (isize::MAX as usize) - 16 {
        return Err(HttpError::server_error(String::from_str("File is too large to encrypt")));
    }
    match seal(file_data.as_slice(), user_public_key) {
        Ok(envelope) => Ok((envelope.wrapped_key, envelope.ciphertext, envelope.iv)),
        Err(WrapError::KeyFormat) => Err(
            HttpError::server_error(String::from_str("Invalid recipient public key")),
        ),
        Err(WrapError::Encryption) => Err(
            HttpError::server_error(String::from_str("Unable to encrypt file")),
        ),
    }
}

} // verus!
