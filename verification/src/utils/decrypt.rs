//! Decryption of a stored file for its recipient.

use crate::envelope::{AccessError, Envelope};
use crate::error::{HttpError, INTERNAL_SERVER_ERROR};
use crate::keywrap::private_key_parses;
use vstd::prelude::*;
use vstd::string::StringExecFns;

verus! {

/// What `decrypt_file` returns, as a value of the model: the plaintext, or
/// the status and message of the failure.
pub open spec fn file_decryption(envelope: Envelope, private_pem: Seq<char>) -> Result<
    Seq<u8>,
    (u16, Seq<char>),
> {
    match envelope.decrypting(private_pem) {
        Ok(plaintext) => Ok(plaintext),
        Err(AccessError::KeyFormat) => Err((INTERNAL_SERVER_ERROR, "Invalid private key"@)),
        Err(_) => Err((INTERNAL_SERVER_ERROR, "Unable to retrieve file"@)),
    }
}

/// Whether an exec result is the value `expected` of the model.
pub open spec fn is_outcome(
    result: Result<Vec<u8>, HttpError>,
    expected: Result<Seq<u8>, (u16, Seq<char>)>,
) -> bool {
    match expected {
        Ok(plaintext) => result is Ok && result->Ok_0@ == plaintext,
        Err((status, message)) => result is Err && result->Err_0.is(status, message),
    }
}

/// Recovers a file from its wrapped key, its ciphertext and its IV with the
/// private key that `user_private_key` encodes as PKCS#1 PEM text.
///
/// Every failure is a server error. A key text that is not accepted is
/// reported as such; every failure past that carries one message, which
/// does not tell the key from the body. A body that is empty or no whole
/// number of blocks is always refused, and a plaintext that comes back is
/// between one and sixteen bytes shorter than the body.
pub fn decrypt_file(
    encrypted_aes_key: Vec<u8>,
    encrypted_file: Vec<u8>,
    iv: Vec<u8>,
    user_private_key: &str,
) -> (result: Result<Vec<u8>, HttpError>)
    ensures
        is_outcome(
            result,
            file_decryption(
                Envelope { wrapped_key: encrypted_aes_key, ciphertext: encrypted_file, iv },
                user_private_key@,
            ),
        ),
        encrypted_file@.len() == 0 || encrypted_file@.len() % 16 != 0 ==> result is Err,
        (encrypted_file@.len() == 0 || encrypted_file@.len() % 16 != 0) && private_key_parses(
            user_private_key@,
        ) ==> result is Err && result->Err_0.is(
            INTERNAL_SERVER_ERROR,
            "Unable to retrieve file"@,
        ),
        result matches Ok(plaintext) ==> plaintext@.len() < encrypted_file@.len()
            <= plaintext@.len() + 16,
{
    let envelope = Envelope { wrapped_key: encrypted_aes_key, ciphertext: encrypted_file, iv };
    match envelope.decrypt(user_private_key) {
        Ok(plaintext) => Ok(plaintext),
        Err(AccessError::KeyFormat) => Err(
            HttpError::server_error(String::from_str("Invalid private key")),
        ),
        Err(_) => Err(HttpError::server_error(String::from_str("Unable to retrieve file"))),
    }
}

} // verus!
