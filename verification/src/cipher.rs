//! Symmetric cipher engine: AES-256 in CBC mode with PKCS#7 padding.
//!
//! The engine is stateless. The block cipher and the chaining are the work of
//! the `aes` and `cbc` crates; this module fixes key and IV sizes, states what
//! is known of the transform, and turns the padding failure into a value.

use aes::Aes256;
use cbc::cipher::block_padding::{Pkcs7, UnpadError};
use cbc::cipher::{BlockDecryptMut, BlockEncryptMut, KeyIvInit};
use vstd::prelude::*;

verus! {

/// The only failure of decryption: the final block does not end in
/// well-formed PKCS#7 padding, or the input is not a positive number of whole
/// blocks. A wrong key, a wrong IV and a damaged ciphertext all show as this.
#[derive(Clone, Copy, Debug, PartialEq, Eq, Structural)]
pub struct PaddingError;

/// Length of the ciphertext of a plaintext of `n` bytes: `n` rounded up to the
/// next block boundary, with a whole block of padding when `n` is already on
/// one.
pub open spec fn padded_len(n: nat) -> nat {
    (n / 16 + 1) * 16
}

/// Whether a plaintext of `n` bytes can be encrypted: its ciphertext must be
/// no longer than the largest allocation.
pub open spec fn encryptable_len(n: nat) -> bool {
    n + 16 <= isize::MAX
}

/// The AES-256-CBC ciphertext of `plaintext`, PKCS#7-padded, under `key` and
/// `iv`, as `cbc::Encryptor<Aes256>` computes it.
pub uninterp spec fn cbc_encrypted(key: Seq<u8>, iv: Seq<u8>, plaintext: Seq<u8>) -> Seq<u8>;

/// What `cbc::Decryptor<Aes256>` recovers from `ciphertext` under `key` and
/// `iv`: the unpadded plaintext, or `None` where it reports a padding error.
pub uninterp spec fn cbc_decrypted(key: Seq<u8>, iv: Seq<u8>, ciphertext: Seq<u8>) -> Option<
    Seq<u8>,
>;

#[verifier::external_type_specification]
#[verifier::external_body]
pub struct ExUnpadError(UnpadError);

/// `cbc::Encryptor::<Aes256>::encrypt_padded_vec_mut::<Pkcs7>`.
///
/// Trusted: the result is the named ciphertext; it is `padded_len` bytes long
/// (PKCS#7 always appends between one and sixteen bytes); and the matching
/// decryptor, given the same key and IV, recovers the plaintext.
#[verifier::external_body]
fn cbc_encrypt(key: &[u8; 32], iv: &[u8; 16], plaintext: &[u8]) -> (ciphertext: Vec<u8>)
    requires
        encryptable_len(plaintext@.len()),
    ensures
        ciphertext@ == cbc_encrypted(key@, iv@, plaintext@),
        ciphertext@.len() == padded_len(plaintext@.len()),
        cbc_decrypted(key@, iv@, ciphertext@) == Some(plaintext@),
{
    cbc::Encryptor::<Aes256>::new(key.into(), iv.into()).encrypt_padded_vec_mut::<Pkcs7>(plaintext)
}

/// `cbc::Decryptor::<Aes256>::decrypt_padded_vec_mut::<Pkcs7>`.
///
/// Trusted: the outcome is the named one; an input that is empty or not a
/// whole number of blocks is refused; and unpadding removes between one and
/// sixteen bytes.
#[verifier::external_body]
fn cbc_decrypt(key: &[u8; 32], iv: &[u8; 16], ciphertext: &[u8]) -> (outcome: Result<
    Vec<u8>,
    UnpadError,
>)
    ensures
        outcome matches Ok(plaintext) ==> cbc_decrypted(key@, iv@, ciphertext@) == Some(
            plaintext@,
        ),
        outcome is Err ==> cbc_decrypted(key@, iv@, ciphertext@) is None,
        ciphertext@.len() == 0 || ciphertext@.len() % 16 != 0 ==> outcome is Err,
        outcome matches Ok(plaintext) ==> plaintext@.len() < ciphertext@.len()
            <= plaintext@.len() + 16,
{
    cbc::Decryptor::<Aes256>::new(key.into(), iv.into()).decrypt_padded_vec_mut::<Pkcs7>(ciphertext)
}

/// The 16 bytes of `bytes` as an initialization vector, where it has exactly
/// 16.
pub fn iv_from_bytes(bytes: &Vec<u8>) -> (iv: Option<[u8; 16]>)
    ensures
        iv is Some <==> bytes@.len() == 16,
        iv matches Some(block) ==> block@ == bytes@,
{
    if bytes.len() != 16 {
        return None;
    }
    let mut iv = [0u8; 16];
    let mut i: usize = 0;
    while i < 16
        invariant
            i <= 16,
            bytes@.len() == 16,
            forall|j: int| 0 <= j < i ==> iv@[j] == bytes@[j],
        decreases 16 - i,
    {
        iv[i] = bytes[i];
        i += 1;
    }
    assert(iv@ =~= bytes@);
    Some(iv)
}

/// What `decrypt` returns, as a value of the model.
pub open spec fn decryption(key: Seq<u8>, iv: Seq<u8>, ciphertext: Seq<u8>) -> Result<
    Seq<u8>,
    PaddingError,
> {
    match cbc_decrypted(key, iv, ciphertext) {
        Some(plaintext) => Ok(plaintext),
        None => Err(PaddingError),
    }
}

/// The model of an exec decryption result.
pub open spec fn decrypted_view(outcome: Result<Vec<u8>, PaddingError>) -> Result<
    Seq<u8>,
    PaddingError,
> {
    match outcome {
        Ok(plaintext) => Ok(plaintext@),
        Err(e) => Err(e),
    }
}

/// Encrypts `plaintext` under `key` and `iv`.
///
/// The ciphertext is a whole number of blocks, strictly longer than the
/// plaintext, and decrypts to the plaintext under the same key and IV.
pub fn encrypt(plaintext: &[u8], key: &[u8; 32], iv: &[u8; 16]) -> (ciphertext: Vec<u8>)
    requires
        encryptable_len(plaintext@.len()),
    ensures
        ciphertext@ == cbc_encrypted(key@, iv@, plaintext@),
        ciphertext@.len() == padded_len(plaintext@.len()),
        decryption(key@, iv@, ciphertext@) == Ok::<Seq<u8>, PaddingError>(plaintext@),
{
    cbc_encrypt(key, iv, plaintext)
}

/// Tells a decryptor's outcome as this engine's: the plaintext, or
/// `PaddingError` whatever the decryptor's error.
pub fn unpadded(outcome: Result<Vec<u8>, UnpadError>) -> (result: Result<Vec<u8>, PaddingError>)
    ensures
        outcome matches Ok(plaintext) ==> result == Ok::<Vec<u8>, PaddingError>(plaintext),
        outcome is Err ==> result == Err::<Vec<u8>, PaddingError>(PaddingError),
{
    match outcome {
        Ok(plaintext) => Ok(plaintext),
        Err(_) => Err(PaddingError),
    }
}

/// Decrypts `ciphertext` under `key` and `iv`.
///
/// Fails with `PaddingError` exactly where the decryptor finds no well-formed
/// padding, which includes every input that is empty or not a whole number
/// of blocks.
pub fn decrypt(ciphertext: &[u8], key: &[u8; 32], iv: &[u8; 16]) -> (result: Result<
    Vec<u8>,
    PaddingError,
>)
    ensures
        decrypted_view(result) == decryption(key@, iv@, ciphertext@),
        ciphertext@.len() == 0 || ciphertext@.len() % 16 != 0 ==> result is Err,
        result matches Ok(plaintext) ==> plaintext@.len() < ciphertext@.len()
            <= plaintext@.len() + 16,
{
    unpadded(cbc_decrypt(key, iv, ciphertext))
}

} // verus!
