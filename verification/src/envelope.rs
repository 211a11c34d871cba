//! Envelope builder and opener.
//!
//! `seal` draws a fresh key and IV, encrypts the body and wraps the key.
//! `open` is the reverse path behind two gates: the link must not have
//! expired, and the password attempt must match the stored hash. The gates
//! are passed in that order, and no key material is touched before both.

use crate::cipher::{
    cbc_encrypted, decrypt, decryption, encrypt, encryptable_len, iv_from_bytes, padded_len,
    PaddingError,
};
use crate::keywrap::{
    has_room, modulus_len, private_key_parses, public_key_parses, unwrap, unwrapping, wipe, wrap,
    UnwrapError, WrapError,
};
use crate::password;
use crate::time::{Timestamp, MICROS_PER_SECOND};
use rand::{thread_rng, Rng};
use vstd::prelude::*;
use vstd::slice::slice_to_vec;

verus! {

/// The stored bundle of one uploaded file: its ciphertext, the symmetric key
/// wrapped for the recipient, and the initialization vector in the clear.
#[derive(Debug, Clone)]
pub struct Envelope {
    pub wrapped_key: Vec<u8>,
    pub ciphertext: Vec<u8>,
    pub iv: Vec<u8>,
}

/// Why an envelope was not opened.
#[derive(Clone, Copy, Debug, PartialEq, Eq, Structural)]
pub enum AccessError {
    /// The link's expiration instant has been reached.
    LinkExpired,
    /// The attempt does not match the stored password hash.
    WrongPassword,
    /// The private key text is not acceptable.
    KeyFormat,
    /// The key could not be unwrapped or the body not decrypted; which of
    /// the two is not told.
    DecryptionFailed,
}

impl Envelope {
    /// The invariant of an envelope sealed from `plaintext` under `key`: the
    /// key has 256 bits, the IV 128, and together they decrypt the
    /// ciphertext to `plaintext`.
    pub open spec fn holds(self, plaintext: Seq<u8>, key: Seq<u8>) -> bool {
        key.len() == 32 && self.iv@.len() == 16 && decryption(key, self.iv@, self.ciphertext@)
            == Ok::<Seq<u8>, PaddingError>(plaintext)
    }

    /// Whether the envelope was sealed from `plaintext`: the invariant holds
    /// under some 256-bit key.
    pub open spec fn sealed_from(self, plaintext: Seq<u8>) -> bool {
        exists|key: Seq<u8>| #[trigger] self.holds(plaintext, key)
    }

    /// What `decrypt` returns, as a value of the model: unwrap the key, then
    /// decrypt the body; every failure past the reading of the private key is
    /// `DecryptionFailed`.
    pub open spec fn decrypting(self, private_pem: Seq<char>) -> Result<Seq<u8>, AccessError> {
        match unwrapping(self.wrapped_key@, private_pem) {
            Err(UnwrapError::KeyFormat) => Err(AccessError::KeyFormat),
            Err(UnwrapError::Rejected) => Err(AccessError::DecryptionFailed),
            Ok(key) => if self.iv@.len() != 16 {
                Err(AccessError::DecryptionFailed)
            } else {
                match decryption(key, self.iv@, self.ciphertext@) {
                    Ok(plaintext) => Ok(plaintext),
                    Err(_) => Err(AccessError::DecryptionFailed),
                }
            },
        }
    }

    /// What `open` returns, as a value of the model: the gates first, and
    /// only behind them the decryption.
    pub open spec fn opening(
        self,
        share_password_attempt: Seq<char>,
        stored_password_hash: Seq<char>,
        expiration_date: Timestamp,
        now: Timestamp,
        private_pem: Seq<char>,
    ) -> Result<Seq<u8>, AccessError> {
        match access_check(share_password_attempt, stored_password_hash, expiration_date, now) {
            Err(e) => Err(e),
            Ok(_) => self.decrypting(private_pem),
        }
    }

    /// Unwraps the key with `recipient_private_key` and decrypts the body.
    /// The key is zeroed before this returns.
    pub fn decrypt(&self, recipient_private_key: &str) -> (result: Result<Vec<u8>, AccessError>)
        ensures
            opened_view(result) == self.decrypting(recipient_private_key@),
            self.ciphertext@.len() == 0 || self.ciphertext@.len() % 16 != 0 ==> result is Err,
            (self.ciphertext@.len() == 0 || self.ciphertext@.len() % 16 != 0)
                && private_key_parses(recipient_private_key@) ==> result == Err::<
                Vec<u8>,
                AccessError,
            >(AccessError::DecryptionFailed),
            result matches Ok(plaintext) ==> plaintext@.len() < self.ciphertext@.len()
                <= plaintext@.len() + 16,
    {
        match unwrap(self.wrapped_key.as_slice(), recipient_private_key) {
            Err(UnwrapError::KeyFormat) => Err(AccessError::KeyFormat),
            Err(UnwrapError::Rejected) => Err(AccessError::DecryptionFailed),
            Ok(key) => {
                let mut key = key;
                let result = match iv_from_bytes(&self.iv) {
                    None => Err(AccessError::DecryptionFailed),
                    Some(iv) => match decrypt(self.ciphertext.as_slice(), &key, &iv) {
                        Ok(plaintext) => Ok(plaintext),
                        Err(_) => Err(AccessError::DecryptionFailed),
                    },
                };
                wipe(&mut key);
                result
            },
        }
    }
}

/// The model of an exec opening result.
pub open spec fn opened_view(result: Result<Vec<u8>, AccessError>) -> Result<
    Seq<u8>,
    AccessError,
> {
    match result {
        Ok(plaintext) => Ok(plaintext@),
        Err(e) => Err(e),
    }
}

/// `rand::Rng::fill` on the thread's random generator.
///
/// Trusted: nothing is said of the bytes.
#[verifier::external_body]
fn fresh_bytes<const N: usize>() -> (bytes: [u8; N]) {
    let mut bytes = [0u8; N];
    thread_rng().fill(&mut bytes[..]);
    bytes
}

/// What `seal` fails with, if it does: `KeyFormat` where the public key text
/// is not accepted, `Encryption` where the key has no room for a 256-bit key
/// and its padding.
pub open spec fn seal_refusal(public_pem: Seq<char>) -> Option<WrapError> {
    if !public_key_parses(public_pem) {
        Some(WrapError::KeyFormat)
    } else if !has_room(public_pem) {
        Some(WrapError::Encryption)
    } else {
        None
    }
}

/// Builds the envelope of `plaintext` under a given key and IV.
///
/// Fails exactly as `seal_refusal` tells. An envelope carries the IV, the
/// ciphertext of `plaintext` under `key` and `iv`, and a wrapped key as
/// long as the recipient's modulus.
pub fn seal_with(
    plaintext: &[u8],
    recipient_public_key: &str,
    key: &[u8; 32],
    iv: &[u8; 16],
) -> (result: Result<Envelope, WrapError>)
    requires
        encryptable_len(plaintext@.len()),
    ensures
        match seal_refusal(recipient_public_key@) {
            Some(e) => result == Err::<Envelope, WrapError>(e),
            None => result is Ok,
        },
        result matches Ok(envelope) ==> {
            &&& envelope.iv@ == iv@
            &&& envelope.ciphertext@ == cbc_encrypted(key@, iv@, plaintext@)
            &&& envelope.ciphertext@.len() == padded_len(plaintext@.len())
            &&& envelope.wrapped_key@.len() == modulus_len(recipient_public_key@)
            &&& envelope.holds(plaintext@, key@)
        },
{
    let ciphertext = encrypt(plaintext, key, iv);
    match wrap(key, recipient_public_key) {
        Err(e) => Err(e),
        Ok(wrapped_key) => Ok(
            Envelope { wrapped_key, ciphertext, iv: slice_to_vec(iv.as_slice()) },
        ),
    }
}

/// Builds the envelope of `plaintext` for the owner of `recipient_public_key`,
/// a PKCS#1 PEM text.
///
/// The key and the IV are drawn afresh from a secure random source on every
/// call, and the key is zeroed once the body is encrypted and the key
/// wrapped. Fails exactly as `seal_refusal` tells. An envelope that comes
/// back was sealed from `plaintext`, and its wrapped key is as long as the
/// recipient's modulus.
pub fn seal(plaintext: &[u8], recipient_public_key: &str) -> (result: Result<Envelope, WrapError>)
    requires
        encryptable_len(plaintext@.len()),
    ensures
        match seal_refusal(recipient_public_key@) {
            Some(e) => result == Err::<Envelope, WrapError>(e),
            None => result is Ok,
        },
        result matches Ok(envelope) ==> {
            &&& envelope.iv@.len() == 16
            &&& envelope.ciphertext@.len() == padded_len(plaintext@.len())
            &&& envelope.wrapped_key@.len() == modulus_len(recipient_public_key@)
            &&& envelope.sealed_from(plaintext@)
        },
{
    let mut key = fresh_bytes::<32>();
    let iv = fresh_bytes::<16>();
    let result = seal_with(plaintext, recipient_public_key, &key, &iv);
    proof {
        if result is Ok {
            assert(result->Ok_0.holds(plaintext@, key@));
        }
    }
    wipe(&mut key);
    result
}

/// What `check_access` returns: expiry is judged first, the password second.
pub open spec fn access_check(
    share_password_attempt: Seq<char>,
    stored_password_hash: Seq<char>,
    expiration_date: Timestamp,
    now: Timestamp,
) -> Result<(), AccessError> {
    if now.reached(expiration_date) {
        Err(AccessError::LinkExpired)
    } else if !password::accepts(share_password_attempt, stored_password_hash) {
        Err(AccessError::WrongPassword)
    } else {
        Ok(())
    }
}

/// The two gates before any key material is touched.
///
/// 1. If `now` has reached `expiration_date`, the result is `LinkExpired`,
///    whatever the password; the password is not even compared.
/// 2. If the attempt does not match the stored hash, or the stored hash is
///    no hash at all, the result is `WrongPassword`.
pub fn check_access(
    share_password_attempt: &str,
    stored_password_hash: &str,
    expiration_date: Timestamp,
    now: Timestamp,
) -> (result: Result<(), AccessError>)
    ensures
        result == access_check(
            share_password_attempt@,
            stored_password_hash@,
            expiration_date,
            now,
        ),
{
    if now.has_reached(&expiration_date) {
        return Err(AccessError::LinkExpired);
    }
    match password::compare(share_password_attempt, stored_password_hash) {
        Ok(true) => Ok(()),
        _ => Err(AccessError::WrongPassword),
    }
}

/// Opens `envelope` for the bearer of a share link.
///
/// The gates come first: an expired link gives `LinkExpired`, a
/// password that does not match gives `WrongPassword`, in that order, and
/// in both cases no key is read or unwrapped. Behind the gates the envelope
/// is decrypted with `recipient_private_key`.
pub fn open(
    envelope: &Envelope,
    share_password_attempt: &str,
    stored_password_hash: &str,
    expiration_date: Timestamp,
    now: Timestamp,
    recipient_private_key: &str,
) -> (result: Result<Vec<u8>, AccessError>)
    ensures
        opened_view(result) == envelope.opening(
            share_password_attempt@,
            stored_password_hash@,
            expiration_date,
            now,
            recipient_private_key@,
        ),
        envelope.ciphertext@.len() == 0 || envelope.ciphertext@.len() % 16 != 0
            ==> result is Err,
        result matches Ok(plaintext) ==> plaintext@.len() < envelope.ciphertext@.len()
            <= plaintext@.len() + 16,
{
    match check_access(share_password_attempt, stored_password_hash, expiration_date, now) {
        Err(e) => Err(e),
        Ok(()) => envelope.decrypt(recipient_private_key),
    }
}

/// Round trip: where a private key recovers from the wrapped key the key
/// that the envelope was sealed under, the envelope decrypts to the plaintext
/// it was sealed from.
pub proof fn lemma_sealed_envelope_decrypts(
    envelope: Envelope,
    plaintext: Seq<u8>,
    key: Seq<u8>,
    private_pem: Seq<char>,
)
    requires
        envelope.holds(plaintext, key),
        unwrapping(envelope.wrapped_key@, private_pem) == Ok::<Seq<u8>, UnwrapError>(key),
    ensures
        envelope.decrypting(private_pem) == Ok::<Seq<u8>, AccessError>(plaintext),
{
}

/// Round trip through the gates: before expiry and with a password that
/// matches the stored hash, opening a sealed envelope with a private key
/// that recovers the sealing key gives back the plaintext.
pub proof fn lemma_sealed_envelope_opens(
    envelope: Envelope,
    plaintext: Seq<u8>,
    key: Seq<u8>,
    private_pem: Seq<char>,
    password: Seq<char>,
    stored_password_hash: Seq<char>,
    expiration_date: Timestamp,
    now: Timestamp,
)
    requires
        envelope.holds(plaintext, key),
        unwrapping(envelope.wrapped_key@, private_pem) == Ok::<Seq<u8>, UnwrapError>(key),
        password::accepts(password, stored_password_hash),
        now.micros < expiration_date.micros,
    ensures
        envelope.opening(password, stored_password_hash, expiration_date, now, private_pem)
            == Ok::<Seq<u8>, AccessError>(plaintext),
{
}

/// Expiry boundary, the last second: one second before the expiration
/// instant, with a password that matches the stored hash, a sealed envelope
/// opens under a private key that recovers the sealing key.
pub proof fn lemma_sealed_envelope_opens_one_second_before_expiry(
    envelope: Envelope,
    plaintext: Seq<u8>,
    key: Seq<u8>,
    private_pem: Seq<char>,
    password: Seq<char>,
    stored_password_hash: Seq<char>,
    expiration_date: Timestamp,
    now: Timestamp,
)
    requires
        envelope.holds(plaintext, key),
        unwrapping(envelope.wrapped_key@, private_pem) == Ok::<Seq<u8>, UnwrapError>(key),
        password::accepts(password, stored_password_hash),
        now.micros == expiration_date.micros - MICROS_PER_SECOND,
    ensures
        envelope.opening(password, stored_password_hash, expiration_date, now, private_pem)
            == Ok::<Seq<u8>, AccessError>(plaintext),
{
}

/// Expiry boundary and precedence: at the expiration instant and at any
/// later one the link is expired, whatever the password, the envelope and
/// the key.
pub proof fn lemma_expiry_is_judged_first(
    envelope: Envelope,
    share_password_attempt: Seq<char>,
    stored_password_hash: Seq<char>,
    expiration_date: Timestamp,
    now: Timestamp,
    private_pem: Seq<char>,
)
    requires
        now.micros >= expiration_date.micros,
    ensures
        envelope.opening(
            share_password_attempt,
            stored_password_hash,
            expiration_date,
            now,
            private_pem,
        ) == Err::<Seq<u8>, AccessError>(AccessError::LinkExpired),
{
}

/// Expiry boundary, the near side: until the expiration instant is reached,
/// and so one second before it, expiry plays no part in the outcome: a
/// wrong password is refused as such, and a matching one hands the decision
/// to the keys.
pub proof fn lemma_before_expiry(
    envelope: Envelope,
    share_password_attempt: Seq<char>,
    stored_password_hash: Seq<char>,
    expiration_date: Timestamp,
    now: Timestamp,
    private_pem: Seq<char>,
)
    requires
        now.micros < expiration_date.micros,
    ensures
        !password::accepts(share_password_attempt, stored_password_hash) ==> envelope.opening(
            share_password_attempt,
            stored_password_hash,
            expiration_date,
            now,
            private_pem,
        ) == Err::<Seq<u8>, AccessError>(AccessError::WrongPassword),
        password::accepts(share_password_attempt, stored_password_hash) ==> envelope.opening(
            share_password_attempt,
            stored_password_hash,
            expiration_date,
            now,
            private_pem,
        ) == envelope.decrypting(private_pem),
{
}

} // verus!
