//! Rows of the store, as the handlers see them.

use crate::time::Timestamp;
use vstd::prelude::*;

verus! {

/// A registered user. `public_key` is the user's PKCS#1 PEM public key,
/// base64-wrapped.
#[derive(Debug, Clone)]
pub struct User {
    pub id: u128,
    pub email: String,
    pub name: String,
    pub password: String,
    pub public_key: Option<String>,
    pub created_at: Option<Timestamp>,
    pub updated_at: Option<Timestamp>,
}

/// A stored file: the envelope and what was known of the file at upload
/// time.
#[derive(Debug, Clone)]
pub struct File {
    pub id: u128,
    pub user_id: Option<u128>,
    pub file_name: String,
    pub file_size: i64,
    pub encrypted_aes_key: Vec<u8>,
    pub encrypted_file: Vec<u8>,
    pub iv: Vec<u8>,
    pub created_at: Option<Timestamp>,
}

/// A stored share link. `password` is the hash of the access password.
#[derive(Debug, Clone)]
pub struct ShareLink {
    pub id: u128,
    pub file_id: Option<u128>,
    pub recipient_user_id: Option<u128>,
    pub password: String,
    pub expiration_date: Option<Timestamp>,
    pub created_at: Option<Timestamp>,
}

/// A file that a user has sent, with the recipient's address.
pub struct SendFileDetails {
    pub file_id: u128,
    pub file_name: String,
    pub recipient_email: String,
    pub expiration_date: Option<Timestamp>,
    pub created_at: Option<Timestamp>,
}

/// A file that a user has received, with the sender's address.
pub struct ReceiveFileDetails {
    pub file_id: u128,
    pub file_name: String,
    pub sender_email: String,
    pub expiration_date: Option<Timestamp>,
    pub created_at: Option<Timestamp>,
}

} // verus!
