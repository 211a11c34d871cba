//! Hybrid envelope encryption with password-gated, expiring share links.
//!
//! A file body is encrypted under a fresh AES-256 key (CBC mode, PKCS#7
//! padding); the key is wrapped under the recipient's RSA public key
//! (PKCS#1 v1.5). The resulting envelope is stored next to a share link that
//! carries a password hash and an expiration instant. Retrieval checks expiry,
//! then the password, and only then touches key material.

pub mod cipher;
pub mod config;
pub mod dtos;
pub mod envelope;
pub mod error;
pub mod handler;
pub mod ids;
pub mod keywrap;
pub mod models;
pub mod password;
pub mod registry;
pub mod text;
pub mod time;
pub mod utils;
