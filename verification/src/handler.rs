//! What the request handlers decide, apart from the transport and the store
//! that surround them.

pub mod auth;
pub mod file;
pub mod file_query;
pub mod user;
