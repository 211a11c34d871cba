//! The two directions of the envelope, as the handlers call them.

pub mod decrypt;
pub mod encrypt;
