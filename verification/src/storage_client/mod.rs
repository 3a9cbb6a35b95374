//! A node that registers itself, and that moves chunks over HTTP.
//!
//! Its chunks lie in subdirectories of the storage directory, each named after the first two
//! bytes of the identifiers of the chunks in it.

pub mod commands;
pub mod laws;
pub mod message_laws;
pub mod network;
pub mod session_laws;
pub mod step_laws;
pub mod storage;
